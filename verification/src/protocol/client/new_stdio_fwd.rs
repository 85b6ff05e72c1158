//! Asking the peer to connect the standard streams to a remote address.

use vstd::prelude::*;
use crate::error::{ParseError, ParseErrorView, Parsed};
use crate::protocol::client::ListenType;
use crate::protocol::strings::{lemma_parse_string_serialized, parse_string, string_ok, wire_string};
use crate::protocol::utils::{parse_u32, u32_to_be};
use crate::protocol::{context, in_context, parsed, Wire};

verus! {

/// A request to connect the two descriptors that follow it to
/// `connect_host:connect_port`.
#[derive(Debug, PartialEq, Eq)]
pub struct NewStdioFwd {
    pub request_id: u32,
    pub connect_host: String,
    pub connect_port: ListenType,
}

/// The mathematical value of a [`NewStdioFwd`].
pub struct NewStdioFwdView {
    pub request_id: u32,
    pub connect_host: Seq<char>,
    pub connect_port: ListenType,
}

impl View for NewStdioFwd {
    type V = NewStdioFwdView;

    open spec fn view(&self) -> NewStdioFwdView {
        NewStdioFwdView {
            request_id: self.request_id,
            connect_host: self.connect_host@,
            connect_port: self.connect_port,
        }
    }
}

impl NewStdioFwdView {
    /// The encoding of the message. Between the request id and the host
    /// stands a reserved text, which is sent empty.
    pub open spec fn encode(self) -> Seq<u8> {
        u32_to_be(self.request_id) + wire_string(Seq::<char>::empty()) + wire_string(
            self.connect_host,
        ) + self.connect_port.encode()
    }

    /// Whether the encoding loses nothing: the host fits its byte count.
    pub open spec fn encodable(self) -> bool {
        string_ok(self.connect_host)
    }

    /// The fields in order; the first that fails decides. The reserved
    /// text is decoded and dropped, whatever it holds.
    pub open spec fn decode_fields(s: Seq<u8>) -> Parsed<NewStdioFwdView> {
        match parse_u32(s) {
            Err(e) => Err(e),
            Ok((s1, request_id)) => match parse_string(s1) {
                Err(e) => Err(e),
                Ok((s2, _reserved)) => match parse_string(s2) {
                    Err(e) => Err(e),
                    Ok((s3, connect_host)) => match ListenType::decode(s3) {
                        Err(e) => Err(e),
                        Ok((s4, connect_port)) => Ok(
                            (s4, NewStdioFwdView { request_id, connect_host, connect_port }),
                        ),
                    },
                },
            },
        }
    }

    /// What decoding `s` as this message gives.
    pub open spec fn decode(s: Seq<u8>) -> Parsed<NewStdioFwdView> {
        in_context("NewStdioFwd"@, s, Self::decode_fields(s))
    }

    /// Decoding the encoding of a message gives the message and leaves
    /// what followed it.
    pub proof fn lemma_decode_encode(self, tail: Seq<u8>)
        requires
            self.encodable(),
        ensures
            Self::decode(self.encode() + tail) == Ok::<(Seq<u8>, NewStdioFwdView), ParseErrorView>(
                (tail, self),
            ),
    {
        let s3 = self.connect_port.encode() + tail;
        let s2 = wire_string(self.connect_host) + s3;
        let s1 = wire_string(Seq::<char>::empty()) + s2;
        assert(self.encode() + tail =~= u32_to_be(self.request_id) + s1);
        u32::lemma_parse_serialized(self.request_id, s1);
        lemma_parse_string_serialized(Seq::<char>::empty(), s2);
        lemma_parse_string_serialized(self.connect_host, s3);
        self.connect_port.lemma_decode_encode(tail);
    }
}

impl NewStdioFwd {
    fn fields<'a>(input: &'a [u8]) -> (r: core::result::Result<
        (&'a [u8], NewStdioFwd),
        ParseError,
    >)
        ensures
            parsed(r) == NewStdioFwdView::decode_fields(input@),
    {
        let (rest, request_id) = u32::parse(input)?;
        let (rest, _reserved) = String::parse(rest)?;
        let (rest, connect_host) = String::parse(rest)?;
        let (rest, connect_port) = ListenType::parse(rest)?;
        Ok((rest, NewStdioFwd { request_id, connect_host, connect_port }))
    }

    /// The message itself: it owns its host.
    pub fn into_owned(self) -> (r: NewStdioFwd)
        ensures
            r == self,
    {
        self
    }
}

impl Wire for NewStdioFwd {
    open spec fn spec_wire(v: NewStdioFwdView) -> Seq<u8> {
        v.encode()
    }

    open spec fn spec_parse(input: Seq<u8>) -> Parsed<NewStdioFwdView> {
        NewStdioFwdView::decode(input)
    }

    open spec fn wire_ok(v: NewStdioFwdView) -> bool {
        v.encodable()
    }

    fn parse<'a>(input: &'a [u8]) -> (r: core::result::Result<
        (&'a [u8], NewStdioFwd),
        ParseError,
    >) {
        context("NewStdioFwd", input, Self::fields(input))
    }

    fn serialize(&self, writer: &mut Vec<u8>) {
        self.request_id.serialize(writer);
        String::new().serialize(writer);
        self.connect_host.serialize(writer);
        self.connect_port.serialize(writer);
        assert(final(writer)@ =~= old(writer)@ + self@.encode());
    }

    open spec fn self_delimiting() -> bool {
        true
    }

    proof fn lemma_parse_serialized(v: NewStdioFwdView, tail: Seq<u8>) {
        v.lemma_decode_encode(tail);
    }
}

impl Clone for NewStdioFwd {
    fn clone(&self) -> (copy: NewStdioFwd)
        ensures
            copy@ == self@,
    {
        NewStdioFwd {
            request_id: self.request_id,
            connect_host: self.connect_host.clone(),
            connect_port: self.connect_port,
        }
    }
}

} // verus!
