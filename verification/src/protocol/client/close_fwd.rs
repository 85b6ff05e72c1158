//! Asking the peer to take down a port forwarding.

use vstd::prelude::*;
use crate::error::{ParseError, ParseErrorView, Parsed};
use crate::protocol::client::{ForwardingType, ListenType};
use crate::protocol::strings::{lemma_parse_string_serialized, parse_string, string_ok, wire_string};
use crate::protocol::utils::{parse_u32, u32_to_be};
use crate::protocol::{context, in_context, parsed, Wire};

verus! {

/// A request to stop forwarding from `listen_host:listen_port` to
/// `connect_host:connect_port`.
#[derive(Debug, PartialEq, Eq)]
pub struct CloseFwd {
    pub request_id: u32,
    pub forwarding_type: ForwardingType,
    pub listen_host: String,
    pub listen_port: ListenType,
    pub connect_host: String,
    pub connect_port: ListenType,
}

/// The mathematical value of a [`CloseFwd`].
pub struct CloseFwdView {
    pub request_id: u32,
    pub forwarding_type: ForwardingType,
    pub listen_host: Seq<char>,
    pub listen_port: ListenType,
    pub connect_host: Seq<char>,
    pub connect_port: ListenType,
}

impl View for CloseFwd {
    type V = CloseFwdView;

    open spec fn view(&self) -> CloseFwdView {
        CloseFwdView {
            request_id: self.request_id,
            forwarding_type: self.forwarding_type,
            listen_host: self.listen_host@,
            listen_port: self.listen_port,
            connect_host: self.connect_host@,
            connect_port: self.connect_port,
        }
    }
}

impl CloseFwdView {
    /// The encoding of the message: its six fields in order.
    pub open spec fn encode(self) -> Seq<u8> {
        u32_to_be(self.request_id) + self.forwarding_type.encode() + wire_string(self.listen_host)
            + self.listen_port.encode() + wire_string(self.connect_host)
            + self.connect_port.encode()
    }

    /// Whether the encoding loses nothing: both hosts fit their byte count.
    pub open spec fn encodable(self) -> bool {
        string_ok(self.listen_host) && string_ok(self.connect_host)
    }

    /// The six fields in order; the first that fails decides.
    pub open spec fn decode_fields(s: Seq<u8>) -> Parsed<CloseFwdView> {
        match parse_u32(s) {
            Err(e) => Err(e),
            Ok((s1, request_id)) => match ForwardingType::decode(s1) {
                Err(e) => Err(e),
                Ok((s2, forwarding_type)) => match parse_string(s2) {
                    Err(e) => Err(e),
                    Ok((s3, listen_host)) => match ListenType::decode(s3) {
                        Err(e) => Err(e),
                        Ok((s4, listen_port)) => match parse_string(s4) {
                            Err(e) => Err(e),
                            Ok((s5, connect_host)) => match ListenType::decode(s5) {
                                Err(e) => Err(e),
                                Ok((s6, connect_port)) => Ok(
                                    (
                                        s6,
                                        CloseFwdView {
                                            request_id,
                                            forwarding_type,
                                            listen_host,
                                            listen_port,
                                            connect_host,
                                            connect_port,
                                        },
                                    ),
                                ),
                            },
                        },
                    },
                },
            },
        }
    }

    /// What decoding `s` as this message gives.
    pub open spec fn decode(s: Seq<u8>) -> Parsed<CloseFwdView> {
        in_context("CloseFwd"@, s, Self::decode_fields(s))
    }

    /// Decoding the encoding of a message gives the message and leaves
    /// what followed it.
    pub proof fn lemma_decode_encode(self, tail: Seq<u8>)
        requires
            self.encodable(),
        ensures
            Self::decode(self.encode() + tail) == Ok::<(Seq<u8>, CloseFwdView), ParseErrorView>(
                (tail, self),
            ),
    {
        let s5 = self.connect_port.encode() + tail;
        let s4 = wire_string(self.connect_host) + s5;
        let s3 = self.listen_port.encode() + s4;
        let s2 = wire_string(self.listen_host) + s3;
        let s1 = self.forwarding_type.encode() + s2;
        assert(self.encode() + tail =~= u32_to_be(self.request_id) + s1);
        u32::lemma_parse_serialized(self.request_id, s1);
        self.forwarding_type.lemma_decode_encode(s2);
        lemma_parse_string_serialized(self.listen_host, s3);
        self.listen_port.lemma_decode_encode(s4);
        lemma_parse_string_serialized(self.connect_host, s5);
        self.connect_port.lemma_decode_encode(tail);
    }
}

impl CloseFwd {
    fn fields<'a>(input: &'a [u8]) -> (r: core::result::Result<(&'a [u8], CloseFwd), ParseError>)
        ensures
            parsed(r) == CloseFwdView::decode_fields(input@),
    {
        let (rest, request_id) = u32::parse(input)?;
        let (rest, forwarding_type) = ForwardingType::parse(rest)?;
        let (rest, listen_host) = String::parse(rest)?;
        let (rest, listen_port) = ListenType::parse(rest)?;
        let (rest, connect_host) = String::parse(rest)?;
        let (rest, connect_port) = ListenType::parse(rest)?;
        Ok(
            (
                rest,
                CloseFwd {
                    request_id,
                    forwarding_type,
                    listen_host,
                    listen_port,
                    connect_host,
                    connect_port,
                },
            ),
        )
    }

    /// The message itself: it owns its two hosts.
    pub fn into_owned(self) -> (r: CloseFwd)
        ensures
            r == self,
    {
        self
    }
}

impl Wire for CloseFwd {
    open spec fn spec_wire(v: CloseFwdView) -> Seq<u8> {
        v.encode()
    }

    open spec fn spec_parse(input: Seq<u8>) -> Parsed<CloseFwdView> {
        CloseFwdView::decode(input)
    }

    open spec fn wire_ok(v: CloseFwdView) -> bool {
        v.encodable()
    }

    fn parse<'a>(input: &'a [u8]) -> (r: core::result::Result<(&'a [u8], CloseFwd), ParseError>) {
        context("CloseFwd", input, Self::fields(input))
    }

    fn serialize(&self, writer: &mut Vec<u8>) {
        self.request_id.serialize(writer);
        self.forwarding_type.serialize(writer);
        self.listen_host.serialize(writer);
        self.listen_port.serialize(writer);
        self.connect_host.serialize(writer);
        self.connect_port.serialize(writer);
        assert(final(writer)@ =~= old(writer)@ + self@.encode());
    }

    open spec fn self_delimiting() -> bool {
        true
    }

    proof fn lemma_parse_serialized(v: CloseFwdView, tail: Seq<u8>) {
        v.lemma_decode_encode(tail);
    }
}

impl Clone for CloseFwd {
    fn clone(&self) -> (copy: CloseFwd)
        ensures
            copy@ == self@,
    {
        CloseFwd {
            request_id: self.request_id,
            forwarding_type: self.forwarding_type,
            listen_host: self.listen_host.clone(),
            listen_port: self.listen_port,
            connect_host: self.connect_host.clone(),
            connect_port: self.connect_port,
        }
    }
}

} // verus!
