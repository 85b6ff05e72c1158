//! The peer opened a session.

use vstd::prelude::*;
use crate::error::{ParseError, ParseErrorView, Parsed};
use crate::protocol::utils::{parse_u32, u32_to_be};
use crate::protocol::{context, in_context, parsed, Wire};

verus! {

/// The request `client_request_id` opened the session `session_id`.
#[derive(Clone, Copy, Debug, PartialEq, Eq, Structural)]
pub struct SessionOpened {
    pub client_request_id: u32,
    pub session_id: u32,
}

impl View for SessionOpened {
    type V = SessionOpened;

    open spec fn view(&self) -> SessionOpened {
        *self
    }
}

impl SessionOpened {
    /// The encoding of the message.
    pub open spec fn encode(self) -> Seq<u8> {
        u32_to_be(self.client_request_id) + u32_to_be(self.session_id)
    }

    /// The request id, then the session id.
    pub open spec fn decode_fields(s: Seq<u8>) -> Parsed<SessionOpened> {
        match parse_u32(s) {
            Err(e) => Err(e),
            Ok((s1, client_request_id)) => match parse_u32(s1) {
                Err(e) => Err(e),
                Ok((s2, session_id)) => Ok((s2, SessionOpened { client_request_id, session_id })),
            },
        }
    }

    /// What decoding `s` as this message gives.
    pub open spec fn decode(s: Seq<u8>) -> Parsed<SessionOpened> {
        in_context("SessionOpened"@, s, Self::decode_fields(s))
    }

    /// Decoding the encoding of a message gives the message and leaves
    /// what followed it.
    pub proof fn lemma_decode_encode(self, tail: Seq<u8>)
        ensures
            Self::decode(self.encode() + tail) == Ok::<(Seq<u8>, SessionOpened), ParseErrorView>(
                (tail, self),
            ),
    {
        let s1 = u32_to_be(self.session_id) + tail;
        assert(self.encode() + tail =~= u32_to_be(self.client_request_id) + s1);
        u32::lemma_parse_serialized(self.client_request_id, s1);
        u32::lemma_parse_serialized(self.session_id, tail);
    }

    fn fields<'a>(input: &'a [u8]) -> (r: core::result::Result<(&'a [u8], SessionOpened), ParseError>)
        ensures
            parsed(r) == Self::decode_fields(input@),
    {
        let (rest, client_request_id) = u32::parse(input)?;
        let (rest, session_id) = u32::parse(rest)?;
        Ok((rest, SessionOpened { client_request_id, session_id }))
    }

    /// The message itself: it borrows nothing.
    pub fn into_owned(self) -> (r: SessionOpened)
        ensures
            r == self,
    {
        self
    }
}

impl Wire for SessionOpened {
    open spec fn spec_wire(v: SessionOpened) -> Seq<u8> {
        v.encode()
    }

    open spec fn spec_parse(input: Seq<u8>) -> Parsed<SessionOpened> {
        Self::decode(input)
    }

    open spec fn wire_ok(v: SessionOpened) -> bool {
        true
    }

    fn parse<'a>(input: &'a [u8]) -> (r: core::result::Result<(&'a [u8], SessionOpened), ParseError>) {
        context("SessionOpened", input, Self::fields(input))
    }

    fn serialize(&self, writer: &mut Vec<u8>) {
        self.client_request_id.serialize(writer);
        self.session_id.serialize(writer);
        assert(final(writer)@ =~= old(writer)@ + self.encode());
    }

    open spec fn self_delimiting() -> bool {
        true
    }

    proof fn lemma_parse_serialized(v: SessionOpened, tail: Seq<u8>) {
        v.lemma_decode_encode(tail);
    }
}

} // verus!
