//! The peer's answer to a liveness check.

use vstd::prelude::*;
use crate::error::{ParseError, ParseErrorView, Parsed};
use crate::protocol::utils::{parse_u32, u32_to_be};
use crate::protocol::{context, in_context, parsed, Wire};

verus! {

/// The peer is alive and runs as process `server_pid`.
#[derive(Clone, Copy, Debug, PartialEq, Eq, Structural)]
pub struct Alive {
    pub client_request_id: u32,
    pub server_pid: u32,
}

impl View for Alive {
    type V = Alive;

    open spec fn view(&self) -> Alive {
        *self
    }
}

impl Alive {
    /// The encoding of the message.
    pub open spec fn encode(self) -> Seq<u8> {
        u32_to_be(self.client_request_id) + u32_to_be(self.server_pid)
    }

    /// The request id, then the process id.
    pub open spec fn decode_fields(s: Seq<u8>) -> Parsed<Alive> {
        match parse_u32(s) {
            Err(e) => Err(e),
            Ok((s1, client_request_id)) => match parse_u32(s1) {
                Err(e) => Err(e),
                Ok((s2, server_pid)) => Ok((s2, Alive { client_request_id, server_pid })),
            },
        }
    }

    /// What decoding `s` as this message gives.
    pub open spec fn decode(s: Seq<u8>) -> Parsed<Alive> {
        in_context("Alive"@, s, Self::decode_fields(s))
    }

    /// Decoding the encoding of a message gives the message and leaves
    /// what followed it.
    pub proof fn lemma_decode_encode(self, tail: Seq<u8>)
        ensures
            Self::decode(self.encode() + tail) == Ok::<(Seq<u8>, Alive), ParseErrorView>(
                (tail, self),
            ),
    {
        let s1 = u32_to_be(self.server_pid) + tail;
        assert(self.encode() + tail =~= u32_to_be(self.client_request_id) + s1);
        u32::lemma_parse_serialized(self.client_request_id, s1);
        u32::lemma_parse_serialized(self.server_pid, tail);
    }

    fn fields<'a>(input: &'a [u8]) -> (r: core::result::Result<(&'a [u8], Alive), ParseError>)
        ensures
            parsed(r) == Self::decode_fields(input@),
    {
        let (rest, client_request_id) = u32::parse(input)?;
        let (rest, server_pid) = u32::parse(rest)?;
        Ok((rest, Alive { client_request_id, server_pid }))
    }

    /// The message itself: it borrows nothing.
    pub fn into_owned(self) -> (r: Alive)
        ensures
            r == self,
    {
        self
    }
}

impl Wire for Alive {
    open spec fn spec_wire(v: Alive) -> Seq<u8> {
        v.encode()
    }

    open spec fn spec_parse(input: Seq<u8>) -> Parsed<Alive> {
        Self::decode(input)
    }

    open spec fn wire_ok(v: Alive) -> bool {
        true
    }

    fn parse<'a>(input: &'a [u8]) -> (r: core::result::Result<(&'a [u8], Alive), ParseError>) {
        context("Alive", input, Self::fields(input))
    }

    fn serialize(&self, writer: &mut Vec<u8>) {
        self.client_request_id.serialize(writer);
        self.server_pid.serialize(writer);
        assert(final(writer)@ =~= old(writer)@ + self.encode());
    }

    open spec fn self_delimiting() -> bool {
        true
    }

    proof fn lemma_parse_serialized(v: Alive, tail: Seq<u8>) {
        v.lemma_decode_encode(tail);
    }
}

} // verus!
