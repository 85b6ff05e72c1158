//! Asking the peer to shut down.

use vstd::prelude::*;
use crate::error::{ParseError, ParseErrorView, Parsed};
use crate::protocol::utils::{parse_u32, u32_to_be};
use crate::protocol::{context, in_context, parsed, Wire};

verus! {

/// A request to terminate the peer.
#[derive(Clone, Copy, Debug, PartialEq, Eq, Structural)]
pub struct Terminate {
    pub request_id: u32,
}

impl View for Terminate {
    type V = Terminate;

    open spec fn view(&self) -> Terminate {
        *self
    }
}

impl Terminate {
    /// The encoding of the message.
    pub open spec fn encode(self) -> Seq<u8> {
        u32_to_be(self.request_id)
    }

    /// The request id.
    pub open spec fn decode_fields(s: Seq<u8>) -> Parsed<Terminate> {
        match parse_u32(s) {
            Err(e) => Err(e),
            Ok((s1, request_id)) => Ok((s1, Terminate { request_id })),
        }
    }

    /// What decoding `s` as this message gives.
    pub open spec fn decode(s: Seq<u8>) -> Parsed<Terminate> {
        in_context("Terminate"@, s, Self::decode_fields(s))
    }

    /// Decoding the encoding of a message gives the message and leaves
    /// what followed it.
    pub proof fn lemma_decode_encode(self, tail: Seq<u8>)
        ensures
            Self::decode(self.encode() + tail) == Ok::<(Seq<u8>, Terminate), ParseErrorView>(
                (tail, self),
            ),
    {
        u32::lemma_parse_serialized(self.request_id, tail);
    }

    fn fields<'a>(input: &'a [u8]) -> (r: core::result::Result<(&'a [u8], Terminate), ParseError>)
        ensures
            parsed(r) == Self::decode_fields(input@),
    {
        let (rest, request_id) = u32::parse(input)?;
        Ok((rest, Terminate { request_id }))
    }

    /// The message itself: it borrows nothing.
    pub fn into_owned(self) -> (r: Terminate)
        ensures
            r == self,
    {
        self
    }
}

impl Wire for Terminate {
    open spec fn spec_wire(v: Terminate) -> Seq<u8> {
        v.encode()
    }

    open spec fn spec_parse(input: Seq<u8>) -> Parsed<Terminate> {
        Self::decode(input)
    }

    open spec fn wire_ok(v: Terminate) -> bool {
        true
    }

    fn parse<'a>(input: &'a [u8]) -> (r: core::result::Result<(&'a [u8], Terminate), ParseError>) {
        context("Terminate", input, Self::fields(input))
    }

    fn serialize(&self, writer: &mut Vec<u8>) {
        self.request_id.serialize(writer);
    }

    open spec fn self_delimiting() -> bool {
        true
    }

    proof fn lemma_parse_serialized(v: Terminate, tail: Seq<u8>) {
        v.lemma_decode_encode(tail);
    }
}

} // verus!
