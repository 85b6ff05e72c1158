//! The peer could not give a session its terminal.

use vstd::prelude::*;
use crate::error::{ParseError, ParseErrorView, Parsed};
use crate::protocol::utils::{parse_u32, u32_to_be};
use crate::protocol::{context, in_context, parsed, Wire};

verus! {

/// No terminal could be allocated for the session `session_id`. It answers no request.
#[derive(Clone, Copy, Debug, PartialEq, Eq, Structural)]
pub struct TtyAllocFail {
    pub session_id: u32,
}

impl View for TtyAllocFail {
    type V = TtyAllocFail;

    open spec fn view(&self) -> TtyAllocFail {
        *self
    }
}

impl TtyAllocFail {
    /// The encoding of the message.
    pub open spec fn encode(self) -> Seq<u8> {
        u32_to_be(self.session_id)
    }

    /// The session id.
    pub open spec fn decode_fields(s: Seq<u8>) -> Parsed<TtyAllocFail> {
        match parse_u32(s) {
            Err(e) => Err(e),
            Ok((s1, session_id)) => Ok((s1, TtyAllocFail { session_id })),
        }
    }

    /// What decoding `s` as this message gives.
    pub open spec fn decode(s: Seq<u8>) -> Parsed<TtyAllocFail> {
        in_context("TtyAllocFail"@, s, Self::decode_fields(s))
    }

    /// Decoding the encoding of a message gives the message and leaves
    /// what followed it.
    pub proof fn lemma_decode_encode(self, tail: Seq<u8>)
        ensures
            Self::decode(self.encode() + tail) == Ok::<(Seq<u8>, TtyAllocFail), ParseErrorView>(
                (tail, self),
            ),
    {
        u32::lemma_parse_serialized(self.session_id, tail);
    }

    fn fields<'a>(input: &'a [u8]) -> (r: core::result::Result<(&'a [u8], TtyAllocFail), ParseError>)
        ensures
            parsed(r) == Self::decode_fields(input@),
    {
        let (rest, session_id) = u32::parse(input)?;
        Ok((rest, TtyAllocFail { session_id }))
    }

    /// The message itself: it borrows nothing.
    pub fn into_owned(self) -> (r: TtyAllocFail)
        ensures
            r == self,
    {
        self
    }
}

impl Wire for TtyAllocFail {
    open spec fn spec_wire(v: TtyAllocFail) -> Seq<u8> {
        v.encode()
    }

    open spec fn spec_parse(input: Seq<u8>) -> Parsed<TtyAllocFail> {
        Self::decode(input)
    }

    open spec fn wire_ok(v: TtyAllocFail) -> bool {
        true
    }

    fn parse<'a>(input: &'a [u8]) -> (r: core::result::Result<(&'a [u8], TtyAllocFail), ParseError>) {
        context("TtyAllocFail", input, Self::fields(input))
    }

    fn serialize(&self, writer: &mut Vec<u8>) {
        self.session_id.serialize(writer);
    }

    open spec fn self_delimiting() -> bool {
        true
    }

    proof fn lemma_parse_serialized(v: TtyAllocFail, tail: Seq<u8>) {
        v.lemma_decode_encode(tail);
    }
}

} // verus!
