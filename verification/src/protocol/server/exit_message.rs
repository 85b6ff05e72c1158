//! A remote command has ended.

use vstd::prelude::*;
use crate::error::{ParseError, ParseErrorView, Parsed};
use crate::protocol::utils::{parse_u32, u32_to_be};
use crate::protocol::{context, in_context, parsed, Wire};

verus! {

/// The session `session_id` ended with `exit_value`. It answers no request.
#[derive(Clone, Copy, Debug, PartialEq, Eq, Structural)]
pub struct ExitMessage {
    pub session_id: u32,
    pub exit_value: u32,
}

impl View for ExitMessage {
    type V = ExitMessage;

    open spec fn view(&self) -> ExitMessage {
        *self
    }
}

impl ExitMessage {
    /// The encoding of the message.
    pub open spec fn encode(self) -> Seq<u8> {
        u32_to_be(self.session_id) + u32_to_be(self.exit_value)
    }

    /// The session id, then the exit value.
    pub open spec fn decode_fields(s: Seq<u8>) -> Parsed<ExitMessage> {
        match parse_u32(s) {
            Err(e) => Err(e),
            Ok((s1, session_id)) => match parse_u32(s1) {
                Err(e) => Err(e),
                Ok((s2, exit_value)) => Ok((s2, ExitMessage { session_id, exit_value })),
            },
        }
    }

    /// What decoding `s` as this message gives.
    pub open spec fn decode(s: Seq<u8>) -> Parsed<ExitMessage> {
        in_context("ExitMessage"@, s, Self::decode_fields(s))
    }

    /// Decoding the encoding of a message gives the message and leaves
    /// what followed it.
    pub proof fn lemma_decode_encode(self, tail: Seq<u8>)
        ensures
            Self::decode(self.encode() + tail) == Ok::<(Seq<u8>, ExitMessage), ParseErrorView>(
                (tail, self),
            ),
    {
        let s1 = u32_to_be(self.exit_value) + tail;
        assert(self.encode() + tail =~= u32_to_be(self.session_id) + s1);
        u32::lemma_parse_serialized(self.session_id, s1);
        u32::lemma_parse_serialized(self.exit_value, tail);
    }

    fn fields<'a>(input: &'a [u8]) -> (r: core::result::Result<(&'a [u8], ExitMessage), ParseError>)
        ensures
            parsed(r) == Self::decode_fields(input@),
    {
        let (rest, session_id) = u32::parse(input)?;
        let (rest, exit_value) = u32::parse(rest)?;
        Ok((rest, ExitMessage { session_id, exit_value }))
    }

    /// The message itself: it borrows nothing.
    pub fn into_owned(self) -> (r: ExitMessage)
        ensures
            r == self,
    {
        self
    }
}

impl Wire for ExitMessage {
    open spec fn spec_wire(v: ExitMessage) -> Seq<u8> {
        v.encode()
    }

    open spec fn spec_parse(input: Seq<u8>) -> Parsed<ExitMessage> {
        Self::decode(input)
    }

    open spec fn wire_ok(v: ExitMessage) -> bool {
        true
    }

    fn parse<'a>(input: &'a [u8]) -> (r: core::result::Result<(&'a [u8], ExitMessage), ParseError>) {
        context("ExitMessage", input, Self::fields(input))
    }

    fn serialize(&self, writer: &mut Vec<u8>) {
        self.session_id.serialize(writer);
        self.exit_value.serialize(writer);
        assert(final(writer)@ =~= old(writer)@ + self.encode());
    }

    open spec fn self_delimiting() -> bool {
        true
    }

    proof fn lemma_parse_serialized(v: ExitMessage, tail: Seq<u8>) {
        v.lemma_decode_encode(tail);
    }
}

} // verus!
