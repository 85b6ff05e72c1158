//! The peer tried what was asked and failed.

use vstd::prelude::*;
use crate::error::{ParseError, ParseErrorView, Parsed};
use crate::protocol::strings::{lemma_parse_string_serialized, parse_string, string_ok, wire_string};
use crate::protocol::utils::{parse_u32, u32_to_be};
use crate::protocol::{context, in_context, parsed, Wire};

verus! {

/// The request `client_request_id` failed for `reason`.
#[derive(Debug, PartialEq, Eq)]
pub struct Failure {
    pub client_request_id: u32,
    pub reason: String,
}

/// The mathematical value of a [`Failure`].
pub struct FailureView {
    pub client_request_id: u32,
    pub reason: Seq<char>,
}

impl View for Failure {
    type V = FailureView;

    open spec fn view(&self) -> FailureView {
        FailureView { client_request_id: self.client_request_id, reason: self.reason@ }
    }
}

impl FailureView {
    /// The encoding of the message.
    pub open spec fn encode(self) -> Seq<u8> {
        u32_to_be(self.client_request_id) + wire_string(self.reason)
    }

    /// Whether the encoding loses nothing: the reason fits its byte count.
    pub open spec fn encodable(self) -> bool {
        string_ok(self.reason)
    }

    /// The request id, then the reason.
    pub open spec fn decode_fields(s: Seq<u8>) -> Parsed<FailureView> {
        match parse_u32(s) {
            Err(e) => Err(e),
            Ok((s1, client_request_id)) => match parse_string(s1) {
                Err(e) => Err(e),
                Ok((s2, reason)) => Ok((s2, FailureView { client_request_id, reason })),
            },
        }
    }

    /// What decoding `s` as this message gives.
    pub open spec fn decode(s: Seq<u8>) -> Parsed<FailureView> {
        in_context("Failure"@, s, Self::decode_fields(s))
    }

    /// Decoding the encoding of a message gives the message and leaves
    /// what followed it.
    pub proof fn lemma_decode_encode(self, tail: Seq<u8>)
        requires
            self.encodable(),
        ensures
            Self::decode(self.encode() + tail) == Ok::<(Seq<u8>, FailureView), ParseErrorView>(
                (tail, self),
            ),
    {
        let s1 = wire_string(self.reason) + tail;
        assert(self.encode() + tail =~= u32_to_be(self.client_request_id) + s1);
        u32::lemma_parse_serialized(self.client_request_id, s1);
        lemma_parse_string_serialized(self.reason, tail);
    }
}

impl Failure {
    fn fields<'a>(input: &'a [u8]) -> (r: core::result::Result<(&'a [u8], Failure), ParseError>)
        ensures
            parsed(r) == FailureView::decode_fields(input@),
    {
        let (rest, client_request_id) = u32::parse(input)?;
        let (rest, reason) = String::parse(rest)?;
        Ok((rest, Failure { client_request_id, reason }))
    }
}

impl Wire for Failure {
    open spec fn spec_wire(v: FailureView) -> Seq<u8> {
        v.encode()
    }

    open spec fn spec_parse(input: Seq<u8>) -> Parsed<FailureView> {
        FailureView::decode(input)
    }

    open spec fn wire_ok(v: FailureView) -> bool {
        v.encodable()
    }

    fn parse<'a>(input: &'a [u8]) -> (r: core::result::Result<(&'a [u8], Failure), ParseError>) {
        context("Failure", input, Self::fields(input))
    }

    fn serialize(&self, writer: &mut Vec<u8>) {
        self.client_request_id.serialize(writer);
        self.reason.serialize(writer);
        assert(final(writer)@ =~= old(writer)@ + self@.encode());
    }

    open spec fn self_delimiting() -> bool {
        true
    }

    proof fn lemma_parse_serialized(v: FailureView, tail: Seq<u8>) {
        v.lemma_decode_encode(tail);
    }
}

impl Clone for Failure {
    fn clone(&self) -> (copy: Failure)
        ensures
            copy@ == self@,
    {
        Failure {
            client_request_id: self.client_request_id,
            reason: self.reason.clone(),
        }
    }
}

} // verus!
