//! The peer did what was asked.

use vstd::prelude::*;
use crate::error::{ParseError, ParseErrorView, Parsed};
use crate::protocol::utils::{parse_u32, u32_to_be};
use crate::protocol::{context, in_context, parsed, Wire};

verus! {

/// The request `client_request_id` succeeded.
#[derive(Clone, Copy, Debug, PartialEq, Eq, Structural)]
pub struct OkResponse {
    pub client_request_id: u32,
}

impl View for OkResponse {
    type V = OkResponse;

    open spec fn view(&self) -> OkResponse {
        *self
    }
}

impl OkResponse {
    /// The encoding of the message.
    pub open spec fn encode(self) -> Seq<u8> {
        u32_to_be(self.client_request_id)
    }

    /// The request id.
    pub open spec fn decode_fields(s: Seq<u8>) -> Parsed<OkResponse> {
        match parse_u32(s) {
            Err(e) => Err(e),
            Ok((s1, client_request_id)) => Ok((s1, OkResponse { client_request_id })),
        }
    }

    /// What decoding `s` as this message gives.
    pub open spec fn decode(s: Seq<u8>) -> Parsed<OkResponse> {
        in_context("Ok"@, s, Self::decode_fields(s))
    }

    /// Decoding the encoding of a message gives the message and leaves
    /// what followed it.
    pub proof fn lemma_decode_encode(self, tail: Seq<u8>)
        ensures
            Self::decode(self.encode() + tail) == Ok::<(Seq<u8>, OkResponse), ParseErrorView>(
                (tail, self),
            ),
    {
        u32::lemma_parse_serialized(self.client_request_id, tail);
    }

    fn fields<'a>(input: &'a [u8]) -> (r: core::result::Result<(&'a [u8], OkResponse), ParseError>)
        ensures
            parsed(r) == Self::decode_fields(input@),
    {
        let (rest, client_request_id) = u32::parse(input)?;
        Ok((rest, OkResponse { client_request_id }))
    }

    /// The message itself: it borrows nothing.
    pub fn into_owned(self) -> (r: OkResponse)
        ensures
            r == self,
    {
        self
    }
}

impl Wire for OkResponse {
    open spec fn spec_wire(v: OkResponse) -> Seq<u8> {
        v.encode()
    }

    open spec fn spec_parse(input: Seq<u8>) -> Parsed<OkResponse> {
        Self::decode(input)
    }

    open spec fn wire_ok(v: OkResponse) -> bool {
        true
    }

    fn parse<'a>(input: &'a [u8]) -> (r: core::result::Result<(&'a [u8], OkResponse), ParseError>) {
        context("Ok", input, Self::fields(input))
    }

    fn serialize(&self, writer: &mut Vec<u8>) {
        self.client_request_id.serialize(writer);
    }

    open spec fn self_delimiting() -> bool {
        true
    }

    proof fn lemma_parse_serialized(v: OkResponse, tail: Seq<u8>) {
        v.lemma_decode_encode(tail);
    }
}

} // verus!
