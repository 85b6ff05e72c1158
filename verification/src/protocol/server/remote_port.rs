//! The port that the peer chose for a remote forwarding.

use vstd::prelude::*;
use crate::error::{ParseError, ParseErrorView, Parsed};
use crate::protocol::utils::{parse_u32, u32_to_be};
use crate::protocol::{context, in_context, parsed, Wire};

verus! {

/// The forwarding asked for by `client_request_id` listens on `allocated_remote_listen_port`.
#[derive(Clone, Copy, Debug, PartialEq, Eq, Structural)]
pub struct RemotePort {
    pub client_request_id: u32,
    pub allocated_remote_listen_port: u32,
}

impl View for RemotePort {
    type V = RemotePort;

    open spec fn view(&self) -> RemotePort {
        *self
    }
}

impl RemotePort {
    /// The encoding of the message.
    pub open spec fn encode(self) -> Seq<u8> {
        u32_to_be(self.client_request_id) + u32_to_be(self.allocated_remote_listen_port)
    }

    /// The request id, then the port.
    pub open spec fn decode_fields(s: Seq<u8>) -> Parsed<RemotePort> {
        match parse_u32(s) {
            Err(e) => Err(e),
            Ok((s1, client_request_id)) => match parse_u32(s1) {
                Err(e) => Err(e),
                Ok((s2, allocated_remote_listen_port)) => Ok((s2, RemotePort { client_request_id, allocated_remote_listen_port })),
            },
        }
    }

    /// What decoding `s` as this message gives.
    pub open spec fn decode(s: Seq<u8>) -> Parsed<RemotePort> {
        in_context("RemotePort"@, s, Self::decode_fields(s))
    }

    /// Decoding the encoding of a message gives the message and leaves
    /// what followed it.
    pub proof fn lemma_decode_encode(self, tail: Seq<u8>)
        ensures
            Self::decode(self.encode() + tail) == Ok::<(Seq<u8>, RemotePort), ParseErrorView>(
                (tail, self),
            ),
    {
        let s1 = u32_to_be(self.allocated_remote_listen_port) + tail;
        assert(self.encode() + tail =~= u32_to_be(self.client_request_id) + s1);
        u32::lemma_parse_serialized(self.client_request_id, s1);
        u32::lemma_parse_serialized(self.allocated_remote_listen_port, tail);
    }

    fn fields<'a>(input: &'a [u8]) -> (r: core::result::Result<(&'a [u8], RemotePort), ParseError>)
        ensures
            parsed(r) == Self::decode_fields(input@),
    {
        let (rest, client_request_id) = u32::parse(input)?;
        let (rest, allocated_remote_listen_port) = u32::parse(rest)?;
        Ok((rest, RemotePort { client_request_id, allocated_remote_listen_port }))
    }

    /// The message itself: it borrows nothing.
    pub fn into_owned(self) -> (r: RemotePort)
        ensures
            r == self,
    {
        self
    }
}

impl Wire for RemotePort {
    open spec fn spec_wire(v: RemotePort) -> Seq<u8> {
        v.encode()
    }

    open spec fn spec_parse(input: Seq<u8>) -> Parsed<RemotePort> {
        Self::decode(input)
    }

    open spec fn wire_ok(v: RemotePort) -> bool {
        true
    }

    fn parse<'a>(input: &'a [u8]) -> (r: core::result::Result<(&'a [u8], RemotePort), ParseError>) {
        context("RemotePort", input, Self::fields(input))
    }

    fn serialize(&self, writer: &mut Vec<u8>) {
        self.client_request_id.serialize(writer);
        self.allocated_remote_listen_port.serialize(writer);
        assert(final(writer)@ =~= old(writer)@ + self.encode());
    }

    open spec fn self_delimiting() -> bool {
        true
    }

    proof fn lemma_parse_serialized(v: RemotePort, tail: Seq<u8>) {
        v.lemma_decode_encode(tail);
    }
}

} // verus!
