//! Text on the wire: a 32-bit byte count, then that many bytes of UTF-8.

use vstd::prelude::*;
use vstd::utf8::{decode_utf8, encode_utf8, valid_utf8};
use crate::error::{ErrorKind, KindView, Needed, ParseError, ParseErrorView, Parsed, VerboseError};
use crate::protocol::utils::{parse_u32, u32_to_be, write_all};
use crate::protocol::{context, in_context, parsed, Wire};

verus! {

/// Decoding a counted text, seen without the name of the structure.
#[verifier::opaque]
pub open spec fn parse_counted(s: Seq<u8>) -> Parsed<Seq<char>> {
    match parse_u32(s) {
        Err(e) => Err(e),
        Ok((rest, n)) => if rest.len() < n {
            Err(ParseErrorView::Incomplete(Needed::Size((n - rest.len()) as usize)))
        } else {
            let data = rest.subrange(0, n as int);
            if valid_utf8(data) {
                Ok((rest.subrange(n as int, rest.len() as int), decode_utf8(data)))
            } else {
                Err(ParseErrorView::Error(seq![(data, KindView::Code(ErrorKind::MapOpt))]))
            }
        },
    }
}

/// Decoding a text: fewer bytes than the count says are an incomplete
/// input, bytes that are not UTF-8 are invalid.
#[verifier::opaque]
pub open spec fn parse_string(s: Seq<u8>) -> Parsed<Seq<char>> {
    in_context("string"@, s, parse_counted(s))
}

/// The encoding of a text: its byte count, then its bytes. A count that
/// does not fit 32 bits is cut to its low 32 bits, see [`string_ok`].
#[verifier::opaque]
pub open spec fn wire_string(v: Seq<char>) -> Seq<u8> {
    u32_to_be((encode_utf8(v).len() % 0x1_0000_0000) as u32) + encode_utf8(v)
}

/// The texts whose byte count fits the 32-bit prefix.
pub open spec fn string_ok(v: Seq<char>) -> bool {
    encode_utf8(v).len() <= u32::MAX
}

/// `core::str::from_utf8`: succeeds exactly on well-formed UTF-8, and the
/// text it hands out is made of the very bytes it was given.
#[verifier::external_body]
pub(crate) fn str_from_utf8<'a>(bytes: &'a [u8]) -> (r: Option<&'a str>)
    ensures
        r is Some <==> valid_utf8(bytes@),
        r matches Some(s) ==> encode_utf8(s@) == bytes@,
{
    core::str::from_utf8(bytes).ok()
}

fn parse_counted_text<'a>(input: &'a [u8]) -> (r: core::result::Result<
    (&'a [u8], String),
    ParseError,
>)
    ensures
        parsed(r) == parse_counted(input@),
{
    proof {
        reveal(parse_counted);
    }
    let (rest, n) = u32::parse(input)?;
    let n: usize = n as usize;
    let available: usize = rest.len();
    if available < n {
        return Err(ParseError::Incomplete(Needed::Size(n - available)));
    }
    let data = vstd::slice::slice_subrange(rest, 0, n);
    let tail = vstd::slice::slice_subrange(rest, n, available);
    match str_from_utf8(data) {
        Some(text) => {
            proof {
                vstd::utf8::encode_utf8_decode_utf8(text@);
            }
            Ok((tail, text.to_owned()))
        },
        None => Err(ParseError::Error(VerboseError::from_error_kind(data, ErrorKind::MapOpt))),
    }
}

impl Wire for String {
    open spec fn spec_wire(v: Seq<char>) -> Seq<u8> {
        wire_string(v)
    }

    open spec fn spec_parse(input: Seq<u8>) -> Parsed<Seq<char>> {
        parse_string(input)
    }

    open spec fn wire_ok(v: Seq<char>) -> bool {
        string_ok(v)
    }

    fn parse<'a>(input: &'a [u8]) -> (r: core::result::Result<(&'a [u8], String), ParseError>) {
        proof {
            reveal(parse_string);
        }
        context("string", input, parse_counted_text(input))
    }

    fn serialize(&self, writer: &mut Vec<u8>) {
        proof {
            reveal(wire_string);
        }
        let bytes = self.as_str().as_bytes();
        let size: u32 = ((bytes.len() as u64) % 0x1_0000_0000) as u32;
        size.serialize(writer);
        write_all(writer, bytes);
    }

    open spec fn self_delimiting() -> bool {
        true
    }

    proof fn lemma_parse_serialized(v: Seq<char>, tail: Seq<u8>) {
        lemma_parse_string_serialized(v, tail);
    }
}

/// The encoding of a text begins with the four bytes of its byte count.
pub proof fn lemma_wire_string_len(v: Seq<char>)
    ensures
        wire_string(v).len() >= 4,
{
    reveal(wire_string);
    crate::protocol::utils::lemma_u32_be_round_trip((encode_utf8(v).len() % 0x1_0000_0000) as u32);
}

/// Decoding the encoding of a text gives the text and leaves what followed.
pub proof fn lemma_parse_string_serialized(v: Seq<char>, tail: Seq<u8>)
    requires
        string_ok(v),
    ensures
        parse_string(wire_string(v) + tail) == Ok::<(Seq<u8>, Seq<char>), ParseErrorView>((tail, v)),
{
    reveal(parse_string);
    reveal(parse_counted);
    reveal(wire_string);
    let data = encode_utf8(v);
    let n = data.len() as u32;
    let s = wire_string(v) + tail;
    assert(s =~= u32_to_be(n) + (data + tail));
    u32::lemma_parse_serialized(n, data + tail);
    let rest = data + tail;
    assert(rest.subrange(0, n as int) =~= data);
    assert(rest.subrange(n as int, rest.len() as int) =~= tail);
    vstd::utf8::encode_utf8_valid_utf8(v);
    vstd::utf8::encode_utf8_decode_utf8(v);
}

} // verus!
