//! Numbers, flags and lists on the wire.

use vstd::prelude::*;
use crate::error::{ErrorKind, KindView, Needed, ParseError, ParseErrorView, Parsed, VerboseError};
use crate::protocol::{parsed, Wire};

verus! {

/// The number that four bytes stand for, most significant byte first.
#[verifier::opaque]
pub open spec fn u32_from_be(b: Seq<u8>) -> u32
    recommends
        b.len() == 4,
{
    (b[0] as int * 0x100_0000 + b[1] as int * 0x1_0000 + b[2] as int * 0x100 + b[3] as int) as u32
}

/// The four bytes of a number, most significant byte first.
#[verifier::opaque]
pub open spec fn u32_to_be(v: u32) -> Seq<u8> {
    seq![
        (v as int / 0x100_0000) as u8,
        (v as int / 0x1_0000 % 0x100) as u8,
        (v as int / 0x100 % 0x100) as u8,
        (v as int % 0x100) as u8,
    ]
}

/// Appends `bytes` to `writer`.
pub fn write_all(writer: &mut Vec<u8>, bytes: &[u8])
    ensures
        final(writer)@ == old(writer)@ + bytes@,
{
    let mut i: usize = 0;
    while i < bytes.len()
        invariant
            i <= bytes.len(),
            writer@ == old(writer)@ + bytes@.subrange(0, i as int),
        decreases bytes.len() - i,
    {
        writer.push(bytes[i]);
        i = i + 1;
    }
    assert(bytes@.subrange(0, i as int) =~= bytes@);
}

/// The four bytes of a number, most significant byte first.
pub fn be_bytes(v: u32) -> (b: [u8; 4])
    ensures
        b@ == u32_to_be(v),
{
    let b: [u8; 4] = [
        (v / 0x100_0000) as u8,
        (v / 0x1_0000 % 0x100) as u8,
        (v / 0x100 % 0x100) as u8,
        (v % 0x100) as u8,
    ];
    proof {
        reveal(u32_to_be);
        assert(b@ =~= u32_to_be(v));
    }
    b
}

/// Reading back the bytes of a number gives the number.
pub proof fn lemma_u32_be_round_trip(v: u32)
    ensures
        u32_to_be(v).len() == 4,
        u32_from_be(u32_to_be(v)) == v,
{
    reveal(u32_to_be);
    reveal(u32_from_be);
}

/// Joining three byte sequences gives the same whichever two are joined
/// first.
pub proof fn lemma_join(a: Seq<u8>, b: Seq<u8>, c: Seq<u8>)
    ensures
        (a + b) + c == a + (b + c),
{
    assert((a + b) + c =~= a + (b + c));
}

/// Appending one byte is joining with the sequence of that byte alone.
pub proof fn lemma_push_is_join(a: Seq<u8>, b: u8)
    ensures
        a.push(b) == a + seq![b],
{
    assert(a.push(b) =~= a + seq![b]);
}

/// Decoding a 32-bit number: four bytes, most significant first.
#[verifier::opaque]
pub open spec fn parse_u32(s: Seq<u8>) -> Parsed<u32> {
    if s.len() < 4 {
        Err(ParseErrorView::Incomplete(Needed::Size((4 - s.len()) as usize)))
    } else {
        Ok((s.subrange(4, s.len() as int), u32_from_be(s.subrange(0, 4))))
    }
}

impl Wire for u32 {
    open spec fn spec_wire(v: u32) -> Seq<u8> {
        u32_to_be(v)
    }

    open spec fn spec_parse(input: Seq<u8>) -> Parsed<u32> {
        parse_u32(input)
    }

    open spec fn wire_ok(v: u32) -> bool {
        true
    }

    fn parse<'a>(input: &'a [u8]) -> (r: core::result::Result<(&'a [u8], u32), ParseError>) {
        proof {
            reveal(parse_u32);
        }
        let len: usize = input.len();
        if len < 4 {
            Err(ParseError::Incomplete(Needed::Size(4 - len)))
        } else {
            let b0: u32 = input[0] as u32;
            let b1: u32 = input[1] as u32;
            let b2: u32 = input[2] as u32;
            let b3: u32 = input[3] as u32;
            let value: u32 = b0 * 0x100_0000 + b1 * 0x1_0000 + b2 * 0x100 + b3;
            proof {
                reveal(u32_from_be);
            }
            let rest = vstd::slice::slice_subrange(input, 4, len);
            Ok((rest, value))
        }
    }

    fn serialize(&self, writer: &mut Vec<u8>) {
        let bytes = be_bytes(*self);
        write_all(writer, bytes.as_slice());
    }

    open spec fn self_delimiting() -> bool {
        true
    }

    proof fn lemma_parse_serialized(v: u32, tail: Seq<u8>) {
        reveal(parse_u32);
        lemma_u32_be_round_trip(v);
        let w = u32_to_be(v);
        let s = w + tail;
        assert(s.subrange(0, 4) =~= w);
        assert(s.subrange(4, s.len() as int) =~= tail);
    }
}

/// Decoding a flag: a 32-bit number, zero for false and anything else for
/// true.
#[verifier::opaque]
pub open spec fn parse_bool(s: Seq<u8>) -> Parsed<bool> {
    match parse_u32(s) {
        Ok((rest, v)) => Ok((rest, v != 0)),
        Err(e) => Err(e),
    }
}

/// The encoding of a flag: the number one for true, zero for false.
pub open spec fn wire_bool(v: bool) -> Seq<u8> {
    u32_to_be(if v { 1u32 } else { 0u32 })
}

impl Wire for bool {
    open spec fn spec_wire(v: bool) -> Seq<u8> {
        wire_bool(v)
    }

    open spec fn spec_parse(input: Seq<u8>) -> Parsed<bool> {
        parse_bool(input)
    }

    open spec fn wire_ok(v: bool) -> bool {
        true
    }

    fn parse<'a>(input: &'a [u8]) -> (r: core::result::Result<(&'a [u8], bool), ParseError>) {
        proof {
            reveal(parse_bool);
        }
        let (rest, v) = u32::parse(input)?;
        Ok((rest, v != 0))
    }

    fn serialize(&self, writer: &mut Vec<u8>) {
        let val: u32 = if *self { 1 } else { 0 };
        val.serialize(writer)
    }

    open spec fn self_delimiting() -> bool {
        true
    }

    proof fn lemma_parse_serialized(v: bool, tail: Seq<u8>) {
        reveal(parse_bool);
        u32::lemma_parse_serialized(if v { 1u32 } else { 0u32 }, tail);
    }
}

/// A decoded value seen through `f`; a failure stays what it is.
pub open spec fn map_parsed<A, B>(r: Parsed<A>, f: spec_fn(A) -> B) -> Parsed<B> {
    match r {
        Ok((rest, value)) => Ok((rest, f(value))),
        Err(e) => Err(e),
    }
}

/// Decoding a 32-bit number that must be one of `allowed`: any other
/// number is invalid input, reported at the number itself.
pub open spec fn parse_verified(s: Seq<u8>, allowed: Set<u32>) -> Parsed<u32> {
    match parse_u32(s) {
        Err(e) => Err(e),
        Ok((rest, v)) => if allowed.contains(v) {
            Ok((rest, v))
        } else {
            Err(ParseErrorView::Error(seq![(s, KindView::Code(ErrorKind::Verify))]))
        },
    }
}

/// The decoded list together with the input that was left, as the
/// mathematical outcome that contracts speak of.
pub open spec fn parsed_many<T: View>(
    r: core::result::Result<(&[u8], Vec<T>), ParseError>,
) -> Parsed<Seq<T::V>> {
    match r {
        Ok((rest, values)) => Ok((rest@, views(values@))),
        Err(e) => Err(e@),
    }
}

/// The mathematical values of the items of a list.
pub open spec fn views<T: View>(values: Seq<T>) -> Seq<T::V> {
    Seq::new(values.len(), |i: int| values[i]@)
}

/// An outcome with `head` put before the list that it holds.
pub open spec fn prepend<T>(head: Seq<T>, r: Parsed<Seq<T>>) -> Parsed<Seq<T>> {
    match r {
        Ok((rest, values)) => Ok((rest, head + values)),
        Err(e) => Err(e),
    }
}

/// Decoding a list of elements, each decoded by `elem`. The list ends
/// where fewer than `least` bytes are left, or where the next element is
/// invalid: what is left there is handed back. An element that is
/// incomplete makes the whole list incomplete.
pub open spec fn parse_many<T>(
    s: Seq<u8>,
    elem: spec_fn(Seq<u8>) -> Parsed<T>,
    least: nat,
) -> Parsed<Seq<T>>
    decreases s.len(),
{
    if s.len() < least {
        Ok((s, Seq::empty()))
    } else {
        match elem(s) {
            Err(ParseErrorView::Error(_)) => Ok((s, Seq::empty())),
            Err(e) => Err(e),
            Ok((rest, value)) => if rest.len() >= s.len() {
                Err(ParseErrorView::Error(seq![(s, KindView::Code(ErrorKind::Many0))]))
            } else {
                prepend(seq![value], parse_many(rest, elem, least))
            },
        }
    }
}

/// The encodings of the items of a list, one after the other.
pub open spec fn wire_many<T>(values: Seq<T>, enc: spec_fn(T) -> Seq<u8>) -> Seq<u8>
    decreases values.len(),
{
    if values.len() == 0 {
        Seq::empty()
    } else {
        enc(values[0]) + wire_many(values.drop_first(), enc)
    }
}

/// Encoding a list and one more item is encoding the list, then the item.
pub proof fn lemma_wire_many_push<T>(values: Seq<T>, value: T, enc: spec_fn(T) -> Seq<u8>)
    ensures
        wire_many(values.push(value), enc) == wire_many(values, enc) + enc(value),
    decreases values.len(),
{
    if values.len() == 0 {
        assert(values.push(value).drop_first() =~= Seq::<T>::empty());
        assert(wire_many(Seq::<T>::empty(), enc) =~= Seq::<u8>::empty());
        assert(wire_many(values.push(value), enc) =~= enc(value));
    } else {
        assert(values.push(value).drop_first() =~= values.drop_first().push(value));
        lemma_wire_many_push(values.drop_first(), value, enc);
        assert(wire_many(values.push(value), enc) =~= wire_many(values, enc) + enc(value));
    }
}

/// Decoding an encoded list gives the list and leaves what followed it,
/// where each item can be decoded with anything behind it and takes at
/// least `least` bytes, and fewer than `least` bytes follow the list.
pub proof fn lemma_parse_many_wire_many<T>(
    values: Seq<T>,
    enc: spec_fn(T) -> Seq<u8>,
    elem: spec_fn(Seq<u8>) -> Parsed<T>,
    least: nat,
    tail: Seq<u8>,
)
    requires
        least > 0,
        tail.len() < least,
        forall|i: int| 0 <= i < values.len() ==> (#[trigger] enc(values[i])).len() >= least,
        forall|i: int, t: Seq<u8>|
            0 <= i < values.len() ==> #[trigger] elem(enc(values[i]) + t) == Ok::<
                (Seq<u8>, T),
                ParseErrorView,
            >((t, values[i])),
    ensures
        parse_many(wire_many(values, enc) + tail, elem, least) == Ok::<
            (Seq<u8>, Seq<T>),
            ParseErrorView,
        >((tail, values)),
    decreases values.len(),
{
    if values.len() == 0 {
        assert(wire_many(values, enc) + tail =~= tail);
        assert(values =~= Seq::<T>::empty());
    } else {
        let others = values.drop_first();
        let rest = wire_many(others, enc) + tail;
        let s = wire_many(values, enc) + tail;
        assert(s =~= enc(values[0]) + rest);
        assert(elem(enc(values[0]) + rest) == Ok::<(Seq<u8>, T), ParseErrorView>((rest, values[0])));
        assert forall|i: int| 0 <= i < others.len() implies (#[trigger] enc(others[i])).len()
            >= least by {
            assert(others[i] == values[i + 1]);
        }
        assert forall|i: int, t: Seq<u8>| 0 <= i < others.len() implies #[trigger] elem(
            enc(others[i]) + t,
        ) == Ok::<(Seq<u8>, T), ParseErrorView>((t, others[i])) by {
            assert(others[i] == values[i + 1]);
        }
        lemma_parse_many_wire_many(others, enc, elem, least, tail);
        assert(seq![values[0]] + others =~= values);
    }
}

/// Decodes a list of values of one type, see [`parse_many`]: `least` is
/// the fewest bytes that can still begin an element.
pub fn many<'a, T: Wire>(input: &'a [u8], least: usize) -> (r: core::result::Result<
    (&'a [u8], Vec<T>),
    ParseError,
>)
    ensures
        parsed_many(r) == parse_many(input@, |s: Seq<u8>| T::spec_parse(s), least as nat),
{
    let ghost elem = |s: Seq<u8>| T::spec_parse(s);
    let mut values: Vec<T> = Vec::new();
    let mut cur: &'a [u8] = input;
    loop
        invariant
            parse_many(input@, elem, least as nat) == prepend(
                views(values@),
                parse_many(cur@, elem, least as nat),
            ),
            elem == (|s: Seq<u8>| T::spec_parse(s)),
        decreases cur@.len(),
    {
        if cur.len() < least {
            proof {
                assert(views(values@) + Seq::<T::V>::empty() =~= views(values@));
            }
            return Ok((cur, values));
        }
        match T::parse(cur) {
            Err(ParseError::Error(_)) => {
                proof {
                    assert(views(values@) + Seq::<T::V>::empty() =~= views(values@));
                }
                return Ok((cur, values));
            },
            Err(e) => {
                return Err(e);
            },
            Ok((rest, value)) => {
                if rest.len() >= cur.len() {
                    return Err(
                        ParseError::Error(VerboseError::from_error_kind(cur, ErrorKind::Many0)),
                    );
                }
                proof {
                    let before = views(values@);
                    let after = views(values@.push(value));
                    assert(after =~= before.push(value@));
                    match parse_many(rest@, elem, least as nat) {
                        Ok((left, others)) => {
                            assert(before + (seq![value@] + others) =~= after + others);
                        },
                        Err(_) => {},
                    }
                }
                values.push(value);
                cur = rest;
            },
        }
    }
}

/// Decoding the byte that ends a list: a single zero.
#[verifier::opaque]
pub open spec fn parse_nul(s: Seq<u8>) -> Parsed<()> {
    if s.len() == 0 {
        Err(ParseErrorView::Incomplete(Needed::Size(1)))
    } else if s[0] == 0 {
        Ok((s.subrange(1, s.len() as int), ()))
    } else {
        Err(ParseErrorView::Error(seq![(s, KindView::Code(ErrorKind::Tag))]))
    }
}

/// Takes the zero byte that ends a list from the front of `input`.
pub fn nul<'a>(input: &'a [u8]) -> (r: core::result::Result<(&'a [u8], ()), ParseError>)
    ensures
        parsed(r) == parse_nul(input@),
{
    proof {
        reveal(parse_nul);
    }
    if input.len() == 0 {
        Err(ParseError::Incomplete(Needed::Size(1)))
    } else if input[0] == 0 {
        Ok((vstd::slice::slice_subrange(input, 1, input.len()), ()))
    } else {
        Err(ParseError::Error(VerboseError::from_error_kind(input, ErrorKind::Tag)))
    }
}

} // verus!
