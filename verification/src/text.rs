//! Building the texts of messages for people: numbers in decimal and in
//! hexadecimal, and bytes made readable.

use vstd::prelude::*;
use vstd::string::StringExecFns;
use vstd::utf8::{encode_utf8, is_ascii_chars, valid_utf8};
use crate::protocol::strings::str_from_utf8;

verus! {

/// The characters that ASCII bytes stand for.
pub open spec fn ascii(bytes: Seq<u8>) -> Seq<char> {
    Seq::new(bytes.len(), |i: int| bytes[i] as char)
}

/// Every byte is an ASCII character.
pub open spec fn is_ascii(bytes: Seq<u8>) -> bool {
    forall|i: int| 0 <= i < bytes.len() ==> #[trigger] bytes[i] < 0x80
}

/// ASCII bytes are the UTF-8 encoding of the characters that they stand
/// for.
pub proof fn lemma_ascii_is_utf8(bytes: Seq<u8>)
    requires
        is_ascii(bytes),
    ensures
        encode_utf8(ascii(bytes)) == bytes,
        valid_utf8(bytes),
{
    let chars = ascii(bytes);
    assert(is_ascii_chars(chars)) by {
        assert forall|i: int| 0 <= i < chars.len() implies '\0' <= #[trigger] chars[i]
            <= '\u{7f}' by {
            assert(bytes[i] < 0x80);
        }
    }
    vstd::utf8::is_ascii_chars_encode_utf8(chars);
    assert(encode_utf8(chars) =~= bytes) by {
        assert forall|i: int| 0 <= i < bytes.len() implies encode_utf8(chars)[i] == bytes[i] by {
            assert(bytes[i] < 0x80);
            assert(chars[i] as u8 == bytes[i]);
        }
    }
    vstd::utf8::encode_utf8_valid_utf8(chars);
}

/// Appends to `out` the characters that the ASCII bytes `bytes` stand for.
pub fn push_ascii(out: &mut String, bytes: &[u8])
    requires
        is_ascii(bytes@),
    ensures
        final(out)@ == old(out)@ + ascii(bytes@),
{
    proof {
        lemma_ascii_is_utf8(bytes@);
    }
    match str_from_utf8(bytes) {
        Some(text) => {
            proof {
                vstd::utf8::encode_utf8_decode_utf8(text@);
                vstd::utf8::encode_utf8_decode_utf8(ascii(bytes@));
            }
            out.append(text);
        },
        None => {},
    }
}

/// The ASCII byte of a hexadecimal digit, in lower case.
pub open spec fn hex_digit(d: int) -> u8 {
    if d < 10 {
        (0x30 + d) as u8
    } else {
        (0x61 + d - 10) as u8
    }
}

/// A byte as two hexadecimal digits.
pub open spec fn hex_byte(b: u8) -> Seq<u8> {
    seq![hex_digit(b as int / 16), hex_digit(b as int % 16)]
}

/// A number in hexadecimal, without leading zeros.
pub open spec fn lower_hex(n: nat) -> Seq<u8>
    decreases n,
{
    if n < 16 {
        seq![hex_digit(n as int)]
    } else {
        lower_hex(n / 16).push(hex_digit(n as int % 16))
    }
}

/// A number in decimal, without leading zeros.
pub open spec fn decimal(n: nat) -> Seq<u8>
    decreases n,
{
    if n < 10 {
        seq![(0x30 + n) as u8]
    } else {
        decimal(n / 10).push((0x30 + n % 10) as u8)
    }
}

fn digit(d: u8) -> (b: u8)
    requires
        d < 16,
    ensures
        b == hex_digit(d as int),
        b < 0x80,
{
    if d < 10 {
        0x30 + d
    } else {
        0x61 + (d - 10)
    }
}

/// Appends `b` to `out` as two hexadecimal digits.
pub fn push_hex_byte(out: &mut Vec<u8>, b: u8)
    ensures
        final(out)@ == old(out)@ + hex_byte(b),
        is_ascii(old(out)@) ==> is_ascii(final(out)@),
{
    out.push(digit(b / 16));
    out.push(digit(b % 16));
    assert(out@ =~= old(out)@ + hex_byte(b));
}

/// The digits of `n` to the base `base`, which is ten or sixteen.
fn digits(n: u64, base: u64) -> (out: Vec<u8>)
    requires
        base == 10 || base == 16,
    ensures
        base == 10 ==> out@ == decimal(n as nat),
        base == 16 ==> out@ == lower_hex(n as nat),
        is_ascii(out@),
{
    let mut reversed: Vec<u8> = Vec::new();
    let mut rest: u64 = n;
    while rest >= base
        invariant
            base == 10 || base == 16,
            is_ascii(reversed@),
            base == 10 ==> decimal(n as nat) == decimal(rest as nat) + reversed@.reverse(),
            base == 16 ==> lower_hex(n as nat) == lower_hex(rest as nat) + reversed@.reverse(),
        decreases rest,
    {
        let d: u8 = (rest % base) as u8;
        let ghost before = reversed@;
        reversed.push(digit(d));
        proof {
            let last = seq![hex_digit(d as int)];
            assert(reversed@.reverse() =~= last + before.reverse());
            if base == 10 {
                assert(decimal(rest as nat) =~= decimal((rest / 10) as nat) + last);
                assert(decimal((rest / 10) as nat) + last + before.reverse() =~= decimal(
                    (rest / 10) as nat,
                ) + reversed@.reverse());
            } else {
                assert(lower_hex(rest as nat) =~= lower_hex((rest / 16) as nat) + last);
                assert(lower_hex((rest / 16) as nat) + last + before.reverse() =~= lower_hex(
                    (rest / 16) as nat,
                ) + reversed@.reverse());
            }
        }
        rest = rest / base;
    }
    let ghost tail = reversed@;
    reversed.push(digit(rest as u8));
    proof {
        let first = seq![hex_digit(rest as int)];
        assert(reversed@.reverse() =~= first + tail.reverse());
    }
    let mut out: Vec<u8> = Vec::new();
    let mut i: usize = reversed.len();
    while i > 0
        invariant
            i <= reversed@.len(),
            out@ == reversed@.reverse().subrange(0, reversed@.len() - i),
        decreases i,
    {
        i = i - 1;
        out.push(reversed[i]);
        assert(out@ =~= reversed@.reverse().subrange(0, reversed@.len() - i));
    }
    assert(out@ =~= reversed@.reverse());
    out
}

/// Appends `n` to `out` in decimal.
pub fn push_decimal(out: &mut String, n: u64)
    ensures
        final(out)@ == old(out)@ + ascii(decimal(n as nat)),
{
    let text = digits(n, 10);
    push_ascii(out, text.as_slice());
}

/// Appends `n` to `out` in hexadecimal.
pub fn push_lower_hex(out: &mut String, n: u64)
    ensures
        final(out)@ == old(out)@ + ascii(lower_hex(n as nat)),
{
    let text = digits(n, 16);
    push_ascii(out, text.as_slice());
}

/// How one byte of well-formed text is shown: a line feed, a carriage
/// return and a tabulator by their escapes, a printable character as it
/// is, and any other byte as `\x` and its two hexadecimal digits.
pub open spec fn shown_byte(c: u8) -> Seq<u8> {
    if c == 0x0a {
        seq![0x5cu8, 0x6eu8]
    } else if c == 0x0d {
        seq![0x5cu8, 0x72u8]
    } else if c == 0x09 {
        seq![0x5cu8, 0x74u8]
    } else if 0x20 <= c <= 0x7e {
        seq![c]
    } else {
        seq![0x5cu8, 0x78u8] + hex_byte(c)
    }
}

/// How the bytes of well-formed text are shown, one after the other.
pub open spec fn shown_bytes(s: Seq<u8>) -> Seq<u8>
    decreases s.len(),
{
    if s.len() == 0 {
        Seq::empty()
    } else {
        shown_bytes(s.drop_last()) + shown_byte(s.last())
    }
}

/// How a byte that belongs to no well-formed character is shown: a
/// backslash and its two hexadecimal digits.
pub open spec fn stray_byte(c: u8) -> Seq<u8> {
    seq![0x5cu8] + hex_byte(c)
}

/// The number of bytes of the well-formed character at the front of `s`:
/// zero where there is none.
pub open spec fn scalar_len(s: Seq<u8>) -> int {
    if s.len() >= 1 && valid_utf8(s.subrange(0, 1)) {
        1
    } else if s.len() >= 2 && valid_utf8(s.subrange(0, 2)) {
        2
    } else if s.len() >= 3 && valid_utf8(s.subrange(0, 3)) {
        3
    } else if s.len() >= 4 && valid_utf8(s.subrange(0, 4)) {
        4
    } else {
        0
    }
}

/// Bytes made readable: what is well-formed UTF-8 is shown byte by byte,
/// see [`shown_byte`], and each byte in between as a stray byte, see
/// [`stray_byte`].
pub open spec fn readable(s: Seq<u8>) -> Seq<u8>
    decreases s.len(),
{
    if s.len() == 0 {
        Seq::empty()
    } else {
        let k = scalar_len(s);
        if k == 0 {
            stray_byte(s[0]) + readable(s.subrange(1, s.len() as int))
        } else {
            shown_bytes(s.subrange(0, k)) + readable(s.subrange(k, s.len() as int))
        }
    }
}

/// Bytes in hexadecimal, two digits each.
pub open spec fn hex_bytes(s: Seq<u8>) -> Seq<u8>
    decreases s.len(),
{
    if s.len() == 0 {
        Seq::empty()
    } else {
        hex_bytes(s.drop_last()) + hex_byte(s.last())
    }
}

/// Appends to `out` how the byte `c` of well-formed text is shown.
fn push_shown_byte(out: &mut Vec<u8>, c: u8)
    requires
        is_ascii(old(out)@),
    ensures
        final(out)@ == old(out)@ + shown_byte(c),
        is_ascii(final(out)@),
{
    if c == 0x0a {
        out.push(0x5c);
        out.push(0x6e);
    } else if c == 0x0d {
        out.push(0x5c);
        out.push(0x72);
    } else if c == 0x09 {
        out.push(0x5c);
        out.push(0x74);
    } else if 0x20 <= c && c <= 0x7e {
        out.push(c);
    } else {
        out.push(0x5c);
        out.push(0x78);
        push_hex_byte(out, c);
    }
    assert(out@ =~= old(out)@ + shown_byte(c));
}

/// The number of bytes of the well-formed character at `pos` in `data`.
fn scalar_len_at(data: &[u8], pos: usize) -> (k: usize)
    requires
        pos < data@.len(),
    ensures
        k == scalar_len(data@.subrange(pos as int, data@.len() as int)),
        pos + k <= data@.len(),
{
    let ghost s = data@.subrange(pos as int, data@.len() as int);
    let left: usize = data.len() - pos;
    let mut k: usize = 1;
    while k <= 4 && k <= left
        invariant
            1 <= k <= 5,
            pos < data@.len(),
            data@.len() == data.len(),
            left == data@.len() - pos,
            s == data@.subrange(pos as int, data@.len() as int),
            forall|j: int| 1 <= j < k ==> !valid_utf8(#[trigger] s.subrange(0, j)),
        decreases 5 - k,
    {
        let window = vstd::slice::slice_subrange(data, pos, pos + k);
        assert(window@ =~= s.subrange(0, k as int));
        if str_from_utf8(window).is_some() {
            return k;
        }
        k = k + 1;
    }
    0
}

/// `bytes` made readable, see [`readable`].
pub fn push_readable(out: &mut String, bytes: &[u8])
    ensures
        final(out)@ == old(out)@ + ascii(readable(bytes@)),
{
    let mut shown: Vec<u8> = Vec::new();
    let mut pos: usize = 0;
    assert(bytes@.subrange(0, bytes@.len() as int) =~= bytes@);
    while pos < bytes.len()
        invariant
            pos <= bytes@.len(),
            is_ascii(shown@),
            readable(bytes@) == shown@ + readable(bytes@.subrange(pos as int, bytes@.len() as int)),
        decreases bytes@.len() - pos,
    {
        let ghost s = bytes@.subrange(pos as int, bytes@.len() as int);
        let ghost before = shown@;
        let k = scalar_len_at(bytes, pos);
        if k == 0 {
            shown.push(0x5c);
            push_hex_byte(&mut shown, bytes[pos]);
            proof {
                assert(shown@ =~= before + stray_byte(s[0]));
                assert(s.subrange(1, s.len() as int) =~= bytes@.subrange(
                    pos + 1,
                    bytes@.len() as int,
                ));
                assert(before + (stray_byte(s[0]) + readable(s.subrange(1, s.len() as int)))
                    =~= shown@ + readable(s.subrange(1, s.len() as int)));
            }
            pos = pos + 1;
        } else {
            let mut i: usize = 0;
            assert(s.subrange(0, k as int).subrange(0, 0) =~= Seq::<u8>::empty());
            while i < k
                invariant
                    i <= k,
                    pos + k <= bytes@.len(),
                    bytes@.len() == bytes.len(),
                    s == bytes@.subrange(pos as int, bytes@.len() as int),
                    is_ascii(shown@),
                    shown@ == before + shown_bytes(s.subrange(0, k as int).subrange(0, i as int)),
                decreases k - i,
            {
                proof {
                    let part = s.subrange(0, k as int);
                    let next = part.subrange(0, i + 1);
                    assert(next.drop_last() =~= part.subrange(0, i as int));
                    assert(next.last() == bytes@[pos + i]);
                }
                push_shown_byte(&mut shown, bytes[pos + i]);
                i = i + 1;
            }
            proof {
                let part = s.subrange(0, k as int);
                assert(part.subrange(0, k as int) =~= part);
                assert(s.subrange(k as int, s.len() as int) =~= bytes@.subrange(
                    pos + k,
                    bytes@.len() as int,
                ));
                assert(before + (shown_bytes(part) + readable(s.subrange(k as int, s.len() as int)))
                    =~= shown@ + readable(s.subrange(k as int, s.len() as int)));
            }
            pos = pos + k;
        }
    }
    proof {
        assert(shown@ + Seq::<u8>::empty() =~= shown@);
    }
    push_ascii(out, shown.as_slice());
}

/// `bytes` in hexadecimal, see [`hex_bytes`].
pub fn push_hex_bytes(out: &mut String, bytes: &[u8])
    ensures
        final(out)@ == old(out)@ + ascii(hex_bytes(bytes@)),
{
    let mut shown: Vec<u8> = Vec::new();
    let mut i: usize = 0;
    assert(bytes@.subrange(0, 0) =~= Seq::<u8>::empty());
    while i < bytes.len()
        invariant
            i <= bytes@.len(),
            is_ascii(shown@),
            shown@ == hex_bytes(bytes@.subrange(0, i as int)),
        decreases bytes@.len() - i,
    {
        proof {
            let next = bytes@.subrange(0, i + 1);
            assert(next.drop_last() =~= bytes@.subrange(0, i as int));
        }
        push_hex_byte(&mut shown, bytes[i]);
        i = i + 1;
    }
    assert(bytes@.subrange(0, i as int) =~= bytes@);
    push_ascii(out, shown.as_slice());
}

} // verus!
