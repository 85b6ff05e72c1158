use ssh_control::error::{ErrorKind, Needed, ParseError, RawBytes, VerboseError, VerboseErrorKind};
use ssh_control::protocol::utils::{be_bytes, many, nul};
use ssh_control::Wire;

fn encoded<T: Wire>(value: &T) -> Vec<u8> {
    let mut out = Vec::new();
    value.serialize(&mut out);
    out
}

fn invalid(entries: Vec<(&[u8], VerboseErrorKind)>) -> ParseError {
    ParseError::Error(VerboseError {
        errors: entries
            .into_iter()
            .map(|(input, kind)| (RawBytes(input.to_vec()), kind))
            .collect(),
    })
}

#[test]
fn number_is_four_bytes_most_significant_first() {
    assert_eq!(encoded(&0x0102_0304u32), vec![1, 2, 3, 4]);
    assert_eq!(encoded(&0u32), vec![0, 0, 0, 0]);
    assert_eq!(encoded(&u32::MAX), vec![255, 255, 255, 255]);
    assert_eq!(be_bytes(4242), [0, 0, 0x10, 0x92]);
}

#[test]
fn number_is_appended_to_what_the_writer_holds() {
    let mut out = vec![9u8, 8];
    7u32.serialize(&mut out);
    assert_eq!(out, vec![9, 8, 0, 0, 0, 7]);
}

#[test]
fn number_is_decoded_and_the_rest_handed_back() {
    let input = [0x00u8, 0x01, 0x02, 0x03, b'a', b'b', b'c', b'd'];
    assert_eq!(u32::parse(&input), Ok((&b"abcd"[..], 0x0001_0203)));
}

#[test]
fn short_number_is_incomplete_by_what_is_missing() {
    assert_eq!(u32::parse(&[1]), Err(ParseError::Incomplete(Needed::Size(3))));
    assert_eq!(u32::parse(&[]), Err(ParseError::Incomplete(Needed::Size(4))));
    assert_eq!(u32::parse(&[1, 2, 3]), Err(ParseError::Incomplete(Needed::Size(1))));
}

#[test]
fn number_round_trip_at_the_bounds() {
    for v in [0u32, 1, 255, 256, 65_535, 65_536, 0x7fff_ffff, 0x8000_0000, u32::MAX] {
        let bytes = encoded(&v);
        assert_eq!(u32::parse(&bytes), Ok((&[][..], v)));
    }
}

#[test]
fn flag_is_encoded_as_zero_or_one() {
    assert_eq!(encoded(&false), vec![0, 0, 0, 0]);
    assert_eq!(encoded(&true), vec![0, 0, 0, 1]);
}

#[test]
fn any_number_but_zero_is_a_true_flag() {
    assert_eq!(bool::parse(&[0, 0, 0, 0]), Ok((&[][..], false)));
    assert_eq!(bool::parse(&[0, 0, 0, 1]), Ok((&[][..], true)));
    assert_eq!(bool::parse(&[0x80, 0, 0, 0, 5]), Ok((&[5u8][..], true)));
    assert_eq!(bool::parse(&[0, 0, 2, 0]), Ok((&[][..], true)));
    assert_eq!(bool::parse(&[0, 0]), Err(ParseError::Incomplete(Needed::Size(2))));
}

#[test]
fn text_is_its_byte_count_then_its_bytes() {
    assert_eq!(encoded(&String::from("xterm")), vec![0, 0, 0, 5, b'x', b't', b'e', b'r', b'm']);
    assert_eq!(encoded(&String::new()), vec![0, 0, 0, 0]);
    // The count is of bytes, not of characters.
    assert_eq!(encoded(&String::from("é")), vec![0, 0, 0, 2, 0xc3, 0xa9]);
}

#[test]
fn text_round_trip() {
    for text in ["", "a", "policy", "héllo wörld", "日本語", "\u{10ffff}", "a\0b", "line\nbreak"] {
        let text = String::from(text);
        let mut bytes = encoded(&text);
        bytes.extend_from_slice(&[0xde, 0xad]);
        assert_eq!(String::parse(&bytes), Ok((&[0xde, 0xad][..], text)));
    }
}

#[test]
fn text_shorter_than_its_count_is_incomplete() {
    assert_eq!(
        String::parse(&[0, 0, 0, 5, b'a', b'b']),
        Err(ParseError::Incomplete(Needed::Size(3)))
    );
    assert_eq!(String::parse(&[0, 0]), Err(ParseError::Incomplete(Needed::Size(2))));
    assert_eq!(
        String::parse(&[0xff, 0xff, 0xff, 0xff]),
        Err(ParseError::Incomplete(Needed::Size(u32::MAX as usize)))
    );
}

#[test]
fn text_that_is_not_utf8_is_invalid() {
    let input = [0u8, 0, 0, 2, 0xff, 0xfe, 7];
    assert_eq!(
        String::parse(&input),
        Err(invalid(vec![
            (&[0xff, 0xfe], VerboseErrorKind::Code(ErrorKind::MapOpt)),
            (&input, VerboseErrorKind::Context("string")),
        ]))
    );
    // A character cut short, an overlong form and a surrogate are no UTF-8.
    for bad in [&[0xc3u8][..], &[0xc0, 0x80], &[0xed, 0xa0, 0x80], &[0xf4, 0x90, 0x80, 0x80]] {
        let mut input = vec![0u8, 0, 0, bad.len() as u8];
        input.extend_from_slice(bad);
        assert_eq!(
            String::parse(&input),
            Err(invalid(vec![
                (bad, VerboseErrorKind::Code(ErrorKind::MapOpt)),
                (&input, VerboseErrorKind::Context("string")),
            ]))
        );
    }
}

#[test]
fn list_ends_where_the_input_does() {
    let mut input = Vec::new();
    String::from("a").serialize(&mut input);
    String::from("bc").serialize(&mut input);
    assert_eq!(
        many::<String>(&input, 1),
        Ok((&[][..], vec![String::from("a"), String::from("bc")]))
    );
    assert_eq!(many::<String>(&[], 1), Ok((&[][..], vec![])));
}

#[test]
fn list_ends_where_too_few_bytes_are_left() {
    let mut input = Vec::new();
    String::from("a").serialize(&mut input);
    input.push(0);
    assert_eq!(many::<String>(&input, 4), Ok((&[0u8][..], vec![String::from("a")])));
    assert_eq!(many::<String>(&[1, 2, 3], 4), Ok((&[1u8, 2, 3][..], vec![])));
}

#[test]
fn list_ends_before_an_invalid_element() {
    let mut input = Vec::new();
    String::from("ok").serialize(&mut input);
    let bad_from = input.len();
    input.extend_from_slice(&[0, 0, 0, 1, 0xff]);
    let (rest, values) = many::<String>(&input, 1).unwrap();
    assert_eq!(values, vec![String::from("ok")]);
    assert_eq!(rest, &input[bad_from..]);
}

#[test]
fn list_with_an_incomplete_element_is_incomplete() {
    let mut input = Vec::new();
    String::from("ok").serialize(&mut input);
    input.extend_from_slice(&[0, 0, 0, 9, b'x']);
    assert_eq!(many::<String>(&input, 1), Err(ParseError::Incomplete(Needed::Size(8))));
    let mut input = Vec::new();
    String::from("ok").serialize(&mut input);
    input.push(0);
    assert_eq!(many::<String>(&input, 1), Err(ParseError::Incomplete(Needed::Size(3))));
}

#[test]
fn end_of_list_is_one_zero_byte() {
    assert_eq!(nul(&[0]), Ok((&[][..], ())));
    assert_eq!(nul(&[0, 7]), Ok((&[7u8][..], ())));
    assert_eq!(nul(&[]), Err(ParseError::Incomplete(Needed::Size(1))));
    assert_eq!(
        nul(&[1, 0]),
        Err(invalid(vec![(&[1, 0], VerboseErrorKind::Code(ErrorKind::Tag))]))
    );
}
