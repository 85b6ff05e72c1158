use ssh_control::error::{ErrorKind, Needed, RawBytes, VerboseError, VerboseErrorKind};
use ssh_control::text::{push_ascii, push_decimal, push_hex_byte, push_lower_hex, push_readable};
use ssh_control::Error;

fn readable(bytes: &[u8]) -> String {
    RawBytes(bytes.to_vec()).to_text()
}

/// The same rendering, written with what the standard library tells
/// about where well-formed text ends.
fn reference(bytes: &[u8]) -> String {
    fn show(s: &str, out: &mut String) {
        for c in s.bytes() {
            match c {
                b'\n' => out.push_str("\\n"),
                b'\r' => out.push_str("\\r"),
                b'\t' => out.push_str("\\t"),
                _ => {
                    if c.is_ascii_alphanumeric() || c.is_ascii_punctuation() || c == b' ' {
                        out.push(c as char);
                    } else {
                        out.push_str(&format!("\\x{c:02x}"));
                    }
                }
            }
        }
    }
    let mut out = String::new();
    let mut data = bytes;
    while !data.is_empty() {
        match std::str::from_utf8(data) {
            Ok(v) => {
                show(v, &mut out);
                return out;
            }
            Err(e) => {
                show(std::str::from_utf8(&data[..e.valid_up_to()]).unwrap(), &mut out);
                out.push_str(&format!("\\{:02x}", data[e.valid_up_to()]));
                data = &data[e.valid_up_to() + 1..];
            }
        }
    }
    out
}

#[test]
fn printable_bytes_are_shown_as_they_are() {
    assert_eq!(readable(b"id -u ~root!"), "id -u ~root!");
    assert_eq!(readable(b""), "");
    assert_eq!(readable(b" "), " ");
}

#[test]
fn line_ends_and_tabulators_are_escaped() {
    assert_eq!(readable(b"a\nb\rc\td"), "a\\nb\\rc\\td");
}

#[test]
fn other_bytes_of_text_are_shown_in_hexadecimal() {
    assert_eq!(readable(&[0]), "\\x00");
    assert_eq!(readable(&[0x1f, 0x7f]), "\\x1f\\x7f");
    // A well-formed character of two bytes.
    assert_eq!(readable("é".as_bytes()), "\\xc3\\xa9");
    assert_eq!(readable("a€b".as_bytes()), "a\\xe2\\x82\\xacb");
    assert_eq!(readable("\u{10348}".as_bytes()), "\\xf0\\x90\\x8d\\x88");
}

#[test]
fn stray_bytes_are_shown_without_the_x() {
    assert_eq!(readable(&[0xff]), "\\ff");
    assert_eq!(readable(&[b'a', 0x80, b'b']), "a\\80b");
    // A character cut short: its first byte is stray, and so is the next.
    assert_eq!(readable(&[0xe2, 0x82]), "\\e2\\82");
    assert_eq!(readable(&[0xc3, b'a']), "\\c3a");
    // An overlong form and a surrogate.
    assert_eq!(readable(&[0xc0, 0x80]), "\\c0\\80");
    assert_eq!(readable(&[0xed, 0xa0, 0x80]), "\\ed\\a0\\80");
}

#[test]
fn readable_agrees_with_the_standard_library() {
    let mut samples: Vec<Vec<u8>> = vec![
        vec![],
        b"plain".to_vec(),
        "héllo wörld\n".as_bytes().to_vec(),
        vec![0xff, 0xfe, 0xfd],
        vec![0xe2, 0x82, 0xac, 0xe2, 0x82],
        vec![0xf0, 0x9f, 0x98, 0x80, 0xf0, 0x9f, 0x98],
        vec![0xf4, 0x8f, 0xbf, 0xbf, 0xf4, 0x90, 0x80, 0x80],
        vec![0xc2, 0x80, 0xc1, 0xbf, 0xdf, 0xbf],
        vec![0xe0, 0x9f, 0xbf, 0xe0, 0xa0, 0x80],
        vec![0xed, 0x9f, 0xbf, 0xed, 0xa0, 0x80, 0xee, 0x80, 0x80],
        vec![0xf0, 0x8f, 0xbf, 0xbf, 0xf0, 0x90, 0x80, 0x80],
    ];
    for b in 0..=255u8 {
        samples.push(vec![b]);
        samples.push(vec![b'a', b, b'z']);
        samples.push(vec![0xc3, b]);
        samples.push(vec![0xe2, 0x82, b]);
        samples.push(vec![0xf0, 0x9f, 0x98, b]);
        samples.push(vec![b, 0x80, 0x80, 0x80, 0x80]);
    }
    // A fixed walk through longer inputs.
    let mut state: u32 = 0x1234_5678;
    for len in 0..64usize {
        let mut sample = Vec::new();
        for _ in 0..len {
            state = state.wrapping_mul(1_664_525).wrapping_add(1_013_904_223);
            let b = (state >> 24) as u8;
            sample.push(if state & 0x100 == 0 { b } else { b | 0x80 });
        }
        samples.push(sample);
    }
    for sample in samples {
        assert_eq!(readable(&sample), reference(&sample), "for {sample:?}");
    }
}

#[test]
fn readable_text_is_appended() {
    let mut out = String::from("at ");
    push_readable(&mut out, b"x\n");
    assert_eq!(out, "at x\\n");
}

#[test]
fn bytes_in_hexadecimal() {
    assert_eq!(RawBytes(vec![]).to_hex(), "0x");
    assert_eq!(RawBytes(vec![0, 1, 0xab, 0xff]).to_hex(), "0x0001abff");
    let mut out = vec![b'>'];
    push_hex_byte(&mut out, 0x0f);
    push_hex_byte(&mut out, 0xa0);
    assert_eq!(out, b">0fa0");
}

#[test]
fn numbers_in_decimal_and_hexadecimal() {
    let decimal = |n: u64| {
        let mut out = String::new();
        push_decimal(&mut out, n);
        out
    };
    let hex = |n: u64| {
        let mut out = String::new();
        push_lower_hex(&mut out, n);
        out
    };
    for n in [0u64, 1, 9, 10, 11, 99, 100, 4242, 65_535, 4_294_967_295, u64::MAX] {
        assert_eq!(decimal(n), format!("{n}"));
        assert_eq!(hex(n), format!("{n:x}"));
    }
    assert_eq!(hex(255), "ff");
    assert_eq!(hex(16), "10");
    assert_eq!(decimal(1234567890), "1234567890");
}

#[test]
fn ascii_bytes_are_appended_as_characters() {
    let mut out = String::from("é");
    push_ascii(&mut out, b"abc\x00\x7f");
    assert_eq!(out, "éabc\0\u{7f}");
}

#[test]
fn names_of_expectations() {
    assert_eq!(ErrorKind::Tag.name(), "Tag");
    assert_eq!(ErrorKind::MapOpt.name(), "MapOpt");
    assert_eq!(ErrorKind::Verify.name(), "Verify");
    assert_eq!(ErrorKind::Eof.name(), "Eof");
    assert_eq!(ErrorKind::Many0.name(), "Many0");
}

#[test]
fn failures_told_in_words() {
    assert_eq!(Error::Incomplete(Needed::Unknown).message(), "More bytes needed");
    assert_eq!(Error::Incomplete(Needed::Size(3)).message(), "At least 3 more bytes needed");
    assert_eq!(Error::UnsupportedVersion(5).message(), "Remote uses incompatible version 5");
    assert_eq!(
        Error::UnsupportedVersion(u32::MAX).message(),
        "Remote uses incompatible version 4294967295"
    );
    assert_eq!(
        Error::InvalidPacket { description: String::from("Ok") }.message(),
        "Received an invalid packet: Ok"
    );
    assert_eq!(
        Error::InvalidResponseID { expected: Some(1), received: Some(0xab) }.message(),
        "Expect ID 0x1, received 0xab"
    );
    assert_eq!(
        Error::InvalidResponseID { expected: Some(0x10), received: None }.message(),
        "Expect ID 0x10, received none"
    );
    assert_eq!(
        Error::InvalidResponseID { expected: None, received: Some(u32::MAX) }.message(),
        "Expect no ID, received 0xffffffff"
    );
    assert_eq!(
        Error::InvalidResponseID { expected: None, received: None }.message(),
        "Expect no ID, received none"
    );
    assert_eq!(
        Error::PermissionDenied(String::from("pölicy")).message(),
        "Remote operation not permitted: pölicy"
    );
    assert_eq!(Error::Failure(String::from("why")).message(), "Remote operation failed: why");
    assert_eq!(Error::TtyAllocFailed.message(), "Remote TTY allocation failed");
}

#[test]
fn trail_told_line_by_line() {
    let trail = VerboseError {
        errors: vec![
            (RawBytes(vec![0xff, b'a']), VerboseErrorKind::Code(ErrorKind::MapOpt)),
            (RawBytes(b"\0\0\0\x02\xffa".to_vec()), VerboseErrorKind::Context("string")),
            (RawBytes(vec![]), VerboseErrorKind::Context("Failure")),
        ],
    };
    assert_eq!(
        trail.to_text(),
        "0: MapOpt at \\ffa\n1: string at \\x00\\x00\\x00\\x02\\ffa\n2: Failure at \n"
    );
    assert_eq!(
        Error::Parsing(trail).message(),
        "Parsing error:\n0: MapOpt at \\ffa\n1: string at \\x00\\x00\\x00\\x02\\ffa\n2: Failure at \n"
    );
    assert_eq!(Error::Parsing(VerboseError { errors: vec![] }).message(), "Parsing error:\n");
}
