//! The decoders of this library held against the same grammar written
//! with the combinators of `nom`.

use nom::bytes::streaming::tag;
use nom::combinator::{map_opt, rest, verify};
use nom::error::context;
use nom::multi::{length_data, length_value};
use nom::number::streaming::be_u32;
use nom::sequence::tuple;
use ssh_control::client::{
    AliveCheck, CloseFwd, ForwardingType, ListenType, NewStdioFwd, OpenFwd, StopListening,
    Terminate,
};
use ssh_control::error::{ErrorKind, Needed, ParseError, RawBytes, VerboseError, VerboseErrorKind};
use ssh_control::protocol::utils::nul;
use ssh_control::protocol::Extension;
use ssh_control::server::{
    Alive, ExitMessage, Failure, OkResponse, PermissionDenied, RemotePort, SessionOpened,
    TtyAllocFail,
};
use ssh_control::{MuxMessage, MuxResponse, Packet, Wire};

type Other<'a, T> = nom::IResult<&'a [u8], T, nom::error::VerboseError<&'a [u8]>>;

fn kind(kind: nom::error::ErrorKind) -> ErrorKind {
    match kind {
        nom::error::ErrorKind::Tag => ErrorKind::Tag,
        nom::error::ErrorKind::MapOpt => ErrorKind::MapOpt,
        nom::error::ErrorKind::Verify => ErrorKind::Verify,
        nom::error::ErrorKind::Eof => ErrorKind::Eof,
        nom::error::ErrorKind::Many0 => ErrorKind::Many0,
        other => panic!("{other:?} is not expected of this grammar"),
    }
}

fn same<'a, T>(theirs: Other<'a, T>) -> Result<(&'a [u8], T), ParseError> {
    match theirs {
        Ok(done) => Ok(done),
        Err(nom::Err::Incomplete(nom::Needed::Size(n))) => {
            Err(ParseError::Incomplete(Needed::Size(n.get())))
        }
        Err(nom::Err::Incomplete(nom::Needed::Unknown)) => {
            Err(ParseError::Incomplete(Needed::Unknown))
        }
        Err(nom::Err::Error(e)) | Err(nom::Err::Failure(e)) => {
            Err(ParseError::Error(VerboseError {
                errors: e
                    .errors
                    .into_iter()
                    .map(|(input, k)| {
                        let k = match k {
                            nom::error::VerboseErrorKind::Context(name) => {
                                VerboseErrorKind::Context(name)
                            }
                            nom::error::VerboseErrorKind::Nom(code) => {
                                VerboseErrorKind::Code(kind(code))
                            }
                            nom::error::VerboseErrorKind::Char(c) => {
                                panic!("{c:?} is not expected of this grammar")
                            }
                        };
                        (RawBytes(input.to_vec()), k)
                    })
                    .collect(),
            }))
        }
    }
}

fn their_string(input: &[u8]) -> Other<'_, String> {
    context(
        "string",
        length_value(be_u32, map_opt(rest, |b: &[u8]| std::str::from_utf8(b).ok().map(String::from))),
    )(input)
}

fn their_forwarding_type(input: &[u8]) -> Other<'_, ForwardingType> {
    context(
        "ForwardingType",
        map_opt(be_u32, |v| match v {
            1 => Some(ForwardingType::Local),
            2 => Some(ForwardingType::Remote),
            3 => Some(ForwardingType::Dynamic),
            _ => None,
        }),
    )(input)
}

fn their_listen_type(input: &[u8]) -> Other<'_, ListenType> {
    context(
        "ListenType",
        map_opt(be_u32, |port| match port {
            0xffff_fffe => Some(ListenType::Unix),
            _ => u16::try_from(port).ok().map(ListenType::Inet),
        }),
    )(input)
}

fn their_open_fwd(input: &[u8]) -> Other<'_, OpenFwd> {
    context(
        "OpenFwd",
        nom::combinator::map(
            tuple((
                be_u32,
                their_forwarding_type,
                their_string,
                their_listen_type,
                their_string,
                their_listen_type,
            )),
            |(request_id, forwarding_type, listen_host, listen_port, connect_host, connect_port)| {
                OpenFwd {
                    request_id,
                    forwarding_type,
                    listen_host,
                    listen_port,
                    connect_host,
                    connect_port,
                }
            },
        ),
    )(input)
}

fn their_close_fwd(input: &[u8]) -> Other<'_, CloseFwd> {
    context(
        "CloseFwd",
        nom::combinator::map(
            tuple((
                be_u32,
                their_forwarding_type,
                their_string,
                their_listen_type,
                their_string,
                their_listen_type,
            )),
            |(request_id, forwarding_type, listen_host, listen_port, connect_host, connect_port)| {
                CloseFwd {
                    request_id,
                    forwarding_type,
                    listen_host,
                    listen_port,
                    connect_host,
                    connect_port,
                }
            },
        ),
    )(input)
}

fn their_new_stdio_fwd(input: &[u8]) -> Other<'_, NewStdioFwd> {
    context(
        "NewStdioFwd",
        nom::combinator::map(
            tuple((be_u32, their_string, their_string, their_listen_type)),
            |(request_id, _reserved, connect_host, connect_port)| NewStdioFwd {
                request_id,
                connect_host,
                connect_port,
            },
        ),
    )(input)
}

fn their_extension(input: &[u8]) -> Other<'_, Extension> {
    context(
        "Extension",
        nom::combinator::map(tuple((their_string, their_string)), |(name, value)| Extension { name, value }),
    )(input)
}

/// Every request but a new session, whose environment this library ends
/// in its own way.
fn their_request(input: &[u8]) -> Other<'_, MuxMessage> {
    let (rest, tag) = context(
        "MuxMessage",
        verify(be_u32, |t: &u32| {
            matches!(*t, 0x1000_0002 | 0x1000_0004..=0x1000_0009)
        }),
    )(input)?;
    match tag {
        0x1000_0004 => nom::combinator::map(
            context("AliveCheck", nom::combinator::map(be_u32, |request_id| AliveCheck { request_id })),
            MuxMessage::AliveCheck,
        )(rest),
        0x1000_0005 => nom::combinator::map(
            context("Terminate", nom::combinator::map(be_u32, |request_id| Terminate { request_id })),
            MuxMessage::Terminate,
        )(rest),
        0x1000_0006 => nom::combinator::map(their_open_fwd, MuxMessage::OpenFwd)(rest),
        0x1000_0007 => nom::combinator::map(their_close_fwd, MuxMessage::CloseFwd)(rest),
        0x1000_0008 => nom::combinator::map(their_new_stdio_fwd, MuxMessage::NewStdioFwd)(rest),
        0x1000_0009 => nom::combinator::map(
            context("StopListening", nom::combinator::map(be_u32, |request_id| StopListening { request_id })),
            MuxMessage::StopListening,
        )(rest),
        _ => panic!("a new session is not compared"),
    }
}

fn their_response(input: &[u8]) -> Other<'_, MuxResponse> {
    let (rest, tag) = context(
        "MuxResponse",
        verify(be_u32, |t: &u32| matches!(*t, 0x8000_0001..=0x8000_0008)),
    )(input)?;
    match tag {
        0x8000_0001 => nom::combinator::map(
            context("Ok", nom::combinator::map(be_u32, |client_request_id| OkResponse { client_request_id })),
            MuxResponse::OkResponse,
        )(rest),
        0x8000_0002 => nom::combinator::map(
            context(
                "PermissionDenied",
                nom::combinator::map(tuple((be_u32, their_string)), |(client_request_id, reason)| {
                    PermissionDenied { client_request_id, reason }
                }),
            ),
            MuxResponse::PermissionDenied,
        )(rest),
        0x8000_0003 => nom::combinator::map(
            context(
                "Failure",
                nom::combinator::map(tuple((be_u32, their_string)), |(client_request_id, reason)| Failure {
                    client_request_id,
                    reason,
                }),
            ),
            MuxResponse::Failure,
        )(rest),
        0x8000_0004 => nom::combinator::map(
            context(
                "ExitMessage",
                nom::combinator::map(tuple((be_u32, be_u32)), |(session_id, exit_value)| ExitMessage {
                    session_id,
                    exit_value,
                }),
            ),
            MuxResponse::ExitMessage,
        )(rest),
        0x8000_0005 => nom::combinator::map(
            context(
                "Alive",
                nom::combinator::map(tuple((be_u32, be_u32)), |(client_request_id, server_pid)| Alive {
                    client_request_id,
                    server_pid,
                }),
            ),
            MuxResponse::Alive,
        )(rest),
        0x8000_0006 => nom::combinator::map(
            context(
                "SessionOpened",
                nom::combinator::map(tuple((be_u32, be_u32)), |(client_request_id, session_id)| SessionOpened {
                    client_request_id,
                    session_id,
                }),
            ),
            MuxResponse::SessionOpened,
        )(rest),
        0x8000_0007 => nom::combinator::map(
            context(
                "RemotePort",
                nom::combinator::map(tuple((be_u32, be_u32)), |(client_request_id, allocated_remote_listen_port)| {
                    RemotePort { client_request_id, allocated_remote_listen_port }
                }),
            ),
            MuxResponse::RemotePort,
        )(rest),
        _ => nom::combinator::map(
            context("TtyAllocFail", nom::combinator::map(be_u32, |session_id| TtyAllocFail { session_id })),
            MuxResponse::TtyAllocFail,
        )(rest),
    }
}

/// Inputs of every shape: short ones, well-formed texts and messages, each
/// cut at every length and with single bytes changed, and a fixed walk
/// through bytes of no meaning.
fn inputs() -> Vec<Vec<u8>> {
    let mut seeds: Vec<Vec<u8>> = vec![
        vec![],
        vec![0],
        vec![0, 0, 0, 0],
        vec![0, 0, 0, 1],
        vec![0, 0, 0, 1, b'a'],
        vec![0, 0, 0, 2, 0xc3, 0xa9, 0xff],
        vec![0, 0, 0, 3, 0xe2, 0x82, 0xac, 1, 2, 3, 4],
        vec![0, 0, 0, 1, 0xff, 0, 0, 0, 0],
        vec![0xff, 0xff, 0xff, 0xfe, 0, 0, 0, 0],
        vec![0xff, 0xff, 0xff, 0xff],
        vec![0, 1, 0, 0, 0, 0, 0, 1],
    ];
    let text = |s: &str, out: &mut Vec<u8>| String::from(s).serialize(out);
    for tag in [
        0x1000_0004u32, 0x1000_0005, 0x1000_0006, 0x1000_0007, 0x1000_0008, 0x1000_0009,
        0x1000_0001, 0x1000_0003, 0x1000_000a, 0x8000_0000, 0x8000_0001, 0x8000_0002, 0x8000_0003,
        0x8000_0004, 0x8000_0005, 0x8000_0006, 0x8000_0007, 0x8000_0008, 0x8000_0009,
    ] {
        // A body that suits the forwardings.
        let mut message = tag.to_be_bytes().to_vec();
        message.extend_from_slice(&[0, 0, 0, 7, 0, 0, 0, 2]);
        text("localhost", &mut message);
        message.extend_from_slice(&[0, 0, 0x1f, 0x90]);
        text("hôte", &mut message);
        message.extend_from_slice(&[0xff, 0xff, 0xff, 0xfe, 9, 9]);
        seeds.push(message);
        // A body that suits the messages with a reason or a host.
        let mut message = tag.to_be_bytes().to_vec();
        message.extend_from_slice(&[0, 0, 0, 7]);
        text("", &mut message);
        text("reason", &mut message);
        message.extend_from_slice(&[0, 0, 0, 22, 1]);
        seeds.push(message);
    }
    let mut all = Vec::new();
    for seed in &seeds {
        for cut in 0..=seed.len() {
            all.push(seed[..cut].to_vec());
        }
        for at in 0..seed.len() {
            for change in [0x01u8, 0x80, 0xff] {
                let mut changed = seed.clone();
                changed[at] ^= change;
                all.push(changed);
            }
        }
    }
    let mut state: u32 = 0x2545_f491;
    for len in 0..48usize {
        for _ in 0..8 {
            let mut bytes = Vec::new();
            for _ in 0..len {
                state = state.wrapping_mul(1_664_525).wrapping_add(1_013_904_223);
                // Small numbers are frequent, so that counts fit the input.
                bytes.push(if state & 0x300 != 0 { (state >> 28) as u8 } else { (state >> 24) as u8 });
            }
            all.push(bytes);
        }
    }
    all
}

#[test]
fn numbers_agree() {
    for input in inputs() {
        assert_eq!(u32::parse(&input), same(be_u32(&input[..])), "for {input:?}");
        assert_eq!(
            bool::parse(&input),
            same(nom::combinator::map(be_u32, |v| v != 0)(&input[..])),
            "for {input:?}"
        );
    }
}

#[test]
fn texts_agree() {
    for input in inputs() {
        assert_eq!(String::parse(&input), same(their_string(&input)), "for {input:?}");
    }
}

#[test]
fn forwarding_types_and_ports_agree() {
    for input in inputs() {
        assert_eq!(
            ForwardingType::parse(&input),
            same(their_forwarding_type(&input)),
            "for {input:?}"
        );
        assert_eq!(ListenType::parse(&input), same(their_listen_type(&input)), "for {input:?}");
    }
}

#[test]
fn extensions_agree() {
    for input in inputs() {
        assert_eq!(Extension::parse(&input), same(their_extension(&input)), "for {input:?}");
    }
}

#[test]
fn ends_of_lists_agree() {
    for input in inputs() {
        assert_eq!(
            nul(&input),
            same(nom::combinator::map(tag(&b"\0"[..]), |_: &[u8]| ())(&input[..])),
            "for {input:?}"
        );
    }
}

#[test]
fn frames_agree() {
    for input in inputs() {
        let ours = Packet::parse(&input).map(|(rest, packet)| (rest, packet.as_slice().to_vec()));
        let theirs = same(context("Packet", nom::combinator::map(length_data(be_u32), |b: &[u8]| b.to_vec()))(
            &input[..],
        ));
        assert_eq!(ours, theirs, "for {input:?}");
    }
}

#[test]
fn requests_agree() {
    for input in inputs() {
        if input.starts_with(&[0x10, 0, 0, 2]) {
            continue;
        }
        assert_eq!(MuxMessage::parse(&input), same(their_request(&input)), "for {input:?}");
    }
}

#[test]
fn responses_agree() {
    for input in inputs() {
        assert_eq!(MuxResponse::parse(&input), same(their_response(&input)), "for {input:?}");
    }
}

#[test]
fn names_of_expectations_agree() {
    for (ours, theirs) in [
        (ErrorKind::Tag, nom::error::ErrorKind::Tag),
        (ErrorKind::MapOpt, nom::error::ErrorKind::MapOpt),
        (ErrorKind::Verify, nom::error::ErrorKind::Verify),
        (ErrorKind::Eof, nom::error::ErrorKind::Eof),
        (ErrorKind::Many0, nom::error::ErrorKind::Many0),
    ] {
        assert_eq!(ours.name(), format!("{theirs:?}"));
    }
}
