use ssh_control::client::{
    AliveCheck, CloseFwd, ForwardingType, ListenType, NewSession, NewStdioFwd, OpenFwd,
    StopListening, Terminate,
};
use ssh_control::error::{ErrorKind, Needed, ParseError, RawBytes, VerboseError, VerboseErrorKind};
use ssh_control::protocol::Extension;
use ssh_control::server::{
    Alive, ExitMessage, Failure, OkResponse, PermissionDenied, RemotePort, SessionOpened,
    TtyAllocFail,
};
use ssh_control::{Hello, MuxMessage, MuxResponse, Wire};

fn wire<T: Wire>(value: &T) -> Vec<u8> {
    let mut out = Vec::new();
    value.serialize(&mut out);
    out
}

fn trail(entries: Vec<(&[u8], VerboseErrorKind)>) -> ParseError {
    ParseError::Error(VerboseError {
        errors: entries
            .into_iter()
            .map(|(input, kind)| (RawBytes(input.to_vec()), kind))
            .collect(),
    })
}

fn session(request_id: u32, environment: Vec<&str>) -> NewSession {
    NewSession {
        request_id,
        want_tty: true,
        want_x11_forwarding: false,
        want_agent: false,
        subsystem: true,
        escape_char: 0x7e,
        terminal_type: String::from("xterm"),
        command: String::from("id"),
        environment: environment.into_iter().map(String::from).collect(),
    }
}

fn forwarding(request_id: u32) -> OpenFwd {
    OpenFwd {
        request_id,
        forwarding_type: ForwardingType::Remote,
        listen_host: String::from("localhost"),
        listen_port: ListenType::Inet(8080),
        connect_host: String::from("/run/sock"),
        connect_port: ListenType::Unix,
    }
}

fn every_request() -> Vec<MuxMessage> {
    vec![
        MuxMessage::NewSession(session(0, vec![])),
        MuxMessage::NewSession(session(u32::MAX, vec!["LANG=C", "", "PATH=/bin:/usr/bin"])),
        MuxMessage::NewSession(NewSession {
            request_id: 3,
            want_tty: false,
            want_x11_forwarding: true,
            want_agent: true,
            subsystem: false,
            escape_char: u32::MAX,
            terminal_type: String::new(),
            command: String::new(),
            environment: vec![String::new()],
        }),
        MuxMessage::AliveCheck(AliveCheck { request_id: 0 }),
        MuxMessage::AliveCheck(AliveCheck { request_id: u32::MAX }),
        MuxMessage::Terminate(Terminate { request_id: 5 }),
        MuxMessage::OpenFwd(forwarding(6)),
        MuxMessage::OpenFwd(OpenFwd {
            request_id: 0,
            forwarding_type: ForwardingType::Local,
            listen_host: String::new(),
            listen_port: ListenType::Inet(0),
            connect_host: String::new(),
            connect_port: ListenType::Inet(u16::MAX),
        }),
        MuxMessage::CloseFwd(CloseFwd {
            request_id: 7,
            forwarding_type: ForwardingType::Dynamic,
            listen_host: String::from("::1"),
            listen_port: ListenType::Inet(1080),
            connect_host: String::new(),
            connect_port: ListenType::Inet(0),
        }),
        MuxMessage::NewStdioFwd(NewStdioFwd {
            request_id: 8,
            connect_host: String::from("example.org"),
            connect_port: ListenType::Inet(22),
        }),
        MuxMessage::NewStdioFwd(NewStdioFwd {
            request_id: 0,
            connect_host: String::new(),
            connect_port: ListenType::Unix,
        }),
        MuxMessage::StopListening(StopListening { request_id: 9 }),
    ]
}

fn every_response() -> Vec<MuxResponse> {
    vec![
        MuxResponse::OkResponse(OkResponse { client_request_id: 0 }),
        MuxResponse::OkResponse(OkResponse { client_request_id: u32::MAX }),
        MuxResponse::PermissionDenied(PermissionDenied {
            client_request_id: 2,
            reason: String::from("policy"),
        }),
        MuxResponse::PermissionDenied(PermissionDenied {
            client_request_id: 0,
            reason: String::new(),
        }),
        MuxResponse::Failure(Failure { client_request_id: 3, reason: String::from("nö") }),
        MuxResponse::ExitMessage(ExitMessage { session_id: 7, exit_value: 0 }),
        MuxResponse::ExitMessage(ExitMessage { session_id: u32::MAX, exit_value: u32::MAX }),
        MuxResponse::Alive(Alive { client_request_id: 1, server_pid: 4242 }),
        MuxResponse::SessionOpened(SessionOpened { client_request_id: 2, session_id: 7 }),
        MuxResponse::RemotePort(RemotePort {
            client_request_id: 4,
            allocated_remote_listen_port: 65_535,
        }),
        MuxResponse::TtyAllocFail(TtyAllocFail { session_id: 0 }),
    ]
}

#[test]
fn every_request_round_trips() {
    for request in every_request() {
        let bytes = wire(&request);
        assert_eq!(MuxMessage::parse(&bytes), Ok((&[][..], request)));
    }
}

#[test]
fn every_response_round_trips() {
    for response in every_response() {
        let bytes = wire(&response);
        assert_eq!(MuxResponse::parse(&bytes), Ok((&[][..], response)));
    }
}

#[test]
fn every_response_can_be_followed_by_more() {
    for response in every_response() {
        let mut bytes = wire(&response);
        bytes.extend_from_slice(&[1, 2, 3, 4, 5]);
        assert_eq!(MuxResponse::parse(&bytes), Ok((&[1u8, 2, 3, 4, 5][..], response)));
    }
}

#[test]
fn every_truncation_of_a_response_is_incomplete() {
    for response in every_response() {
        let bytes = wire(&response);
        for cut in 0..bytes.len() {
            match MuxResponse::parse(&bytes[..cut]) {
                Err(ParseError::Incomplete(Needed::Size(n))) => assert!(n > 0 && cut + n <= bytes.len()),
                other => panic!("{other:?} for the first {cut} bytes of {response:?}"),
            }
        }
    }
}

#[test]
fn alive_check_is_its_tag_and_its_id() {
    let request = MuxMessage::AliveCheck(AliveCheck { request_id: 1 });
    assert_eq!(wire(&request), vec![0x10, 0, 0, 4, 0, 0, 0, 1]);
}

#[test]
fn request_tags() {
    let tag = |m: MuxMessage| wire(&m)[..4].to_vec();
    assert_eq!(tag(MuxMessage::NewSession(session(0, vec![]))), vec![0x10, 0, 0, 2]);
    assert_eq!(tag(MuxMessage::AliveCheck(AliveCheck { request_id: 0 })), vec![0x10, 0, 0, 4]);
    assert_eq!(tag(MuxMessage::Terminate(Terminate { request_id: 0 })), vec![0x10, 0, 0, 5]);
    assert_eq!(tag(MuxMessage::OpenFwd(forwarding(0))), vec![0x10, 0, 0, 6]);
    assert_eq!(
        tag(MuxMessage::CloseFwd(CloseFwd {
            request_id: 0,
            forwarding_type: ForwardingType::Local,
            listen_host: String::new(),
            listen_port: ListenType::Unix,
            connect_host: String::new(),
            connect_port: ListenType::Unix,
        })),
        vec![0x10, 0, 0, 7]
    );
    assert_eq!(
        tag(MuxMessage::NewStdioFwd(NewStdioFwd {
            request_id: 0,
            connect_host: String::new(),
            connect_port: ListenType::Unix,
        })),
        vec![0x10, 0, 0, 8]
    );
    assert_eq!(
        tag(MuxMessage::StopListening(StopListening { request_id: 0 })),
        vec![0x10, 0, 0, 9]
    );
}

#[test]
fn response_tags() {
    let tags: Vec<Vec<u8>> = every_response().iter().map(|r| wire(r)[..4].to_vec()).collect();
    assert_eq!(tags[0], vec![0x80, 0, 0, 1]);
    assert_eq!(tags[2], vec![0x80, 0, 0, 2]);
    assert_eq!(tags[4], vec![0x80, 0, 0, 3]);
    assert_eq!(tags[5], vec![0x80, 0, 0, 4]);
    assert_eq!(tags[7], vec![0x80, 0, 0, 5]);
    assert_eq!(tags[8], vec![0x80, 0, 0, 6]);
    assert_eq!(tags[9], vec![0x80, 0, 0, 7]);
    assert_eq!(tags[10], vec![0x80, 0, 0, 8]);
}

#[test]
fn alive_is_its_tag_the_request_id_and_the_pid() {
    let response = MuxResponse::Alive(Alive { client_request_id: 1, server_pid: 4242 });
    assert_eq!(wire(&response), vec![0x80, 0, 0, 5, 0, 0, 0, 1, 0, 0, 0x10, 0x92]);
}

#[test]
fn exit_message_carries_the_session_and_the_exit_value() {
    let bytes = [0x80u8, 0, 0, 4, 0, 0, 0, 7, 0, 0, 0, 3];
    assert_eq!(
        MuxResponse::parse(&bytes),
        Ok((&[][..], MuxResponse::ExitMessage(ExitMessage { session_id: 7, exit_value: 3 })))
    );
}

#[test]
fn permission_denied_carries_the_reason() {
    let response =
        PermissionDenied { client_request_id: 2, reason: String::from("policy") };
    assert_eq!(
        wire(&response),
        vec![0, 0, 0, 2, 0, 0, 0, 6, b'p', b'o', b'l', b'i', b'c', b'y']
    );
}

#[test]
fn new_session_is_laid_out_field_by_field() {
    let request = NewSession {
        request_id: 2,
        want_tty: true,
        want_x11_forwarding: false,
        want_agent: false,
        subsystem: false,
        escape_char: 0x7e,
        terminal_type: String::from("vt"),
        command: String::from("id"),
        environment: vec![String::from("A=b")],
    };
    let expected: Vec<u8> = [
        &[0u8, 0, 0, 2][..], // request id
        &[0, 0, 0, 0],       // reserved text, empty
        &[0, 0, 0, 1],       // terminal wanted
        &[0, 0, 0, 0],       // no X11 forwarding
        &[0, 0, 0, 0],       // no agent
        &[0, 0, 0, 0],       // no subsystem
        &[0, 0, 0, 0x7e],    // escape character
        &[0, 0, 0, 2, b'v', b't'],
        &[0, 0, 0, 2, b'i', b'd'],
        &[0, 0, 0, 3, b'A', b'=', b'b'],
        &[0], // end of the environment
    ]
    .concat();
    assert_eq!(wire(&request), expected);
    assert_eq!(NewSession::parse(&expected), Ok((&[][..], request)));
}

#[test]
fn new_session_with_no_environment_ends_with_the_zero_byte() {
    let bytes = wire(&session(1, vec![]));
    assert_eq!(bytes.last(), Some(&0));
    assert_eq!(NewSession::parse(&bytes), Ok((&[][..], session(1, vec![]))));
}

#[test]
fn new_session_without_its_end_is_incomplete() {
    let mut bytes = wire(&session(1, vec!["A=b"]));
    bytes.pop();
    assert_eq!(NewSession::parse(&bytes), Err(ParseError::Incomplete(Needed::Size(1))));
}

#[test]
fn new_session_with_another_end_is_invalid() {
    let mut bytes = wire(&session(1, vec!["A=b"]));
    let last = bytes.len() - 1;
    bytes[last] = 1;
    assert_eq!(
        NewSession::parse(&bytes),
        Err(trail(vec![
            (&[1], VerboseErrorKind::Code(ErrorKind::Tag)),
            (&bytes, VerboseErrorKind::Context("NewSession")),
        ]))
    );
}

#[test]
fn reserved_text_is_tolerated_and_dropped() {
    let mut bytes = vec![0u8, 0, 0, 9];
    String::from("future").serialize(&mut bytes);
    String::from("host").serialize(&mut bytes);
    ListenType::Inet(22).serialize(&mut bytes);
    let expected =
        NewStdioFwd { request_id: 9, connect_host: String::from("host"), connect_port: ListenType::Inet(22) };
    assert_eq!(NewStdioFwd::parse(&bytes), Ok((&[][..], expected.clone())));
    // What is sent again has the reserved text empty.
    assert_eq!(&wire(&expected)[4..8], &[0, 0, 0, 0]);
}

#[test]
fn forwarding_types_are_one_two_three() {
    assert_eq!(wire(&ForwardingType::Local), vec![0, 0, 0, 1]);
    assert_eq!(wire(&ForwardingType::Remote), vec![0, 0, 0, 2]);
    assert_eq!(wire(&ForwardingType::Dynamic), vec![0, 0, 0, 3]);
    assert_eq!(ForwardingType::parse(&[0, 0, 0, 3, 9]), Ok((&[9u8][..], ForwardingType::Dynamic)));
}

#[test]
fn unknown_forwarding_type_is_invalid() {
    for bad in [[0u8, 0, 0, 0], [0, 0, 0, 4], [255, 255, 255, 255]] {
        assert_eq!(
            ForwardingType::parse(&bad),
            Err(trail(vec![
                (&bad, VerboseErrorKind::Code(ErrorKind::MapOpt)),
                (&bad, VerboseErrorKind::Context("ForwardingType")),
            ]))
        );
    }
}

#[test]
fn port_is_a_sixteen_bit_number_or_the_unix_marker() {
    assert_eq!(wire(&ListenType::Inet(8080)), vec![0, 0, 0x1f, 0x90]);
    assert_eq!(wire(&ListenType::Unix), vec![0xff, 0xff, 0xff, 0xfe]);
    assert_eq!(ListenType::parse(&[0, 0, 0xff, 0xff]), Ok((&[][..], ListenType::Inet(65_535))));
    assert_eq!(ListenType::parse(&[0, 0, 0, 0]), Ok((&[][..], ListenType::Inet(0))));
    assert_eq!(ListenType::parse(&[0xff, 0xff, 0xff, 0xfe]), Ok((&[][..], ListenType::Unix)));
}

#[test]
fn port_beyond_sixteen_bits_is_invalid() {
    for bad in [[0u8, 1, 0, 0], [0xff, 0xff, 0xff, 0xff], [0xff, 0xff, 0xff, 0xfd]] {
        assert_eq!(
            ListenType::parse(&bad),
            Err(trail(vec![
                (&bad, VerboseErrorKind::Code(ErrorKind::MapOpt)),
                (&bad, VerboseErrorKind::Context("ListenType")),
            ]))
        );
    }
}

#[test]
fn failure_inside_a_message_names_every_structure_around_it() {
    // An open-forward whose listen host is not UTF-8.
    let mut bytes = vec![0x10u8, 0, 0, 6, 0, 0, 0, 1, 0, 0, 0, 1];
    let host_at = bytes.len();
    bytes.extend_from_slice(&[0, 0, 0, 1, 0xff, 0, 0, 0, 22]);
    assert_eq!(
        MuxMessage::parse(&bytes),
        Err(trail(vec![
            (&[0xff], VerboseErrorKind::Code(ErrorKind::MapOpt)),
            (&bytes[host_at..], VerboseErrorKind::Context("string")),
            (&bytes[4..], VerboseErrorKind::Context("OpenFwd")),
        ]))
    );
}

#[test]
fn unknown_request_tag_is_invalid() {
    for tag in [[0u8, 0, 0, 0], [0x10, 0, 0, 1], [0x10, 0, 0, 3], [0x10, 0, 0, 10], [0x80, 0, 0, 1]] {
        let mut bytes = tag.to_vec();
        bytes.extend_from_slice(&[0, 0, 0, 1]);
        assert_eq!(
            MuxMessage::parse(&bytes),
            Err(trail(vec![
                (&bytes, VerboseErrorKind::Code(ErrorKind::Verify)),
                (&bytes, VerboseErrorKind::Context("MuxMessage")),
            ]))
        );
    }
}

#[test]
fn unknown_response_tag_is_invalid() {
    for tag in [[0u8, 0, 0, 0], [0x80, 0, 0, 0], [0x80, 0, 0, 9], [0x10, 0, 0, 4], [255, 255, 255, 255]] {
        let mut bytes = tag.to_vec();
        bytes.extend_from_slice(&[0, 0, 0, 1, 0, 0, 0, 2]);
        assert_eq!(
            MuxResponse::parse(&bytes),
            Err(trail(vec![
                (&bytes, VerboseErrorKind::Code(ErrorKind::Verify)),
                (&bytes, VerboseErrorKind::Context("MuxResponse")),
            ]))
        );
    }
}

#[test]
fn request_id_is_read_and_set() {
    for mut request in every_request() {
        request.set_request_id(0xdead_beef);
        assert_eq!(request.get_request_id(), 0xdead_beef);
        let bytes = wire(&request);
        assert_eq!(&bytes[4..8], &[0xde, 0xad, 0xbe, 0xef]);
    }
    let mut request = MuxMessage::OpenFwd(forwarding(1));
    request.set_request_id(2);
    assert_eq!(request, MuxMessage::OpenFwd(forwarding(2)));
}

#[test]
fn notifications_carry_no_request_id() {
    let ids: Vec<Option<u32>> = every_response().iter().map(|r| r.get_request_id()).collect();
    assert_eq!(
        ids,
        vec![
            Some(0),
            Some(u32::MAX),
            Some(2),
            Some(0),
            Some(3),
            None,
            None,
            Some(1),
            Some(2),
            Some(4),
            None
        ]
    );
}

#[test]
fn into_owned_gives_the_same_message() {
    for request in every_request() {
        assert_eq!(request.clone().into_owned(), request);
    }
    assert_eq!(session(1, vec!["A=b"]).into_owned(), session(1, vec!["A=b"]));
    assert_eq!(forwarding(3).into_owned(), forwarding(3));
    let alive = Alive { client_request_id: 1, server_pid: 2 };
    assert_eq!(alive.into_owned(), alive);
    let exit = ExitMessage { session_id: 1, exit_value: 2 };
    assert_eq!(exit.into_owned(), exit);
    let ok = OkResponse { client_request_id: 1 };
    assert_eq!(ok.into_owned(), ok);
    let port = RemotePort { client_request_id: 1, allocated_remote_listen_port: 2 };
    assert_eq!(port.into_owned(), port);
    let opened = SessionOpened { client_request_id: 1, session_id: 2 };
    assert_eq!(opened.into_owned(), opened);
    let tty = TtyAllocFail { session_id: 1 };
    assert_eq!(tty.into_owned(), tty);
    let stop = StopListening { request_id: 1 };
    assert_eq!(stop.into_owned(), stop);
    let terminate = Terminate { request_id: 1 };
    assert_eq!(terminate.into_owned(), terminate);
    let check = AliveCheck { request_id: 1 };
    assert_eq!(check.into_owned(), check);
}

#[test]
fn handshake_is_one_the_version_and_the_extensions() {
    let hello = Hello { version: 4, extensions: vec![] };
    assert_eq!(wire(&hello), vec![0, 0, 0, 1, 0, 0, 0, 4]);
    let hello = Hello {
        version: 4,
        extensions: vec![Extension { name: String::from("a"), value: String::from("bc") }],
    };
    assert_eq!(
        wire(&hello),
        vec![0, 0, 0, 1, 0, 0, 0, 4, 0, 0, 0, 1, b'a', 0, 0, 0, 2, b'b', b'c']
    );
}

#[test]
fn handshake_round_trips_with_and_without_extensions() {
    let extension = |n: &str, v: &str| Extension { name: String::from(n), value: String::from(v) };
    for hello in [
        Hello { version: 4, extensions: vec![] },
        Hello { version: 0, extensions: vec![extension("", "")] },
        Hello {
            version: u32::MAX,
            extensions: vec![extension("name", "value"), extension("ünï", ""), extension("", "x")],
        },
    ] {
        let bytes = wire(&hello);
        assert_eq!(Hello::parse(&bytes), Ok((&[][..], hello)));
    }
}

#[test]
fn handshake_must_open_with_one() {
    let bytes = [0u8, 0, 0, 2, 0, 0, 0, 4];
    assert_eq!(
        Hello::parse(&bytes),
        Err(trail(vec![
            (&bytes, VerboseErrorKind::Code(ErrorKind::Verify)),
            (&bytes, VerboseErrorKind::Context("Hello")),
        ]))
    );
    assert_eq!(Hello::parse(&[0, 0, 0, 1, 0, 0]), Err(ParseError::Incomplete(Needed::Size(2))));
}

#[test]
fn handshake_stops_before_an_invalid_extension() {
    let mut bytes = vec![0u8, 0, 0, 1, 0, 0, 0, 4];
    bytes.extend_from_slice(&[0, 0, 0, 1, 0xff, 0, 0, 0, 0]);
    let expected = Hello { version: 4, extensions: vec![] };
    assert_eq!(Hello::parse(&bytes), Ok((&bytes[8..], expected)));
}

#[test]
fn extension_is_its_name_then_its_value() {
    let extension = Extension { name: String::from("k"), value: String::from("v") };
    let bytes = wire(&extension);
    assert_eq!(bytes, vec![0, 0, 0, 1, b'k', 0, 0, 0, 1, b'v']);
    assert_eq!(Extension::parse(&bytes), Ok((&[][..], extension)));
    let bad = [0u8, 0, 0, 1, b'k', 0, 0, 0, 1, 0x80];
    assert_eq!(
        Extension::parse(&bad),
        Err(trail(vec![
            (&[0x80], VerboseErrorKind::Code(ErrorKind::MapOpt)),
            (&bad[5..], VerboseErrorKind::Context("string")),
            (&bad, VerboseErrorKind::Context("Extension")),
        ]))
    );
}

#[test]
fn bodies_become_messages() {
    let check = AliveCheck { request_id: 1 };
    assert_eq!(MuxMessage::from(check), MuxMessage::AliveCheck(check));
    let request: MuxMessage = session(1, vec!["A=b"]).into();
    assert_eq!(request, MuxMessage::NewSession(session(1, vec!["A=b"])));
    let request: MuxMessage = forwarding(2).into();
    assert_eq!(request, MuxMessage::OpenFwd(forwarding(2)));
    let request: MuxMessage = Terminate { request_id: 3 }.into();
    assert_eq!(request.get_request_id(), 3);
    let request: MuxMessage = StopListening { request_id: 4 }.into();
    assert_eq!(request, MuxMessage::StopListening(StopListening { request_id: 4 }));

    let alive = Alive { client_request_id: 1, server_pid: 2 };
    assert_eq!(MuxResponse::from(alive), MuxResponse::Alive(alive));
    let response: MuxResponse = OkResponse { client_request_id: 1 }.into();
    assert_eq!(response.get_request_id(), Some(1));
    let response: MuxResponse = TtyAllocFail { session_id: 1 }.into();
    assert_eq!(response.get_request_id(), None);
    let response: MuxResponse =
        Failure { client_request_id: 5, reason: String::from("r") }.into();
    assert_eq!(response.name(), "Failure");
}
