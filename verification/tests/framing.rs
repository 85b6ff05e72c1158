use ssh_control::client::{AliveCheck, NewSession};
use ssh_control::error::{ErrorKind, Needed, ParseError, RawBytes, VerboseError, VerboseErrorKind};
use ssh_control::server::{Alive, ExitMessage, Failure};
use ssh_control::{Error, Hello, MuxMessage, MuxResponse, Packet, Wire};

fn framed<T: Wire>(value: &T) -> Vec<u8> {
    let mut packet = Packet::from(Vec::new());
    packet.set(value);
    packet.as_slice().to_vec()
}

fn parsing(entries: Vec<(&[u8], VerboseErrorKind)>) -> Error {
    Error::Parsing(VerboseError {
        errors: entries
            .into_iter()
            .map(|(input, kind)| (RawBytes(input.to_vec()), kind))
            .collect(),
    })
}

#[test]
fn frame_is_the_byte_count_then_the_payload() {
    let request = MuxMessage::AliveCheck(AliveCheck { request_id: 1 });
    assert_eq!(framed(&request), vec![0, 0, 0, 8, 0x10, 0, 0, 4, 0, 0, 0, 1]);
    let hello = Hello { version: 4, extensions: vec![] };
    assert_eq!(framed(&hello), vec![0, 0, 0, 8, 0, 0, 0, 1, 0, 0, 0, 4]);
}

#[test]
fn packet_is_refilled_by_every_set() {
    let mut packet = Packet::from(vec![1, 2, 3]);
    assert_eq!(packet.as_slice(), &[1, 2, 3]);
    packet.set(&7u32);
    assert_eq!(packet.as_slice(), &[0, 0, 0, 4, 0, 0, 0, 7]);
    packet.set(&String::new());
    assert_eq!(packet.as_slice(), &[0, 0, 0, 4, 0, 0, 0, 0]);
    packet.set(&String::from("abc"));
    assert_eq!(packet.as_slice(), &[0, 0, 0, 7, 0, 0, 0, 3, b'a', b'b', b'c']);
}

#[test]
fn packet_writes_what_it_holds() {
    let mut packet = Packet::from(Vec::new());
    packet.set(&true);
    let mut out = vec![0xaa];
    packet.serialize(&mut out);
    assert_eq!(out, vec![0xaa, 0, 0, 0, 4, 0, 0, 0, 1]);
}

#[test]
fn what_is_sent_is_what_is_received() {
    let responses = vec![
        MuxResponse::Alive(Alive { client_request_id: 1, server_pid: 4242 }),
        MuxResponse::Failure(Failure { client_request_id: 0, reason: String::from("no") }),
        MuxResponse::ExitMessage(ExitMessage { session_id: 7, exit_value: 0 }),
    ];
    let mut packet = Packet::from(Vec::new());
    for response in responses {
        let stream = framed(&response);
        assert_eq!(packet.recv_next::<MuxResponse>(&stream).unwrap(), (&[][..], response));
    }
    let session = NewSession {
        request_id: 2,
        want_tty: false,
        want_x11_forwarding: false,
        want_agent: false,
        subsystem: false,
        escape_char: 0x7e,
        terminal_type: String::from("xterm"),
        command: String::from("id"),
        environment: vec![String::from("LANG=C"), String::from("TERM=vt100")],
    };
    let request = MuxMessage::NewSession(session);
    let stream = framed(&request);
    assert_eq!(packet.recv_next::<MuxMessage>(&stream).unwrap(), (&[][..], request));
}

#[test]
fn one_frame_is_taken_and_the_stream_behind_it_left() {
    let first = MuxResponse::Alive(Alive { client_request_id: 1, server_pid: 2 });
    let second = MuxResponse::ExitMessage(ExitMessage { session_id: 3, exit_value: 4 });
    let mut stream = framed(&first);
    let first_len = stream.len();
    stream.extend_from_slice(&framed(&second));
    let mut packet = Packet::from(Vec::new());
    let (rest, got) = packet.recv_next::<MuxResponse>(&stream).unwrap();
    assert_eq!(got, first);
    assert_eq!(rest, &stream[first_len..]);
    let (rest, got) = packet.recv_next::<MuxResponse>(rest).unwrap();
    assert_eq!(got, second);
    assert!(rest.is_empty());
}

#[test]
fn packet_holds_the_payload_after_receiving() {
    let mut packet = Packet::from(vec![9, 9]);
    let rest = packet.recv(&[0, 0, 0, 2, 0xab, 0xcd, 0xef]).unwrap();
    assert_eq!(rest, &[0xef]);
    assert_eq!(packet.as_slice(), &[0xab, 0xcd]);
    let (rest, parsed) = Packet::parse(&[0, 0, 0, 0]).unwrap();
    assert!(rest.is_empty());
    assert!(parsed.as_slice().is_empty());
}

#[test]
fn truncated_frame_is_incomplete_by_what_is_missing() {
    let stream = framed(&MuxResponse::Alive(Alive { client_request_id: 1, server_pid: 2 }));
    assert_eq!(stream.len(), 16);
    let mut packet = Packet::from(vec![1]);
    for cut in 0..stream.len() {
        let missing = if cut < 4 { 4 - cut } else { stream.len() - cut };
        assert_eq!(
            packet.recv_next::<MuxResponse>(&stream[..cut]),
            Err(Error::Incomplete(Needed::Size(missing)))
        );
        assert_eq!(Packet::missing(&stream[..cut]), missing);
        assert_eq!(packet.recv(&stream[..cut]), Err(ParseError::Incomplete(Needed::Size(missing))));
        assert!(packet.as_slice().is_empty());
    }
    assert_eq!(Packet::missing(&stream), 0);
}

#[test]
fn declared_length_beyond_the_stream_is_incomplete() {
    let mut packet = Packet::from(Vec::new());
    assert_eq!(
        packet.recv_next::<MuxResponse>(&[0xff, 0xff, 0xff, 0xff, 1, 2, 3]),
        Err(Error::Incomplete(Needed::Size(u32::MAX as usize - 3)))
    );
    assert_eq!(Packet::missing(&[0, 0, 1, 0]), 256);
}

#[test]
fn payload_shorter_than_its_message_is_incomplete() {
    // The frame is whole, the message in it is not.
    let stream = [0u8, 0, 0, 6, 0x80, 0, 0, 5, 0, 0];
    let mut packet = Packet::from(Vec::new());
    assert_eq!(
        packet.recv_next::<MuxResponse>(&stream),
        Err(Error::Incomplete(Needed::Size(2)))
    );
}

#[test]
fn bytes_left_in_the_payload_are_an_error() {
    let stream = [0u8, 0, 0, 14, 0x80, 0, 0, 5, 0, 0, 0, 1, 0, 0, 0, 2, 0xaa, 0xbb];
    let mut packet = Packet::from(Vec::new());
    assert_eq!(
        packet.recv_next::<MuxResponse>(&stream),
        Err(parsing(vec![(&[0xaa, 0xbb], VerboseErrorKind::Code(ErrorKind::Eof))]))
    );
}

#[test]
fn unknown_tag_in_a_frame_is_a_parsing_error() {
    let stream = [0u8, 0, 0, 8, 0x80, 0, 0, 0x63, 0, 0, 0, 1];
    let mut packet = Packet::from(Vec::new());
    assert_eq!(
        packet.recv_next::<MuxResponse>(&stream),
        Err(parsing(vec![
            (&stream[4..], VerboseErrorKind::Code(ErrorKind::Verify)),
            (&stream[4..], VerboseErrorKind::Context("MuxResponse")),
        ]))
    );
    assert_eq!(
        packet.recv_next::<MuxMessage>(&stream),
        Err(parsing(vec![
            (&stream[4..], VerboseErrorKind::Code(ErrorKind::Verify)),
            (&stream[4..], VerboseErrorKind::Context("MuxMessage")),
        ]))
    );
}

#[test]
fn decoding_failure_becomes_the_callers_failure() {
    assert_eq!(
        Error::from_parse(ParseError::Incomplete(Needed::Size(3))),
        Error::Incomplete(Needed::Size(3))
    );
    let trail = VerboseError::from_error_kind(&[1, 2], ErrorKind::Tag).add_context(&[0, 1, 2], "X");
    assert_eq!(
        trail.errors,
        vec![
            (RawBytes(vec![1, 2]), VerboseErrorKind::Code(ErrorKind::Tag)),
            (RawBytes(vec![0, 1, 2]), VerboseErrorKind::Context("X")),
        ]
    );
    assert_eq!(Error::from_parse(ParseError::Error(trail.clone())), Error::Parsing(trail));
}
