//! The request/response correlation engine.
//!
//! The engine owns no socket. It says which bytes to transmit and what
//! the bytes that came back mean; whoever owns the socket moves them.

use vstd::prelude::*;
use crate::command::{Child, SshCommand};
use crate::error::{Error, ErrorView};
use crate::protocol::client::{
    AliveCheck,
    ListenType,
    MuxMessage,
    MuxMessageView,
    NewStdioFwd,
    NewStdioFwdView,
};
use crate::protocol::server::{MuxResponse, MuxResponseView};
use crate::protocol::utils::{lemma_u32_be_round_trip, u32_to_be};
use crate::protocol::{
    frame,
    lemma_frame_integrity,
    receive,
    received,
    Hello,
    HelloView,
    Packet,
    Wire,
};

verus! {

/// The version of the protocol that this client speaks.
pub const VERSION: u32 = 4;

/// Where a control connection stands.
#[derive(Clone, Copy, Debug, PartialEq, Eq, Structural)]
pub enum State {
    /// Connected; the handshake is not done.
    Handshaking,
    /// Idle: no request is outstanding.
    Ready,
    /// One request is outstanding.
    AwaitingResponse,
    /// The protocol was violated or the transport failed: the connection
    /// is not to be used again.
    Faulted,
}

/// The state of one control connection, without its socket.
#[derive(Debug)]
pub struct SshControl {
    buffer: Packet,
    request_id: u32,
    expected_request_id: Option<u32>,
    handshaken: bool,
    faulted: bool,
}

/// The mathematical value of an [`SshControl`].
pub struct SshControlView {
    /// Where the connection stands.
    pub state: State,
    /// The id given to the last request.
    pub request_id: u32,
    /// The id of the outstanding request, if there is one.
    pub expected_request_id: Option<u32>,
    /// The bytes in the frame buffer.
    pub buffer: Seq<u8>,
}

impl View for SshControl {
    type V = SshControlView;

    closed spec fn view(&self) -> SshControlView {
        SshControlView {
            state: if self.faulted {
                State::Faulted
            } else if !self.handshaken {
                State::Handshaking
            } else if self.expected_request_id is Some {
                State::AwaitingResponse
            } else {
                State::Ready
            },
            request_id: self.request_id,
            expected_request_id: if self.faulted || !self.handshaken {
                None
            } else {
                self.expected_request_id
            },
            buffer: self.buffer@,
        }
    }
}

/// The id that follows `id`: one more, and zero after the largest.
pub open spec fn next_request_id(id: u32) -> u32 {
    if id == u32::MAX {
        0
    } else {
        (id + 1) as u32
    }
}

/// The handshake that this client sends.
pub open spec fn own_hello() -> HelloView {
    HelloView { version: VERSION, extensions: Seq::empty() }
}

/// What the peer's handshake means.
pub open spec fn hello_outcome(stream: Seq<u8>) -> core::result::Result<
    (Seq<u8>, HelloView),
    ErrorView,
> {
    match receive(stream, |s: Seq<u8>| HelloView::decode(s)) {
        Err(e) => Err(e),
        Ok((rest, hello)) => if hello.version == VERSION {
            Ok((rest, hello))
        } else {
            Err(ErrorView::UnsupportedVersion(hello.version))
        },
    }
}

/// What a message of the peer means while `expected` is the id of the
/// outstanding request, if there is one. A message that answers a request
/// must answer that one; a notification answers none and is taken as it
/// comes.
pub open spec fn correlate(expected: Option<u32>, response: MuxResponseView) -> core::result::Result<
    MuxResponseView,
    ErrorView,
> {
    match response.request_id() {
        None => Ok(response),
        Some(id) => if expected == Some(id) {
            Ok(response)
        } else {
            Err(ErrorView::InvalidResponseID { expected, received: Some(id) })
        },
    }
}

/// What the bytes of the peer mean while `expected` is the id of the
/// outstanding request, if there is one.
pub open spec fn response_outcome(expected: Option<u32>, stream: Seq<u8>) -> core::result::Result<
    (Seq<u8>, MuxResponseView),
    ErrorView,
> {
    match receive(stream, |s: Seq<u8>| MuxResponseView::decode(s)) {
        Err(e) => Err(e),
        Ok((rest, response)) => match correlate(expected, response) {
            Err(e) => Err(e),
            Ok(response) => Ok((rest, response)),
        },
    }
}

/// What the bytes of the peer mean to a liveness check: the process id of
/// the peer, or the failure that its message is.
pub open spec fn alive_outcome(expected: Option<u32>, stream: Seq<u8>) -> core::result::Result<
    (Seq<u8>, u32),
    ErrorView,
> {
    match response_outcome(expected, stream) {
        Err(e) => Err(e),
        Ok((rest, MuxResponseView::Alive(body))) => Ok((rest, body.server_pid)),
        Ok((_, other)) => Err(other.rejection(false)),
    }
}

/// What the bytes of the peer mean to a request that opens a session: the
/// id of the session, or the failure that the peer's message is.
pub open spec fn session_outcome(expected: Option<u32>, stream: Seq<u8>) -> core::result::Result<
    (Seq<u8>, u32),
    ErrorView,
> {
    match response_outcome(expected, stream) {
        Err(e) => Err(e),
        Ok((rest, MuxResponseView::SessionOpened(body))) => Ok((rest, body.session_id)),
        Ok((_, other)) => Err(other.rejection(true)),
    }
}

/// What the bytes of the peer mean to who waits for the end of `session`:
/// whether it is that session that ended, or the failure that the peer's
/// message is.
pub open spec fn wait_outcome(
    expected: Option<u32>,
    session: u32,
    stream: Seq<u8>,
) -> core::result::Result<(Seq<u8>, bool), ErrorView> {
    match response_outcome(expected, stream) {
        Err(e) => Err(e),
        Ok((rest, MuxResponseView::ExitMessage(body))) => Ok((rest, body.session_id == session)),
        Ok((_, other)) => Err(other.rejection(true)),
    }
}

/// What was decided together with the stream that was left, as the
/// mathematical outcome that contracts speak of.
pub open spec fn decided<T>(r: core::result::Result<(&[u8], T), Error>) -> core::result::Result<
    (Seq<u8>, T),
    ErrorView,
> {
    match r {
        Ok((rest, value)) => Ok((rest@, value)),
        Err(e) => Err(e@),
    }
}

impl SshControlView {
    /// An outstanding request is what awaiting a response means.
    pub open spec fn wf(self) -> bool {
        self.state == State::AwaitingResponse <==> self.expected_request_id is Some
    }

    /// The connection after a message of the peer was received with
    /// `outcome`: a failure faults it, the answer to the outstanding
    /// request makes it ready, a notification changes nothing.
    pub open spec fn after_response(
        self,
        outcome: core::result::Result<(Seq<u8>, MuxResponseView), ErrorView>,
    ) -> (State, Option<u32>) {
        match outcome {
            Err(_) => (State::Faulted, None),
            Ok((_, response)) => if response.request_id() is Some {
                (State::Ready, None)
            } else {
                (self.state, self.expected_request_id)
            },
        }
    }

    /// The connection after `stream` was received.
    pub open spec fn after(self, stream: Seq<u8>) -> (State, Option<u32>) {
        self.after_response(response_outcome(self.expected_request_id, stream))
    }

    /// The connection after `stream` was received by an exchange that
    /// made `outcome` of it. An answer of another kind than the exchange
    /// awaits violates the protocol and faults the connection; a
    /// notification out of place is a failure of the exchange alone.
    pub open spec fn after_exchange<T>(
        self,
        stream: Seq<u8>,
        outcome: core::result::Result<(Seq<u8>, T), ErrorView>,
    ) -> (State, Option<u32>) {
        match response_outcome(self.expected_request_id, stream) {
            Ok((_, response)) => if response.request_id() is Some && outcome matches Err(
                ErrorView::InvalidPacket { .. },
            ) {
                (State::Faulted, None)
            } else {
                self.after(stream)
            },
            Err(_) => self.after(stream),
        }
    }
}

/// The request that asks to connect the standard streams to `host` and
/// `port`.
pub open spec fn stdio_forward_request(host: Seq<char>, port: ListenType) -> MuxMessageView {
    MuxMessageView::NewStdioFwd(
        NewStdioFwdView { request_id: 0, connect_host: host, connect_port: port },
    )
}

impl SshControl {
    /// A request is outstanding exactly while a response is awaited.
    pub proof fn lemma_wf(&self)
        ensures
            self@.wf(),
    {
    }

    /// The engine of a connection that was just opened.
    pub fn new() -> (control: SshControl)
        ensures
            control@.state == State::Handshaking,
            control@.request_id == 0,
            control@.expected_request_id is None,
            control@.buffer == Seq::<u8>::empty(),
    {
        SshControl {
            buffer: Packet::from(Vec::with_capacity(1024)),
            request_id: 0,
            expected_request_id: None,
            handshaken: false,
            faulted: false,
        }
    }

    /// Where the connection stands.
    pub fn state(&self) -> (state: State)
        ensures
            state == self@.state,
    {
        if self.faulted {
            State::Faulted
        } else if !self.handshaken {
            State::Handshaking
        } else if self.expected_request_id.is_some() {
            State::AwaitingResponse
        } else {
            State::Ready
        }
    }

    /// The id of the outstanding request, if there is one.
    pub fn expected_request_id(&self) -> (id: Option<u32>)
        ensures
            id == self@.expected_request_id,
    {
        if self.faulted || !self.handshaken {
            None
        } else {
            self.expected_request_id
        }
    }

    /// The bytes in the frame buffer: after a send, the frame to transmit.
    pub fn frame(&self) -> (bytes: &[u8])
        ensures
            bytes@ == self@.buffer,
    {
        self.buffer.as_slice()
    }

    /// Marks the connection as unusable, as after a failure of the
    /// transport.
    pub fn fail(&mut self)
        ensures
            final(self)@.state == State::Faulted,
            final(self)@.expected_request_id is None,
            final(self)@.request_id == old(self)@.request_id,
            final(self)@.buffer == old(self)@.buffer,
    {
        self.faulted = true;
    }

    /// Puts this client's handshake into the frame buffer.
    pub fn send_hello(&mut self)
        requires
            old(self)@.state == State::Handshaking,
        ensures
            final(self)@.buffer == frame(own_hello().encode()),
            final(self)@.state == State::Handshaking,
            final(self)@.request_id == old(self)@.request_id,
            final(self)@.expected_request_id == old(self)@.expected_request_id,
    {
        let hello = Hello { version: VERSION, extensions: Vec::new() };
        proof {
            lemma_u32_be_round_trip(crate::protocol::MUX_HELLO);
            lemma_u32_be_round_trip(VERSION);
            assert(hello@.extensions =~= Seq::empty());
            assert(crate::protocol::wire_extensions(Seq::empty()) =~= Seq::<u8>::empty());
        }
        self.buffer.set(&hello);
    }

    /// Takes the peer's handshake from `stream`. The connection is ready
    /// if the peer speaks this client's version, and faulted if it speaks
    /// another or its handshake cannot be decoded.
    pub fn recv_hello<'a>(&mut self, stream: &'a [u8]) -> (r: core::result::Result<
        (&'a [u8], Hello),
        Error,
    >)
        requires
            old(self)@.state == State::Handshaking,
        ensures
            received(r) == hello_outcome(stream@),
            final(self)@.state == if r is Ok {
                State::Ready
            } else {
                State::Faulted
            },
            final(self)@.expected_request_id is None,
            final(self)@.request_id == old(self)@.request_id,
    {
        proof {
            let by_trait = |s: Seq<u8>| Hello::spec_parse(s);
            let by_name = |s: Seq<u8>| HelloView::decode(s);
            assert(by_trait =~= by_name);
        }
        match self.buffer.recv_next::<Hello>(stream) {
            Err(e) => {
                self.faulted = true;
                Err(e)
            },
            Ok((rest, hello)) => {
                if hello.version != VERSION {
                    self.faulted = true;
                    Err(Error::UnsupportedVersion(hello.version))
                } else {
                    self.expected_request_id = None;
                    self.handshaken = true;
                    Ok((rest, hello))
                }
            },
        }
    }

    /// Gives `msg` the next request id, records it as outstanding and puts
    /// the frame of the request into the frame buffer.
    pub fn send(&mut self, msg: MuxMessage)
        requires
            old(self)@.state == State::Ready,
            msg@.with_request_id(next_request_id(old(self)@.request_id)).encode().len()
                <= u32::MAX,
        ensures
            final(self)@.request_id == next_request_id(old(self)@.request_id),
            final(self)@.expected_request_id == Some(final(self)@.request_id),
            final(self)@.state == State::AwaitingResponse,
            final(self)@.buffer == frame(
                msg@.with_request_id(final(self)@.request_id).encode(),
            ),
    {
        let mut msg = msg;
        let request_id: u32 = self.request_id.wrapping_add(1);
        msg.set_request_id(request_id);
        self.buffer.set(&msg);
        self.request_id = request_id;
        self.expected_request_id = Some(request_id);
    }

    /// Takes one message of the peer from `stream`. An answer must carry
    /// the id of the outstanding request: it makes the connection ready,
    /// and any other id faults it. A notification carries no id and
    /// changes nothing. Bytes that cannot be decoded fault the connection.
    pub fn recv<'a>(&mut self, stream: &'a [u8]) -> (r: core::result::Result<
        (&'a [u8], MuxResponse),
        Error,
    >)
        requires
            old(self)@.state == State::Ready || old(self)@.state == State::AwaitingResponse,
        ensures
            received(r) == response_outcome(old(self)@.expected_request_id, stream@),
            (final(self)@.state, final(self)@.expected_request_id) == old(self)@.after_response(
                received(r),
            ),
            final(self)@.request_id == old(self)@.request_id,
    {
        proof {
            let by_trait = |s: Seq<u8>| MuxResponse::spec_parse(s);
            let by_name = |s: Seq<u8>| MuxResponseView::decode(s);
            assert(by_trait =~= by_name);
        }
        match self.buffer.recv_next::<MuxResponse>(stream) {
            Err(e) => {
                self.faulted = true;
                Err(e)
            },
            Ok((rest, response)) => {
                match response.get_request_id() {
                    None => Ok((rest, response)),
                    Some(id) => {
                        let expected = self.expected_request_id;
                        self.expected_request_id = None;
                        if expected == Some(id) {
                            Ok((rest, response))
                        } else {
                            self.faulted = true;
                            Err(Error::InvalidResponseID { expected, received: Some(id) })
                        }
                    },
                }
            },
        }
    }

    /// Takes note of the failure `e` of an exchange to find the message
    /// that it awaits: if the message was an answer and of another kind,
    /// the connection is faulted.
    fn out_of_place(&mut self, answer: bool, e: Error) -> (same: Error)
        ensures
            same == e,
            final(self)@.request_id == old(self)@.request_id,
            final(self)@.buffer == old(self)@.buffer,
            (final(self)@.state, final(self)@.expected_request_id) == if answer && e@ matches ErrorView::InvalidPacket {
                ..
            } {
                (State::Faulted, None::<u32>)
            } else {
                (old(self)@.state, old(self)@.expected_request_id)
            },
    {
        if answer {
            if let Error::InvalidPacket { .. } = &e {
                self.faulted = true;
            }
        }
        e
    }

    /// Puts a liveness check into the frame buffer, as [`Self::send`] does
    /// with any request.
    pub fn check_alive(&mut self)
        requires
            old(self)@.state == State::Ready,
        ensures
            final(self)@.request_id == next_request_id(old(self)@.request_id),
            final(self)@.expected_request_id == Some(final(self)@.request_id),
            final(self)@.state == State::AwaitingResponse,
            final(self)@.buffer == frame(
                MuxMessageView::AliveCheck(
                    AliveCheck { request_id: final(self)@.request_id },
                ).encode(),
            ),
    {
        proof {
            lemma_u32_be_round_trip(crate::protocol::client::ALIVE_CHECK);
            lemma_u32_be_round_trip(next_request_id(self@.request_id));
        }
        self.send(MuxMessage::AliveCheck(AliveCheck { request_id: 0 }));
    }

    /// Takes the answer to a liveness check from `stream`: the process id
    /// of the peer.
    pub fn check_alive_reply<'a>(&mut self, stream: &'a [u8]) -> (r: core::result::Result<
        (&'a [u8], u32),
        Error,
    >)
        requires
            old(self)@.state == State::Ready || old(self)@.state == State::AwaitingResponse,
        ensures
            decided(r) == alive_outcome(old(self)@.expected_request_id, stream@),
            (final(self)@.state, final(self)@.expected_request_id) == old(self)@.after_exchange(
                stream@,
                decided(r),
            ),
            final(self)@.request_id == old(self)@.request_id,
    {
        let (rest, response) = self.recv(stream)?;
        let answer = response.get_request_id().is_some();
        match response.into_alive() {
            Ok(alive) => Ok((rest, alive.server_pid)),
            Err(e) => Err(self.out_of_place(answer, e)),
        }
    }

    /// Puts the request for a session that runs `command` into the frame
    /// buffer. The three descriptors of [`SshCommand::transfer`] follow
    /// the frame, in order, before the answer is read with
    /// [`Self::session_reply`].
    pub fn new_session(&mut self, command: &SshCommand, term: Option<String>)
        requires
            old(self)@.state == State::Ready,
            MuxMessageView::NewSession(
                command@.session_request(
                    match term {
                        Some(term) => Some(term@),
                        None => None,
                    },
                ),
            ).with_request_id(next_request_id(old(self)@.request_id)).encode().len() <= u32::MAX,
        ensures
            final(self)@.request_id == next_request_id(old(self)@.request_id),
            final(self)@.expected_request_id == Some(final(self)@.request_id),
            final(self)@.state == State::AwaitingResponse,
            final(self)@.buffer == frame(
                MuxMessageView::NewSession(
                    command@.session_request(
                        match term {
                            Some(term) => Some(term@),
                            None => None,
                        },
                    ),
                ).with_request_id(final(self)@.request_id).encode(),
            ),
    {
        self.send(MuxMessage::NewSession(command.session_request(term)));
    }

    /// Takes the answer to a request that opens a session from `stream`:
    /// the id of the session.
    pub fn session_reply<'a>(&mut self, stream: &'a [u8]) -> (r: core::result::Result<
        (&'a [u8], u32),
        Error,
    >)
        requires
            old(self)@.state == State::Ready || old(self)@.state == State::AwaitingResponse,
        ensures
            decided(r) == session_outcome(old(self)@.expected_request_id, stream@),
            (final(self)@.state, final(self)@.expected_request_id) == old(self)@.after_exchange(
                stream@,
                decided(r),
            ),
            final(self)@.request_id == old(self)@.request_id,
    {
        let (rest, response) = self.recv(stream)?;
        let answer = response.get_request_id().is_some();
        match response.into_session_opened() {
            Ok(opened) => Ok((rest, opened.session_id)),
            Err(e) => Err(self.out_of_place(answer, e)),
        }
    }

    /// Takes the notice that a session ended from `stream`, and tells
    /// whether it is the session of `child` that ended.
    pub fn wait<'a>(&mut self, child: &Child, stream: &'a [u8]) -> (r: core::result::Result<
        (&'a [u8], bool),
        Error,
    >)
        requires
            old(self)@.state == State::Ready || old(self)@.state == State::AwaitingResponse,
        ensures
            decided(r) == wait_outcome(old(self)@.expected_request_id, child.session, stream@),
            (final(self)@.state, final(self)@.expected_request_id) == old(self)@.after_exchange(
                stream@,
                decided(r),
            ),
            final(self)@.request_id == old(self)@.request_id,
    {
        let (rest, response) = self.recv(stream)?;
        let answer = response.get_request_id().is_some();
        match response.into_exit_message() {
            Ok(exit) => Ok((rest, child.is_exit(&exit))),
            Err(e) => Err(self.out_of_place(answer, e)),
        }
    }

    /// Puts the request to connect the standard streams to `host` and
    /// `port` into the frame buffer. The descriptor to read from and the
    /// descriptor to write to follow the frame, in this order, before the
    /// answer is read with [`Self::session_reply`].
    pub fn new_stdio_forward(&mut self, host: String, port: ListenType)
        requires
            old(self)@.state == State::Ready,
            stdio_forward_request(host@, port).with_request_id(
                next_request_id(old(self)@.request_id),
            ).encode().len() <= u32::MAX,
        ensures
            final(self)@.request_id == next_request_id(old(self)@.request_id),
            final(self)@.expected_request_id == Some(final(self)@.request_id),
            final(self)@.state == State::AwaitingResponse,
            final(self)@.buffer == frame(
                stdio_forward_request(host@, port).with_request_id(
                    final(self)@.request_id,
                ).encode(),
            ),
    {
        self.send(
            MuxMessage::NewStdioFwd(
                NewStdioFwd { request_id: 0, connect_host: host, connect_port: port },
            ),
        );
    }
}

/// A peer that speaks another version is turned away: its handshake,
/// well-formed as it may be, gives the failure that names its version.
/// [`SshControl::recv_hello`] then leaves the connection faulted, and no
/// request can be sent on it.
pub proof fn lemma_version_gate(hello: HelloView, tail: Seq<u8>)
    requires
        hello.encodable(),
        hello.encode().len() <= u32::MAX,
        hello.version != VERSION,
    ensures
        hello_outcome(frame(hello.encode()) + tail) == Err::<(Seq<u8>, HelloView), ErrorView>(
            ErrorView::UnsupportedVersion(hello.version),
        ),
{
    let by_trait = |s: Seq<u8>| Hello::spec_parse(s);
    let by_name = |s: Seq<u8>| HelloView::decode(s);
    assert(by_trait =~= by_name);
    lemma_frame_integrity::<Hello>(hello, tail);
}

/// A peer that speaks this client's version is let in.
pub proof fn lemma_version_accepted(hello: HelloView, tail: Seq<u8>)
    requires
        hello.encodable(),
        hello.encode().len() <= u32::MAX,
        hello.version == VERSION,
    ensures
        hello_outcome(frame(hello.encode()) + tail) == Ok::<(Seq<u8>, HelloView), ErrorView>(
            (tail, hello),
        ),
{
    let by_trait = |s: Seq<u8>| Hello::spec_parse(s);
    let by_name = |s: Seq<u8>| HelloView::decode(s);
    assert(by_trait =~= by_name);
    lemma_frame_integrity::<Hello>(hello, tail);
}

/// What the frame of `response` means to a connection whose outstanding
/// request, if any, is `expected`: exactly what correlating the response
/// gives, with the rest of the stream left over.
pub proof fn lemma_response_outcome(
    expected: Option<u32>,
    response: MuxResponseView,
    tail: Seq<u8>,
)
    requires
        response.encodable(),
        response.encode().len() <= u32::MAX,
    ensures
        response_outcome(expected, frame(response.encode()) + tail) == match correlate(
            expected,
            response,
        ) {
            Ok(response) => Ok::<(Seq<u8>, MuxResponseView), ErrorView>((tail, response)),
            Err(e) => Err(e),
        },
{
    let by_trait = |s: Seq<u8>| MuxResponse::spec_parse(s);
    let by_name = |s: Seq<u8>| MuxResponseView::decode(s);
    assert(by_trait =~= by_name);
    lemma_frame_integrity::<MuxResponse>(response, tail);
}

/// An answer under another id than the one given to the last request is
/// a failure that reports both ids.
pub proof fn lemma_mismatch_is_reported(assigned: u32, response: MuxResponseView, tail: Seq<u8>)
    requires
        response.encodable(),
        response.encode().len() <= u32::MAX,
        response.request_id() is Some,
        response.request_id() != Some(assigned),
    ensures
        response_outcome(Some(assigned), frame(response.encode()) + tail) == Err::<
            (Seq<u8>, MuxResponseView),
            ErrorView,
        >(
            ErrorView::InvalidResponseID {
                expected: Some(assigned),
                received: response.request_id(),
            },
        ),
{
    lemma_response_outcome(Some(assigned), response, tail);
}

/// A notification is never held against the outstanding request: it is
/// received as it is, whether a request is outstanding or not.
pub proof fn lemma_notification_is_not_correlated(
    expected: Option<u32>,
    response: MuxResponseView,
    tail: Seq<u8>,
)
    requires
        response is ExitMessage || response is TtyAllocFail,
    ensures
        response.request_id() is None,
        response_outcome(expected, frame(response.encode()) + tail) == Ok::<
            (Seq<u8>, MuxResponseView),
            ErrorView,
        >((tail, response)),
{
    match response {
        MuxResponseView::ExitMessage(body) => {
            lemma_u32_be_round_trip(body.session_id);
            lemma_u32_be_round_trip(body.exit_value);
        },
        MuxResponseView::TtyAllocFail(body) => {
            lemma_u32_be_round_trip(body.session_id);
        },
        _ => {},
    }
    lemma_u32_be_round_trip(response.tag());
    lemma_response_outcome(expected, response, tail);
}

/// A message of the peer whose type tag is unknown is a failure of
/// decoding, and so faults the connection.
pub proof fn lemma_unknown_tag_fails(expected: Option<u32>, tag: u32, body: Seq<u8>, tail: Seq<u8>)
    requires
        !crate::protocol::server::response_tags().contains(tag),
        4 + body.len() <= u32::MAX,
    ensures
        response_outcome(expected, frame(u32_to_be(tag) + body) + tail) matches Err(
            ErrorView::Parsing(_),
        ),
{
    lemma_u32_be_round_trip(tag);
    crate::protocol::lemma_parse_frame(u32_to_be(tag) + body, tail);
    crate::protocol::server::lemma_unknown_response_tag(tag, body);
}

} // verus!
