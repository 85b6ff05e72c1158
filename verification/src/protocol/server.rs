//! What the peer sends.

use vstd::prelude::*;
use crate::error::{
    Error,
    ErrorKind,
    ErrorView,
    KindView,
    ParseError,
    ParseErrorView,
    Parsed,
    VerboseError,
};
use crate::protocol::utils::{map_parsed, parse_verified, u32_to_be};
use crate::protocol::{context, in_context, parsed, Wire};

pub mod alive;
pub mod exit_message;
pub mod failure;
pub mod ok;
pub mod permission_denied;
pub mod remote_port;
pub mod session_opened;
pub mod tty_alloc_fail;

pub use alive::Alive;
pub use exit_message::ExitMessage;
pub use failure::{Failure, FailureView};
pub use ok::OkResponse;
pub use permission_denied::{PermissionDenied, PermissionDeniedView};
pub use remote_port::RemotePort;
pub use session_opened::SessionOpened;
pub use tty_alloc_fail::TtyAllocFail;

verus! {

pub const OK: u32 = 0x80000001;

pub const PERMISSION_DENIED: u32 = 0x80000002;

pub const FAILURE: u32 = 0x80000003;

pub const EXIT_MESSAGE: u32 = 0x80000004;

pub const ALIVE: u32 = 0x80000005;

pub const SESSION_OPENED: u32 = 0x80000006;

pub const REMOTE_PORT: u32 = 0x80000007;

pub const TTY_ALLOC_FAIL: u32 = 0x80000008;

/// Any message of the peer.
#[derive(Debug, PartialEq, Eq)]
pub enum MuxResponse {
    OkResponse(OkResponse),
    PermissionDenied(PermissionDenied),
    Failure(Failure),
    ExitMessage(ExitMessage),
    Alive(Alive),
    SessionOpened(SessionOpened),
    RemotePort(RemotePort),
    TtyAllocFail(TtyAllocFail),
}

/// The mathematical value of a [`MuxResponse`].
pub enum MuxResponseView {
    OkResponse(OkResponse),
    PermissionDenied(PermissionDeniedView),
    Failure(FailureView),
    ExitMessage(ExitMessage),
    Alive(Alive),
    SessionOpened(SessionOpened),
    RemotePort(RemotePort),
    TtyAllocFail(TtyAllocFail),
}

impl View for MuxResponse {
    type V = MuxResponseView;

    open spec fn view(&self) -> MuxResponseView {
        match *self {
            MuxResponse::OkResponse(body) => MuxResponseView::OkResponse(body),
            MuxResponse::PermissionDenied(body) => MuxResponseView::PermissionDenied(body@),
            MuxResponse::Failure(body) => MuxResponseView::Failure(body@),
            MuxResponse::ExitMessage(body) => MuxResponseView::ExitMessage(body),
            MuxResponse::Alive(body) => MuxResponseView::Alive(body),
            MuxResponse::SessionOpened(body) => MuxResponseView::SessionOpened(body),
            MuxResponse::RemotePort(body) => MuxResponseView::RemotePort(body),
            MuxResponse::TtyAllocFail(body) => MuxResponseView::TtyAllocFail(body),
        }
    }
}

impl MuxResponseView {
    /// The type tag that announces this message.
    pub open spec fn tag(self) -> u32 {
        match self {
            MuxResponseView::OkResponse(_) => OK,
            MuxResponseView::PermissionDenied(_) => PERMISSION_DENIED,
            MuxResponseView::Failure(_) => FAILURE,
            MuxResponseView::ExitMessage(_) => EXIT_MESSAGE,
            MuxResponseView::Alive(_) => ALIVE,
            MuxResponseView::SessionOpened(_) => SESSION_OPENED,
            MuxResponseView::RemotePort(_) => REMOTE_PORT,
            MuxResponseView::TtyAllocFail(_) => TTY_ALLOC_FAIL,
        }
    }

    /// The encoding of what follows the type tag.
    pub open spec fn body(self) -> Seq<u8> {
        match self {
            MuxResponseView::OkResponse(body) => body.encode(),
            MuxResponseView::PermissionDenied(body) => body.encode(),
            MuxResponseView::Failure(body) => body.encode(),
            MuxResponseView::ExitMessage(body) => body.encode(),
            MuxResponseView::Alive(body) => body.encode(),
            MuxResponseView::SessionOpened(body) => body.encode(),
            MuxResponseView::RemotePort(body) => body.encode(),
            MuxResponseView::TtyAllocFail(body) => body.encode(),
        }
    }

    /// The encoding of the message: its type tag, then its body.
    pub open spec fn encode(self) -> Seq<u8> {
        u32_to_be(self.tag()) + self.body()
    }

    /// Whether the encoding loses nothing.
    pub open spec fn encodable(self) -> bool {
        match self {
            MuxResponseView::PermissionDenied(body) => body.encodable(),
            MuxResponseView::Failure(body) => body.encodable(),
            _ => true,
        }
    }

    /// What decoding `s` as a message of the peer gives: a number that is
    /// no type tag of the peer is invalid input.
    pub open spec fn decode(s: Seq<u8>) -> Parsed<MuxResponseView> {
        match in_context("MuxResponse"@, s, parse_verified(s, response_tags())) {
            Err(e) => Err(e),
            Ok((rest, tag)) => parse_response_body(tag, rest),
        }
    }

    /// Decoding the encoding of a message gives the message and leaves
    /// what followed it.
    pub proof fn lemma_decode_encode(self, tail: Seq<u8>)
        requires
            self.encodable(),
        ensures
            Self::decode(self.encode() + tail) == Ok::<(Seq<u8>, MuxResponseView), ParseErrorView>(
                (tail, self),
            ),
    {
        let rest = self.body() + tail;
        assert(self.encode() + tail =~= u32_to_be(self.tag()) + rest);
        u32::lemma_parse_serialized(self.tag(), rest);
        match self {
            MuxResponseView::OkResponse(body) => body.lemma_decode_encode(tail),
            MuxResponseView::PermissionDenied(body) => body.lemma_decode_encode(tail),
            MuxResponseView::Failure(body) => body.lemma_decode_encode(tail),
            MuxResponseView::ExitMessage(body) => body.lemma_decode_encode(tail),
            MuxResponseView::Alive(body) => body.lemma_decode_encode(tail),
            MuxResponseView::SessionOpened(body) => body.lemma_decode_encode(tail),
            MuxResponseView::RemotePort(body) => body.lemma_decode_encode(tail),
            MuxResponseView::TtyAllocFail(body) => body.lemma_decode_encode(tail),
        }
    }

    /// The id of the request that this message answers; none for the
    /// notifications, which answer no request.
    pub open spec fn request_id(self) -> Option<u32> {
        match self {
            MuxResponseView::OkResponse(body) => Some(body.client_request_id),
            MuxResponseView::PermissionDenied(body) => Some(body.client_request_id),
            MuxResponseView::Failure(body) => Some(body.client_request_id),
            MuxResponseView::ExitMessage(_) => None,
            MuxResponseView::Alive(body) => Some(body.client_request_id),
            MuxResponseView::SessionOpened(body) => Some(body.client_request_id),
            MuxResponseView::RemotePort(body) => Some(body.client_request_id),
            MuxResponseView::TtyAllocFail(_) => None,
        }
    }

    /// The name of the kind of message.
    pub open spec fn name(self) -> Seq<char> {
        match self {
            MuxResponseView::OkResponse(_) => "Ok"@,
            MuxResponseView::PermissionDenied(_) => "PermissionDenied"@,
            MuxResponseView::Failure(_) => "Failure"@,
            MuxResponseView::ExitMessage(_) => "ExitMessage"@,
            MuxResponseView::Alive(_) => "Alive"@,
            MuxResponseView::SessionOpened(_) => "SessionOpened"@,
            MuxResponseView::RemotePort(_) => "RemotePort"@,
            MuxResponseView::TtyAllocFail(_) => "TtyAllocFail"@,
        }
    }

    /// What this message means to an exchange that awaits another kind of
    /// message: the peer's refusal or failure with its reason, or a message
    /// out of place. An exchange about a session takes the notice that no
    /// terminal could be allocated as that failure.
    pub open spec fn rejection(self, about_session: bool) -> ErrorView {
        match self {
            MuxResponseView::PermissionDenied(body) => ErrorView::PermissionDenied(body.reason),
            MuxResponseView::Failure(body) => ErrorView::Failure(body.reason),
            MuxResponseView::TtyAllocFail(_) if about_session => ErrorView::TtyAllocFailed,
            _ => ErrorView::InvalidPacket { description: self.name() },
        }
    }
}

/// The type tags of the peer's messages.
pub open spec fn response_tags() -> Set<u32> {
    set![
        OK,
        PERMISSION_DENIED,
        FAILURE,
        EXIT_MESSAGE,
        ALIVE,
        SESSION_OPENED,
        REMOTE_PORT,
        TTY_ALLOC_FAIL,
    ]
}

/// Decoding the body that the type tag `tag` announces.
pub open spec fn parse_response_body(tag: u32, s: Seq<u8>) -> Parsed<MuxResponseView> {
    if tag == OK {
        map_parsed(OkResponse::decode(s), |b: OkResponse| MuxResponseView::OkResponse(b))
    } else if tag == PERMISSION_DENIED {
        map_parsed(
            PermissionDeniedView::decode(s),
            |b: PermissionDeniedView| MuxResponseView::PermissionDenied(b),
        )
    } else if tag == FAILURE {
        map_parsed(FailureView::decode(s), |b: FailureView| MuxResponseView::Failure(b))
    } else if tag == EXIT_MESSAGE {
        map_parsed(ExitMessage::decode(s), |b: ExitMessage| MuxResponseView::ExitMessage(b))
    } else if tag == ALIVE {
        map_parsed(Alive::decode(s), |b: Alive| MuxResponseView::Alive(b))
    } else if tag == SESSION_OPENED {
        map_parsed(
            SessionOpened::decode(s),
            |b: SessionOpened| MuxResponseView::SessionOpened(b),
        )
    } else if tag == REMOTE_PORT {
        map_parsed(RemotePort::decode(s), |b: RemotePort| MuxResponseView::RemotePort(b))
    } else {
        map_parsed(TtyAllocFail::decode(s), |b: TtyAllocFail| MuxResponseView::TtyAllocFail(b))
    }
}

/// A number that is no type tag of the peer is rejected as invalid input,
/// whatever follows it: no message is made up for it.
pub proof fn lemma_unknown_response_tag(tag: u32, body: Seq<u8>)
    requires
        !response_tags().contains(tag),
    ensures
        MuxResponseView::decode(u32_to_be(tag) + body) == Err::<
            (Seq<u8>, MuxResponseView),
            ParseErrorView,
        >(
            ParseErrorView::Error(
                seq![
                    (u32_to_be(tag) + body, KindView::Code(ErrorKind::Verify)),
                    (u32_to_be(tag) + body, KindView::Context("MuxResponse"@)),
                ],
            ),
        ),
{
    u32::lemma_parse_serialized(tag, body);
    let s = u32_to_be(tag) + body;
    let at_tag = (s, KindView::Code(ErrorKind::Verify));
    let in_message = (s, KindView::Context("MuxResponse"@));
    assert(seq![at_tag].push(in_message) =~= seq![at_tag, in_message]);
}

/// Decodes a 32-bit number and accepts it only as one of the peer's type
/// tags.
fn response_tag<'a>(input: &'a [u8]) -> (r: core::result::Result<(&'a [u8], u32), ParseError>)
    ensures
        parsed(r) == parse_verified(input@, response_tags()),
{
    let (rest, tag) = u32::parse(input)?;
    if tag == OK || tag == PERMISSION_DENIED || tag == FAILURE || tag == EXIT_MESSAGE || tag
        == ALIVE || tag == SESSION_OPENED || tag == REMOTE_PORT || tag == TTY_ALLOC_FAIL {
        Ok((rest, tag))
    } else {
        Err(ParseError::Error(VerboseError::from_error_kind(input, ErrorKind::Verify)))
    }
}

impl Wire for MuxResponse {
    open spec fn spec_wire(v: MuxResponseView) -> Seq<u8> {
        v.encode()
    }

    open spec fn spec_parse(input: Seq<u8>) -> Parsed<MuxResponseView> {
        MuxResponseView::decode(input)
    }

    open spec fn wire_ok(v: MuxResponseView) -> bool {
        v.encodable()
    }

    fn parse<'a>(input: &'a [u8]) -> (r: core::result::Result<(&'a [u8], MuxResponse), ParseError>) {
        let (rest, tag) = context("MuxResponse", input, response_tag(input))?;
        if tag == OK {
            let (rest, body) = OkResponse::parse(rest)?;
            Ok((rest, MuxResponse::OkResponse(body)))
        } else if tag == PERMISSION_DENIED {
            let (rest, body) = PermissionDenied::parse(rest)?;
            Ok((rest, MuxResponse::PermissionDenied(body)))
        } else if tag == FAILURE {
            let (rest, body) = Failure::parse(rest)?;
            Ok((rest, MuxResponse::Failure(body)))
        } else if tag == EXIT_MESSAGE {
            let (rest, body) = ExitMessage::parse(rest)?;
            Ok((rest, MuxResponse::ExitMessage(body)))
        } else if tag == ALIVE {
            let (rest, body) = Alive::parse(rest)?;
            Ok((rest, MuxResponse::Alive(body)))
        } else if tag == SESSION_OPENED {
            let (rest, body) = SessionOpened::parse(rest)?;
            Ok((rest, MuxResponse::SessionOpened(body)))
        } else if tag == REMOTE_PORT {
            let (rest, body) = RemotePort::parse(rest)?;
            Ok((rest, MuxResponse::RemotePort(body)))
        } else {
            let (rest, body) = TtyAllocFail::parse(rest)?;
            Ok((rest, MuxResponse::TtyAllocFail(body)))
        }
    }

    fn serialize(&self, writer: &mut Vec<u8>) {
        match self {
            MuxResponse::OkResponse(body) => {
                OK.serialize(writer);
                body.serialize(writer);
            },
            MuxResponse::PermissionDenied(body) => {
                PERMISSION_DENIED.serialize(writer);
                body.serialize(writer);
            },
            MuxResponse::Failure(body) => {
                FAILURE.serialize(writer);
                body.serialize(writer);
            },
            MuxResponse::ExitMessage(body) => {
                EXIT_MESSAGE.serialize(writer);
                body.serialize(writer);
            },
            MuxResponse::Alive(body) => {
                ALIVE.serialize(writer);
                body.serialize(writer);
            },
            MuxResponse::SessionOpened(body) => {
                SESSION_OPENED.serialize(writer);
                body.serialize(writer);
            },
            MuxResponse::RemotePort(body) => {
                REMOTE_PORT.serialize(writer);
                body.serialize(writer);
            },
            MuxResponse::TtyAllocFail(body) => {
                TTY_ALLOC_FAIL.serialize(writer);
                body.serialize(writer);
            },
        }
        assert(final(writer)@ =~= old(writer)@ + self@.encode());
    }

    open spec fn self_delimiting() -> bool {
        true
    }

    proof fn lemma_parse_serialized(v: MuxResponseView, tail: Seq<u8>) {
        v.lemma_decode_encode(tail);
    }
}

impl MuxResponse {
    /// The id of the request that this message answers, if it answers one.
    pub fn get_request_id(&self) -> (id: Option<u32>)
        ensures
            id == self@.request_id(),
    {
        match self {
            MuxResponse::OkResponse(body) => Some(body.client_request_id),
            MuxResponse::PermissionDenied(body) => Some(body.client_request_id),
            MuxResponse::Failure(body) => Some(body.client_request_id),
            MuxResponse::ExitMessage(_) => None,
            MuxResponse::Alive(body) => Some(body.client_request_id),
            MuxResponse::SessionOpened(body) => Some(body.client_request_id),
            MuxResponse::RemotePort(body) => Some(body.client_request_id),
            MuxResponse::TtyAllocFail(_) => None,
        }
    }

    /// The name of the kind of message.
    pub fn name(&self) -> (name: &'static str)
        ensures
            name@ == self@.name(),
    {
        match self {
            MuxResponse::OkResponse(_) => "Ok",
            MuxResponse::PermissionDenied(_) => "PermissionDenied",
            MuxResponse::Failure(_) => "Failure",
            MuxResponse::ExitMessage(_) => "ExitMessage",
            MuxResponse::Alive(_) => "Alive",
            MuxResponse::SessionOpened(_) => "SessionOpened",
            MuxResponse::RemotePort(_) => "RemotePort",
            MuxResponse::TtyAllocFail(_) => "TtyAllocFail",
        }
    }

    /// The failure that this message is to an exchange that awaits another
    /// kind of message.
    pub fn reject(self, about_session: bool) -> (e: Error)
        ensures
            e@ == self@.rejection(about_session),
    {
        match self {
            MuxResponse::PermissionDenied(body) => Error::PermissionDenied(body.reason),
            MuxResponse::Failure(body) => Error::Failure(body.reason),
            MuxResponse::TtyAllocFail(body) => {
                if about_session {
                    Error::TtyAllocFailed
                } else {
                    Error::InvalidPacket {
                        description: MuxResponse::TtyAllocFail(body).name().to_owned(),
                    }
                }
            },
            other => Error::InvalidPacket { description: other.name().to_owned() },
        }
    }

    /// The answer to a liveness check, or the failure that the message is
    /// in its place.
    pub fn into_alive(self) -> (r: core::result::Result<Alive, Error>)
        ensures
            match r {
                Ok(body) => self@ == MuxResponseView::Alive(body),
                Err(e) => !(self@ is Alive) && e@ == self@.rejection(false),
            },
    {
        match self {
            MuxResponse::Alive(body) => Ok(body),
            other => Err(other.reject(false)),
        }
    }

    /// The notice that a session ended, or the failure that the message is
    /// in its place.
    pub fn into_exit_message(self) -> (r: core::result::Result<ExitMessage, Error>)
        ensures
            match r {
                Ok(body) => self@ == MuxResponseView::ExitMessage(body),
                Err(e) => !(self@ is ExitMessage) && e@ == self@.rejection(true),
            },
    {
        match self {
            MuxResponse::ExitMessage(body) => Ok(body),
            other => Err(other.reject(true)),
        }
    }

    /// The plain confirmation, or the failure that the message is in its
    /// place.
    pub fn into_ok(self) -> (r: core::result::Result<OkResponse, Error>)
        ensures
            match r {
                Ok(body) => self@ == MuxResponseView::OkResponse(body),
                Err(e) => !(self@ is OkResponse) && e@ == self@.rejection(false),
            },
    {
        match self {
            MuxResponse::OkResponse(body) => Ok(body),
            other => Err(other.reject(false)),
        }
    }

    /// The port chosen by the peer, or the failure that the message is in
    /// its place.
    pub fn into_remote_port(self) -> (r: core::result::Result<RemotePort, Error>)
        ensures
            match r {
                Ok(body) => self@ == MuxResponseView::RemotePort(body),
                Err(e) => !(self@ is RemotePort) && e@ == self@.rejection(false),
            },
    {
        match self {
            MuxResponse::RemotePort(body) => Ok(body),
            other => Err(other.reject(false)),
        }
    }

    /// The opened session, or the failure that the message is in its place.
    pub fn into_session_opened(self) -> (r: core::result::Result<SessionOpened, Error>)
        ensures
            match r {
                Ok(body) => self@ == MuxResponseView::SessionOpened(body),
                Err(e) => !(self@ is SessionOpened) && e@ == self@.rejection(true),
            },
    {
        match self {
            MuxResponse::SessionOpened(body) => Ok(body),
            other => Err(other.reject(true)),
        }
    }
}

/// The message of the peer with this body.
impl From<OkResponse> for MuxResponse {
    fn from(value: OkResponse) -> (message: MuxResponse) {
        MuxResponse::OkResponse(value)
    }
}

impl vstd::std_specs::convert::FromSpecImpl<OkResponse> for MuxResponse {
    open spec fn obeys_from_spec() -> bool {
        true
    }

    open spec fn from_spec(value: OkResponse) -> MuxResponse {
        MuxResponse::OkResponse(value)
    }
}

/// The message of the peer with this body.
impl From<PermissionDenied> for MuxResponse {
    fn from(value: PermissionDenied) -> (message: MuxResponse) {
        MuxResponse::PermissionDenied(value)
    }
}

impl vstd::std_specs::convert::FromSpecImpl<PermissionDenied> for MuxResponse {
    open spec fn obeys_from_spec() -> bool {
        true
    }

    open spec fn from_spec(value: PermissionDenied) -> MuxResponse {
        MuxResponse::PermissionDenied(value)
    }
}

/// The message of the peer with this body.
impl From<Failure> for MuxResponse {
    fn from(value: Failure) -> (message: MuxResponse) {
        MuxResponse::Failure(value)
    }
}

impl vstd::std_specs::convert::FromSpecImpl<Failure> for MuxResponse {
    open spec fn obeys_from_spec() -> bool {
        true
    }

    open spec fn from_spec(value: Failure) -> MuxResponse {
        MuxResponse::Failure(value)
    }
}

/// The message of the peer with this body.
impl From<ExitMessage> for MuxResponse {
    fn from(value: ExitMessage) -> (message: MuxResponse) {
        MuxResponse::ExitMessage(value)
    }
}

impl vstd::std_specs::convert::FromSpecImpl<ExitMessage> for MuxResponse {
    open spec fn obeys_from_spec() -> bool {
        true
    }

    open spec fn from_spec(value: ExitMessage) -> MuxResponse {
        MuxResponse::ExitMessage(value)
    }
}

/// The message of the peer with this body.
impl From<Alive> for MuxResponse {
    fn from(value: Alive) -> (message: MuxResponse) {
        MuxResponse::Alive(value)
    }
}

impl vstd::std_specs::convert::FromSpecImpl<Alive> for MuxResponse {
    open spec fn obeys_from_spec() -> bool {
        true
    }

    open spec fn from_spec(value: Alive) -> MuxResponse {
        MuxResponse::Alive(value)
    }
}

/// The message of the peer with this body.
impl From<SessionOpened> for MuxResponse {
    fn from(value: SessionOpened) -> (message: MuxResponse) {
        MuxResponse::SessionOpened(value)
    }
}

impl vstd::std_specs::convert::FromSpecImpl<SessionOpened> for MuxResponse {
    open spec fn obeys_from_spec() -> bool {
        true
    }

    open spec fn from_spec(value: SessionOpened) -> MuxResponse {
        MuxResponse::SessionOpened(value)
    }
}

/// The message of the peer with this body.
impl From<RemotePort> for MuxResponse {
    fn from(value: RemotePort) -> (message: MuxResponse) {
        MuxResponse::RemotePort(value)
    }
}

impl vstd::std_specs::convert::FromSpecImpl<RemotePort> for MuxResponse {
    open spec fn obeys_from_spec() -> bool {
        true
    }

    open spec fn from_spec(value: RemotePort) -> MuxResponse {
        MuxResponse::RemotePort(value)
    }
}

/// The message of the peer with this body.
impl From<TtyAllocFail> for MuxResponse {
    fn from(value: TtyAllocFail) -> (message: MuxResponse) {
        MuxResponse::TtyAllocFail(value)
    }
}

impl vstd::std_specs::convert::FromSpecImpl<TtyAllocFail> for MuxResponse {
    open spec fn obeys_from_spec() -> bool {
        true
    }

    open spec fn from_spec(value: TtyAllocFail) -> MuxResponse {
        MuxResponse::TtyAllocFail(value)
    }
}

impl Clone for MuxResponse {
    fn clone(&self) -> (copy: MuxResponse)
        ensures
            copy@ == self@,
    {
        match self {
            MuxResponse::OkResponse(body) => MuxResponse::OkResponse(*body),
            MuxResponse::PermissionDenied(body) => MuxResponse::PermissionDenied(body.clone()),
            MuxResponse::Failure(body) => MuxResponse::Failure(body.clone()),
            MuxResponse::ExitMessage(body) => MuxResponse::ExitMessage(*body),
            MuxResponse::Alive(body) => MuxResponse::Alive(*body),
            MuxResponse::SessionOpened(body) => MuxResponse::SessionOpened(*body),
            MuxResponse::RemotePort(body) => MuxResponse::RemotePort(*body),
            MuxResponse::TtyAllocFail(body) => MuxResponse::TtyAllocFail(*body),
        }
    }
}

} // verus!
