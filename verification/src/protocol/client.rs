//! What this client sends.

use vstd::prelude::*;
use crate::error::{ErrorKind, KindView, ParseError, ParseErrorView, Parsed, VerboseError};
use crate::protocol::utils::{lemma_join, map_parsed, parse_u32, parse_verified, u32_to_be};
use crate::protocol::{context, in_context, parsed, Wire};

pub mod alive_check;
pub mod close_fwd;
pub mod new_session;
pub mod new_stdio_fwd;
pub mod open_fwd;
pub mod stop_listening;
pub mod terminate;

pub use alive_check::AliveCheck;
pub use close_fwd::{CloseFwd, CloseFwdView};
pub use new_session::{NewSession, NewSessionView};
pub use new_stdio_fwd::{NewStdioFwd, NewStdioFwdView};
pub use open_fwd::{OpenFwd, OpenFwdView};
pub use stop_listening::StopListening;
pub use terminate::Terminate;

verus! {

pub const NEW_SESSION: u32 = 0x10000002;

pub const ALIVE_CHECK: u32 = 0x10000004;

pub const TERMINATE: u32 = 0x10000005;

pub const OPEN_FWD: u32 = 0x10000006;

pub const CLOSE_FWD: u32 = 0x10000007;

pub const NEW_STDIO_FWD: u32 = 0x10000008;

pub const STOP_LISTENING: u32 = 0x10000009;

pub const FWD_LOCAL: u32 = 1;

pub const FWD_REMOTE: u32 = 2;

pub const FWD_DYNAMIC: u32 = 3;

/// The port number that stands for a Unix domain socket.
pub const LISTEN_TYPE_UNIX: u32 = 0xFFFF_FFFE;

/// The direction of a port forwarding.
#[derive(Clone, Copy, Debug, PartialEq, Eq, Structural)]
pub enum ForwardingType {
    Local,
    Remote,
    Dynamic,
}

impl View for ForwardingType {
    type V = ForwardingType;

    open spec fn view(&self) -> ForwardingType {
        *self
    }
}

impl ForwardingType {
    /// The number that stands for the direction on the wire.
    pub open spec fn code(self) -> u32 {
        match self {
            ForwardingType::Local => FWD_LOCAL,
            ForwardingType::Remote => FWD_REMOTE,
            ForwardingType::Dynamic => FWD_DYNAMIC,
        }
    }

    /// The direction that a number stands for, if any.
    pub open spec fn from_code(v: u32) -> Option<ForwardingType> {
        if v == FWD_LOCAL {
            Some(ForwardingType::Local)
        } else if v == FWD_REMOTE {
            Some(ForwardingType::Remote)
        } else if v == FWD_DYNAMIC {
            Some(ForwardingType::Dynamic)
        } else {
            None
        }
    }

    /// The encoding of the direction.
    pub open spec fn encode(self) -> Seq<u8> {
        u32_to_be(self.code())
    }

    /// Decoding the number of a direction: a number that stands for none
    /// is invalid input, reported at the number itself.
    pub open spec fn decode_code(s: Seq<u8>) -> Parsed<ForwardingType> {
        match parse_u32(s) {
            Err(e) => Err(e),
            Ok((rest, v)) => match Self::from_code(v) {
                Some(value) => Ok((rest, value)),
                None => Err(ParseErrorView::Error(seq![(s, KindView::Code(ErrorKind::MapOpt))])),
            },
        }
    }

    /// What decoding `s` as a direction gives.
    pub open spec fn decode(s: Seq<u8>) -> Parsed<ForwardingType> {
        in_context("ForwardingType"@, s, Self::decode_code(s))
    }

    /// Decoding the encoding of a direction gives the direction and leaves
    /// what followed it.
    pub proof fn lemma_decode_encode(self, tail: Seq<u8>)
        ensures
            Self::decode(self.encode() + tail) == Ok::<(Seq<u8>, ForwardingType), ParseErrorView>(
                (tail, self),
            ),
    {
        u32::lemma_parse_serialized(self.code(), tail);
    }

    fn mapped<'a>(input: &'a [u8]) -> (r: core::result::Result<
        (&'a [u8], ForwardingType),
        ParseError,
    >)
        ensures
            parsed(r) == Self::decode_code(input@),
    {
        let (rest, v) = u32::parse(input)?;
        if v == FWD_LOCAL {
            Ok((rest, ForwardingType::Local))
        } else if v == FWD_REMOTE {
            Ok((rest, ForwardingType::Remote))
        } else if v == FWD_DYNAMIC {
            Ok((rest, ForwardingType::Dynamic))
        } else {
            Err(ParseError::Error(VerboseError::from_error_kind(input, ErrorKind::MapOpt)))
        }
    }
}

impl Wire for ForwardingType {
    open spec fn spec_wire(v: ForwardingType) -> Seq<u8> {
        v.encode()
    }

    open spec fn spec_parse(input: Seq<u8>) -> Parsed<ForwardingType> {
        Self::decode(input)
    }

    open spec fn wire_ok(v: ForwardingType) -> bool {
        true
    }

    fn parse<'a>(input: &'a [u8]) -> (r: core::result::Result<
        (&'a [u8], ForwardingType),
        ParseError,
    >) {
        context("ForwardingType", input, Self::mapped(input))
    }

    fn serialize(&self, writer: &mut Vec<u8>) {
        match self {
            ForwardingType::Local => FWD_LOCAL.serialize(writer),
            ForwardingType::Remote => FWD_REMOTE.serialize(writer),
            ForwardingType::Dynamic => FWD_DYNAMIC.serialize(writer),
        }
    }

    open spec fn self_delimiting() -> bool {
        true
    }

    proof fn lemma_parse_serialized(v: ForwardingType, tail: Seq<u8>) {
        v.lemma_decode_encode(tail);
    }
}

/// Where a forwarding listens or connects: a TCP port, or a Unix domain
/// socket whose path stands in the host field.
#[derive(Clone, Copy, Debug, PartialEq, Eq, Structural)]
pub enum ListenType {
    Inet(u16),
    Unix,
}

impl View for ListenType {
    type V = ListenType;

    open spec fn view(&self) -> ListenType {
        *self
    }
}

impl ListenType {
    /// The number that stands for the port on the wire.
    pub open spec fn code(self) -> u32 {
        match self {
            ListenType::Inet(port) => port as u32,
            ListenType::Unix => LISTEN_TYPE_UNIX,
        }
    }

    /// The port that a number stands for, if any.
    pub open spec fn from_code(v: u32) -> Option<ListenType> {
        if v == LISTEN_TYPE_UNIX {
            Some(ListenType::Unix)
        } else if v <= u16::MAX {
            Some(ListenType::Inet(v as u16))
        } else {
            None
        }
    }

    /// The encoding of the port.
    pub open spec fn encode(self) -> Seq<u8> {
        u32_to_be(self.code())
    }

    /// Decoding the number of a port: a number that stands for none is
    /// invalid input, reported at the number itself.
    pub open spec fn decode_code(s: Seq<u8>) -> Parsed<ListenType> {
        match parse_u32(s) {
            Err(e) => Err(e),
            Ok((rest, v)) => match Self::from_code(v) {
                Some(value) => Ok((rest, value)),
                None => Err(ParseErrorView::Error(seq![(s, KindView::Code(ErrorKind::MapOpt))])),
            },
        }
    }

    /// What decoding `s` as a port gives.
    pub open spec fn decode(s: Seq<u8>) -> Parsed<ListenType> {
        in_context("ListenType"@, s, Self::decode_code(s))
    }

    /// Decoding the encoding of a port gives the port and leaves what
    /// followed it.
    pub proof fn lemma_decode_encode(self, tail: Seq<u8>)
        ensures
            Self::decode(self.encode() + tail) == Ok::<(Seq<u8>, ListenType), ParseErrorView>(
                (tail, self),
            ),
    {
        u32::lemma_parse_serialized(self.code(), tail);
    }

    fn mapped<'a>(input: &'a [u8]) -> (r: core::result::Result<(&'a [u8], ListenType), ParseError>)
        ensures
            parsed(r) == Self::decode_code(input@),
    {
        let (rest, v) = u32::parse(input)?;
        if v == LISTEN_TYPE_UNIX {
            Ok((rest, ListenType::Unix))
        } else if v <= 0xFFFF {
            Ok((rest, ListenType::Inet(v as u16)))
        } else {
            Err(ParseError::Error(VerboseError::from_error_kind(input, ErrorKind::MapOpt)))
        }
    }
}

impl Wire for ListenType {
    open spec fn spec_wire(v: ListenType) -> Seq<u8> {
        v.encode()
    }

    open spec fn spec_parse(input: Seq<u8>) -> Parsed<ListenType> {
        Self::decode(input)
    }

    open spec fn wire_ok(v: ListenType) -> bool {
        true
    }

    fn parse<'a>(input: &'a [u8]) -> (r: core::result::Result<(&'a [u8], ListenType), ParseError>) {
        context("ListenType", input, Self::mapped(input))
    }

    fn serialize(&self, writer: &mut Vec<u8>) {
        match self {
            ListenType::Inet(port) => (*port as u32).serialize(writer),
            ListenType::Unix => LISTEN_TYPE_UNIX.serialize(writer),
        }
    }

    open spec fn self_delimiting() -> bool {
        true
    }

    proof fn lemma_parse_serialized(v: ListenType, tail: Seq<u8>) {
        v.lemma_decode_encode(tail);
    }
}

/// Any request of this client.
#[derive(Debug, PartialEq, Eq)]
pub enum MuxMessage {
    NewSession(NewSession),
    AliveCheck(AliveCheck),
    Terminate(Terminate),
    OpenFwd(OpenFwd),
    CloseFwd(CloseFwd),
    NewStdioFwd(NewStdioFwd),
    StopListening(StopListening),
}

/// The mathematical value of a [`MuxMessage`].
pub enum MuxMessageView {
    NewSession(NewSessionView),
    AliveCheck(AliveCheck),
    Terminate(Terminate),
    OpenFwd(OpenFwdView),
    CloseFwd(CloseFwdView),
    NewStdioFwd(NewStdioFwdView),
    StopListening(StopListening),
}

impl View for MuxMessage {
    type V = MuxMessageView;

    open spec fn view(&self) -> MuxMessageView {
        match *self {
            MuxMessage::NewSession(body) => MuxMessageView::NewSession(body@),
            MuxMessage::AliveCheck(body) => MuxMessageView::AliveCheck(body),
            MuxMessage::Terminate(body) => MuxMessageView::Terminate(body),
            MuxMessage::OpenFwd(body) => MuxMessageView::OpenFwd(body@),
            MuxMessage::CloseFwd(body) => MuxMessageView::CloseFwd(body@),
            MuxMessage::NewStdioFwd(body) => MuxMessageView::NewStdioFwd(body@),
            MuxMessage::StopListening(body) => MuxMessageView::StopListening(body),
        }
    }
}

/// The type tags of this client's requests.
pub open spec fn request_tags() -> Set<u32> {
    set![NEW_SESSION, ALIVE_CHECK, TERMINATE, OPEN_FWD, CLOSE_FWD, NEW_STDIO_FWD, STOP_LISTENING]
}

/// Decoding the body that the type tag `tag` announces.
pub open spec fn parse_request_body(tag: u32, s: Seq<u8>) -> Parsed<MuxMessageView> {
    if tag == NEW_SESSION {
        map_parsed(NewSessionView::decode(s), |b: NewSessionView| MuxMessageView::NewSession(b))
    } else if tag == ALIVE_CHECK {
        map_parsed(AliveCheck::decode(s), |b: AliveCheck| MuxMessageView::AliveCheck(b))
    } else if tag == TERMINATE {
        map_parsed(Terminate::decode(s), |b: Terminate| MuxMessageView::Terminate(b))
    } else if tag == OPEN_FWD {
        map_parsed(OpenFwdView::decode(s), |b: OpenFwdView| MuxMessageView::OpenFwd(b))
    } else if tag == CLOSE_FWD {
        map_parsed(CloseFwdView::decode(s), |b: CloseFwdView| MuxMessageView::CloseFwd(b))
    } else if tag == NEW_STDIO_FWD {
        map_parsed(
            NewStdioFwdView::decode(s),
            |b: NewStdioFwdView| MuxMessageView::NewStdioFwd(b),
        )
    } else {
        map_parsed(StopListening::decode(s), |b: StopListening| MuxMessageView::StopListening(b))
    }
}

impl MuxMessageView {
    /// The type tag that announces this request.
    pub open spec fn tag(self) -> u32 {
        match self {
            MuxMessageView::NewSession(_) => NEW_SESSION,
            MuxMessageView::AliveCheck(_) => ALIVE_CHECK,
            MuxMessageView::Terminate(_) => TERMINATE,
            MuxMessageView::OpenFwd(_) => OPEN_FWD,
            MuxMessageView::CloseFwd(_) => CLOSE_FWD,
            MuxMessageView::NewStdioFwd(_) => NEW_STDIO_FWD,
            MuxMessageView::StopListening(_) => STOP_LISTENING,
        }
    }

    /// The encoding of what follows the type tag.
    pub open spec fn body(self) -> Seq<u8> {
        match self {
            MuxMessageView::NewSession(body) => body.encode(),
            MuxMessageView::AliveCheck(body) => body.encode(),
            MuxMessageView::Terminate(body) => body.encode(),
            MuxMessageView::OpenFwd(body) => body.encode(),
            MuxMessageView::CloseFwd(body) => body.encode(),
            MuxMessageView::NewStdioFwd(body) => body.encode(),
            MuxMessageView::StopListening(body) => body.encode(),
        }
    }

    /// The encoding of the request: its type tag, then its body.
    pub open spec fn encode(self) -> Seq<u8> {
        u32_to_be(self.tag()) + self.body()
    }

    /// Whether the encoding loses nothing.
    pub open spec fn encodable(self) -> bool {
        match self {
            MuxMessageView::NewSession(body) => body.encodable(),
            MuxMessageView::OpenFwd(body) => body.encodable(),
            MuxMessageView::CloseFwd(body) => body.encodable(),
            MuxMessageView::NewStdioFwd(body) => body.encodable(),
            _ => true,
        }
    }

    /// What decoding `s` as a request gives: a number that is no type tag
    /// of a request is invalid input.
    pub open spec fn decode(s: Seq<u8>) -> Parsed<MuxMessageView> {
        match in_context("MuxMessage"@, s, parse_verified(s, request_tags())) {
            Err(e) => Err(e),
            Ok((rest, tag)) => parse_request_body(tag, rest),
        }
    }

    /// The id under which the request is answered.
    pub open spec fn request_id(self) -> u32 {
        match self {
            MuxMessageView::NewSession(body) => body.request_id,
            MuxMessageView::AliveCheck(body) => body.request_id,
            MuxMessageView::Terminate(body) => body.request_id,
            MuxMessageView::OpenFwd(body) => body.request_id,
            MuxMessageView::CloseFwd(body) => body.request_id,
            MuxMessageView::NewStdioFwd(body) => body.request_id,
            MuxMessageView::StopListening(body) => body.request_id,
        }
    }

    /// The same request under another id.
    pub open spec fn with_request_id(self, request_id: u32) -> MuxMessageView {
        match self {
            MuxMessageView::NewSession(body) => MuxMessageView::NewSession(
                NewSessionView { request_id, ..body },
            ),
            MuxMessageView::AliveCheck(body) => MuxMessageView::AliveCheck(
                AliveCheck { request_id },
            ),
            MuxMessageView::Terminate(body) => MuxMessageView::Terminate(Terminate { request_id }),
            MuxMessageView::OpenFwd(body) => MuxMessageView::OpenFwd(
                OpenFwdView { request_id, ..body },
            ),
            MuxMessageView::CloseFwd(body) => MuxMessageView::CloseFwd(
                CloseFwdView { request_id, ..body },
            ),
            MuxMessageView::NewStdioFwd(body) => MuxMessageView::NewStdioFwd(
                NewStdioFwdView { request_id, ..body },
            ),
            MuxMessageView::StopListening(body) => MuxMessageView::StopListening(
                StopListening { request_id },
            ),
        }
    }

    /// Decoding the encoding of a request gives the request and leaves
    /// nothing. The request must end the input, as a new session must.
    pub proof fn lemma_decode_encode(self)
        requires
            self.encodable(),
        ensures
            Self::decode(self.encode()) == Ok::<(Seq<u8>, MuxMessageView), ParseErrorView>(
                (Seq::<u8>::empty(), self),
            ),
    {
        let none = Seq::<u8>::empty();
        assert(self.body() + none =~= self.body());
        u32::lemma_parse_serialized(self.tag(), self.body());
        match self {
            MuxMessageView::NewSession(body) => body.lemma_decode_encode(),
            MuxMessageView::AliveCheck(body) => body.lemma_decode_encode(none),
            MuxMessageView::Terminate(body) => body.lemma_decode_encode(none),
            MuxMessageView::OpenFwd(body) => body.lemma_decode_encode(none),
            MuxMessageView::CloseFwd(body) => body.lemma_decode_encode(none),
            MuxMessageView::NewStdioFwd(body) => body.lemma_decode_encode(none),
            MuxMessageView::StopListening(body) => body.lemma_decode_encode(none),
        }
    }
}

/// A number that is no type tag of a request is rejected as invalid input,
/// whatever follows it: no request is made up for it.
pub proof fn lemma_unknown_request_tag(tag: u32, body: Seq<u8>)
    requires
        !request_tags().contains(tag),
    ensures
        MuxMessageView::decode(u32_to_be(tag) + body) == Err::<
            (Seq<u8>, MuxMessageView),
            ParseErrorView,
        >(
            ParseErrorView::Error(
                seq![
                    (u32_to_be(tag) + body, KindView::Code(ErrorKind::Verify)),
                    (u32_to_be(tag) + body, KindView::Context("MuxMessage"@)),
                ],
            ),
        ),
{
    u32::lemma_parse_serialized(tag, body);
    let s = u32_to_be(tag) + body;
    let at_tag = (s, KindView::Code(ErrorKind::Verify));
    let in_message = (s, KindView::Context("MuxMessage"@));
    assert(seq![at_tag].push(in_message) =~= seq![at_tag, in_message]);
}

/// Decodes a 32-bit number and accepts it only as the type tag of a
/// request.
fn request_tag<'a>(input: &'a [u8]) -> (r: core::result::Result<(&'a [u8], u32), ParseError>)
    ensures
        parsed(r) == parse_verified(input@, request_tags()),
{
    let (rest, tag) = u32::parse(input)?;
    if tag == NEW_SESSION || tag == ALIVE_CHECK || tag == TERMINATE || tag == OPEN_FWD || tag
        == CLOSE_FWD || tag == NEW_STDIO_FWD || tag == STOP_LISTENING {
        Ok((rest, tag))
    } else {
        Err(ParseError::Error(VerboseError::from_error_kind(input, ErrorKind::Verify)))
    }
}

impl Wire for MuxMessage {
    open spec fn spec_wire(v: MuxMessageView) -> Seq<u8> {
        v.encode()
    }

    open spec fn spec_parse(input: Seq<u8>) -> Parsed<MuxMessageView> {
        MuxMessageView::decode(input)
    }

    open spec fn wire_ok(v: MuxMessageView) -> bool {
        v.encodable()
    }

    fn parse<'a>(input: &'a [u8]) -> (r: core::result::Result<(&'a [u8], MuxMessage), ParseError>) {
        let (rest, tag) = context("MuxMessage", input, request_tag(input))?;
        if tag == NEW_SESSION {
            let (rest, body) = NewSession::parse(rest)?;
            Ok((rest, MuxMessage::NewSession(body)))
        } else if tag == ALIVE_CHECK {
            let (rest, body) = AliveCheck::parse(rest)?;
            Ok((rest, MuxMessage::AliveCheck(body)))
        } else if tag == TERMINATE {
            let (rest, body) = Terminate::parse(rest)?;
            Ok((rest, MuxMessage::Terminate(body)))
        } else if tag == OPEN_FWD {
            let (rest, body) = OpenFwd::parse(rest)?;
            Ok((rest, MuxMessage::OpenFwd(body)))
        } else if tag == CLOSE_FWD {
            let (rest, body) = CloseFwd::parse(rest)?;
            Ok((rest, MuxMessage::CloseFwd(body)))
        } else if tag == NEW_STDIO_FWD {
            let (rest, body) = NewStdioFwd::parse(rest)?;
            Ok((rest, MuxMessage::NewStdioFwd(body)))
        } else {
            let (rest, body) = StopListening::parse(rest)?;
            Ok((rest, MuxMessage::StopListening(body)))
        }
    }

    fn serialize(&self, writer: &mut Vec<u8>) {
        let ghost w0 = writer@;
        match self {
            MuxMessage::NewSession(body) => {
                NEW_SESSION.serialize(writer);
                body.serialize(writer);
            },
            MuxMessage::AliveCheck(body) => {
                ALIVE_CHECK.serialize(writer);
                body.serialize(writer);
            },
            MuxMessage::Terminate(body) => {
                TERMINATE.serialize(writer);
                body.serialize(writer);
            },
            MuxMessage::OpenFwd(body) => {
                OPEN_FWD.serialize(writer);
                body.serialize(writer);
            },
            MuxMessage::CloseFwd(body) => {
                CLOSE_FWD.serialize(writer);
                body.serialize(writer);
            },
            MuxMessage::NewStdioFwd(body) => {
                NEW_STDIO_FWD.serialize(writer);
                body.serialize(writer);
            },
            MuxMessage::StopListening(body) => {
                STOP_LISTENING.serialize(writer);
                body.serialize(writer);
            },
        }
        proof {
            lemma_join(w0, u32_to_be(self@.tag()), self@.body());
        }
    }

    open spec fn self_delimiting() -> bool {
        false
    }

    proof fn lemma_parse_serialized(v: MuxMessageView, tail: Seq<u8>) {
        assert(v.encode() + tail =~= v.encode());
        assert(tail =~= Seq::<u8>::empty());
        v.lemma_decode_encode();
    }
}

impl MuxMessage {
    /// The message itself: it owns its texts.
    pub fn into_owned(self) -> (r: MuxMessage)
        ensures
            r == self,
    {
        self
    }

    /// Puts the request under the id `request_id`; nothing else changes.
    pub fn set_request_id(&mut self, request_id: u32)
        ensures
            final(self)@ == old(self)@.with_request_id(request_id),
    {
        match self {
            MuxMessage::NewSession(body) => {
                body.request_id = request_id;
            },
            MuxMessage::AliveCheck(body) => {
                body.request_id = request_id;
            },
            MuxMessage::Terminate(body) => {
                body.request_id = request_id;
            },
            MuxMessage::OpenFwd(body) => {
                body.request_id = request_id;
            },
            MuxMessage::CloseFwd(body) => {
                body.request_id = request_id;
            },
            MuxMessage::NewStdioFwd(body) => {
                body.request_id = request_id;
            },
            MuxMessage::StopListening(body) => {
                body.request_id = request_id;
            },
        }
    }

    /// The id under which the request is answered.
    pub fn get_request_id(&self) -> (id: u32)
        ensures
            id == self@.request_id(),
    {
        match self {
            MuxMessage::NewSession(body) => body.request_id,
            MuxMessage::AliveCheck(body) => body.request_id,
            MuxMessage::Terminate(body) => body.request_id,
            MuxMessage::OpenFwd(body) => body.request_id,
            MuxMessage::CloseFwd(body) => body.request_id,
            MuxMessage::NewStdioFwd(body) => body.request_id,
            MuxMessage::StopListening(body) => body.request_id,
        }
    }
}

/// The request with this body.
impl From<NewSession> for MuxMessage {
    fn from(value: NewSession) -> (message: MuxMessage) {
        MuxMessage::NewSession(value)
    }
}

impl vstd::std_specs::convert::FromSpecImpl<NewSession> for MuxMessage {
    open spec fn obeys_from_spec() -> bool {
        true
    }

    open spec fn from_spec(value: NewSession) -> MuxMessage {
        MuxMessage::NewSession(value)
    }
}

/// The request with this body.
impl From<AliveCheck> for MuxMessage {
    fn from(value: AliveCheck) -> (message: MuxMessage) {
        MuxMessage::AliveCheck(value)
    }
}

impl vstd::std_specs::convert::FromSpecImpl<AliveCheck> for MuxMessage {
    open spec fn obeys_from_spec() -> bool {
        true
    }

    open spec fn from_spec(value: AliveCheck) -> MuxMessage {
        MuxMessage::AliveCheck(value)
    }
}

/// The request with this body.
impl From<Terminate> for MuxMessage {
    fn from(value: Terminate) -> (message: MuxMessage) {
        MuxMessage::Terminate(value)
    }
}

impl vstd::std_specs::convert::FromSpecImpl<Terminate> for MuxMessage {
    open spec fn obeys_from_spec() -> bool {
        true
    }

    open spec fn from_spec(value: Terminate) -> MuxMessage {
        MuxMessage::Terminate(value)
    }
}

/// The request with this body.
impl From<OpenFwd> for MuxMessage {
    fn from(value: OpenFwd) -> (message: MuxMessage) {
        MuxMessage::OpenFwd(value)
    }
}

impl vstd::std_specs::convert::FromSpecImpl<OpenFwd> for MuxMessage {
    open spec fn obeys_from_spec() -> bool {
        true
    }

    open spec fn from_spec(value: OpenFwd) -> MuxMessage {
        MuxMessage::OpenFwd(value)
    }
}

/// The request with this body.
impl From<CloseFwd> for MuxMessage {
    fn from(value: CloseFwd) -> (message: MuxMessage) {
        MuxMessage::CloseFwd(value)
    }
}

impl vstd::std_specs::convert::FromSpecImpl<CloseFwd> for MuxMessage {
    open spec fn obeys_from_spec() -> bool {
        true
    }

    open spec fn from_spec(value: CloseFwd) -> MuxMessage {
        MuxMessage::CloseFwd(value)
    }
}

/// The request with this body.
impl From<NewStdioFwd> for MuxMessage {
    fn from(value: NewStdioFwd) -> (message: MuxMessage) {
        MuxMessage::NewStdioFwd(value)
    }
}

impl vstd::std_specs::convert::FromSpecImpl<NewStdioFwd> for MuxMessage {
    open spec fn obeys_from_spec() -> bool {
        true
    }

    open spec fn from_spec(value: NewStdioFwd) -> MuxMessage {
        MuxMessage::NewStdioFwd(value)
    }
}

/// The request with this body.
impl From<StopListening> for MuxMessage {
    fn from(value: StopListening) -> (message: MuxMessage) {
        MuxMessage::StopListening(value)
    }
}

impl vstd::std_specs::convert::FromSpecImpl<StopListening> for MuxMessage {
    open spec fn obeys_from_spec() -> bool {
        true
    }

    open spec fn from_spec(value: StopListening) -> MuxMessage {
        MuxMessage::StopListening(value)
    }
}

impl Clone for MuxMessage {
    fn clone(&self) -> (copy: MuxMessage)
        ensures
            copy@ == self@,
    {
        match self {
            MuxMessage::NewSession(body) => MuxMessage::NewSession(body.clone()),
            MuxMessage::AliveCheck(body) => MuxMessage::AliveCheck(*body),
            MuxMessage::Terminate(body) => MuxMessage::Terminate(*body),
            MuxMessage::OpenFwd(body) => MuxMessage::OpenFwd(body.clone()),
            MuxMessage::CloseFwd(body) => MuxMessage::CloseFwd(body.clone()),
            MuxMessage::NewStdioFwd(body) => MuxMessage::NewStdioFwd(body.clone()),
            MuxMessage::StopListening(body) => MuxMessage::StopListening(*body),
        }
    }
}

} // verus!
