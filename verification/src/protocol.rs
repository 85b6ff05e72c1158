//! The wire format: what every message has in common.

use vstd::prelude::*;
use crate::error::{
    error_of,
    Error,
    ErrorKind,
    ErrorView,
    KindView,
    Needed,
    ParseError,
    ParseErrorView,
    Parsed,
    VerboseError,
};
use crate::protocol::strings::{
    lemma_parse_string_serialized,
    lemma_wire_string_len,
    parse_string,
    string_ok,
    wire_string,
};
use crate::protocol::utils::{
    be_bytes,
    lemma_join,
    lemma_parse_many_wire_many,
    lemma_u32_be_round_trip,
    lemma_wire_many_push,
    many,
    parse_many,
    parse_u32,
    parse_verified,
    u32_to_be,
    views,
    wire_many,
    write_all,
};

pub mod client;
pub mod server;
pub mod strings;
pub mod utils;

verus! {

/// The value decoded by an executable parser together with the input it
/// left, as the mathematical outcome that contracts speak of.
pub open spec fn parsed<T: View>(r: core::result::Result<(&[u8], T), ParseError>) -> Parsed<T::V> {
    match r {
        Ok((rest, value)) => Ok((rest@, value@)),
        Err(e) => Err(e@),
    }
}

/// A type with a binary encoding.
pub trait Wire: Sized + View {
    /// The canonical encoding of a value.
    spec fn spec_wire(v: Self::V) -> Seq<u8>;

    /// What decoding `input` gives.
    spec fn spec_parse(input: Seq<u8>) -> Parsed<Self::V>;

    /// The values whose encoding loses nothing.
    spec fn wire_ok(v: Self::V) -> bool;

    /// Decodes one value from the front of `input`.
    fn parse<'a>(input: &'a [u8]) -> (r: core::result::Result<(&'a [u8], Self), ParseError>)
        ensures
            parsed(r) == Self::spec_parse(input@),
    ;

    /// Appends the canonical encoding of `self` to `writer`.
    fn serialize(&self, writer: &mut Vec<u8>)
        ensures
            final(writer)@ == old(writer)@ + Self::spec_wire(self@),
    ;

    /// Whether a value can be decoded with any bytes behind its encoding.
    /// Where this is false the value must end the input.
    spec fn self_delimiting() -> bool;

    /// Decoding an encoding gives the value back and leaves what followed it.
    proof fn lemma_parse_serialized(v: Self::V, tail: Seq<u8>)
        requires
            Self::wire_ok(v),
            Self::self_delimiting() || tail.len() == 0,
        ensures
            Self::spec_parse(Self::spec_wire(v) + tail) == Ok::<(Seq<u8>, Self::V), ParseErrorView>(
                (tail, v),
            ),
    ;
}

/// A decoding outcome as seen from the enclosing structure `name`, which
/// began at `input`: a trail of invalid input gets one more entry.
pub open spec fn in_context<T>(name: Seq<char>, input: Seq<u8>, r: Parsed<T>) -> Parsed<T> {
    match r {
        Err(ParseErrorView::Error(trail)) => Err(
            ParseErrorView::Error(trail.push((input, KindView::Context(name)))),
        ),
        _ => r,
    }
}

/// Records that `r` was decoded as part of the structure `name` that began
/// at `input`.
pub fn context<'a, T: View>(
    name: &'static str,
    input: &[u8],
    r: core::result::Result<(&'a [u8], T), ParseError>,
) -> (out: core::result::Result<(&'a [u8], T), ParseError>)
    ensures
        parsed(out) == in_context(name@, input@, parsed(r)),
{
    match r {
        Err(ParseError::Error(e)) => Err(ParseError::Error(e.add_context(input, name))),
        other => other,
    }
}

/// The number that opens a handshake.
pub const MUX_HELLO: u32 = 0x00000001;

/// A named extension of the protocol, announced in a handshake.
#[derive(Debug, PartialEq, Eq)]
pub struct Extension {
    pub name: String,
    pub value: String,
}

/// The mathematical value of an [`Extension`].
pub struct ExtensionView {
    pub name: Seq<char>,
    pub value: Seq<char>,
}

impl View for Extension {
    type V = ExtensionView;

    open spec fn view(&self) -> ExtensionView {
        ExtensionView { name: self.name@, value: self.value@ }
    }
}

impl ExtensionView {
    /// The encoding of the extension: its name, then its value.
    pub open spec fn encode(self) -> Seq<u8> {
        wire_string(self.name) + wire_string(self.value)
    }

    /// Whether the encoding loses nothing: both texts fit their byte count.
    pub open spec fn encodable(self) -> bool {
        string_ok(self.name) && string_ok(self.value)
    }

    /// The name, then the value.
    pub open spec fn decode_fields(s: Seq<u8>) -> Parsed<ExtensionView> {
        match parse_string(s) {
            Err(e) => Err(e),
            Ok((s1, name)) => match parse_string(s1) {
                Err(e) => Err(e),
                Ok((s2, value)) => Ok((s2, ExtensionView { name, value })),
            },
        }
    }

    /// What decoding `s` as an extension gives.
    pub open spec fn decode(s: Seq<u8>) -> Parsed<ExtensionView> {
        in_context("Extension"@, s, Self::decode_fields(s))
    }

    /// Decoding the encoding of an extension gives the extension and
    /// leaves what followed it.
    pub proof fn lemma_decode_encode(self, tail: Seq<u8>)
        requires
            self.encodable(),
        ensures
            Self::decode(self.encode() + tail) == Ok::<(Seq<u8>, ExtensionView), ParseErrorView>(
                (tail, self),
            ),
    {
        let s1 = wire_string(self.value) + tail;
        lemma_join(wire_string(self.name), wire_string(self.value), tail);
        lemma_parse_string_serialized(self.name, s1);
        lemma_parse_string_serialized(self.value, tail);
    }
}

impl Extension {
    fn fields<'a>(input: &'a [u8]) -> (r: core::result::Result<(&'a [u8], Extension), ParseError>)
        ensures
            parsed(r) == ExtensionView::decode_fields(input@),
    {
        let (rest, name) = String::parse(input)?;
        let (rest, value) = String::parse(rest)?;
        Ok((rest, Extension { name, value }))
    }
}

impl Wire for Extension {
    open spec fn spec_wire(v: ExtensionView) -> Seq<u8> {
        v.encode()
    }

    open spec fn spec_parse(input: Seq<u8>) -> Parsed<ExtensionView> {
        ExtensionView::decode(input)
    }

    open spec fn wire_ok(v: ExtensionView) -> bool {
        v.encodable()
    }

    fn parse<'a>(input: &'a [u8]) -> (r: core::result::Result<(&'a [u8], Extension), ParseError>) {
        context("Extension", input, Self::fields(input))
    }

    fn serialize(&self, writer: &mut Vec<u8>) {
        let ghost w0 = writer@;
        self.name.serialize(writer);
        self.value.serialize(writer);
        proof {
            lemma_join(w0, wire_string(self.name@), wire_string(self.value@));
        }
    }

    open spec fn self_delimiting() -> bool {
        true
    }

    proof fn lemma_parse_serialized(v: ExtensionView, tail: Seq<u8>) {
        v.lemma_decode_encode(tail);
    }
}

/// The handshake that each side sends once, right after connecting.
#[derive(Debug, PartialEq, Eq)]
pub struct Hello {
    pub version: u32,
    pub extensions: Vec<Extension>,
}

/// The mathematical value of a [`Hello`].
pub struct HelloView {
    pub version: u32,
    pub extensions: Seq<ExtensionView>,
}

impl View for Hello {
    type V = HelloView;

    open spec fn view(&self) -> HelloView {
        HelloView { version: self.version, extensions: views(self.extensions@) }
    }
}

/// The encoding of a list of extensions.
pub open spec fn wire_extensions(extensions: Seq<ExtensionView>) -> Seq<u8> {
    wire_many(extensions, |e: ExtensionView| e.encode())
}

/// Decoding the extensions of a handshake: they go on until the input is
/// exhausted.
pub open spec fn parse_extensions(s: Seq<u8>) -> Parsed<Seq<ExtensionView>> {
    parse_many(s, |s: Seq<u8>| ExtensionView::decode(s), 1)
}

impl HelloView {
    /// The encoding of the handshake: the number that opens it, the
    /// version, then the extensions.
    pub open spec fn encode(self) -> Seq<u8> {
        u32_to_be(MUX_HELLO) + u32_to_be(self.version) + wire_extensions(self.extensions)
    }

    /// Whether the encoding loses nothing: every text fits its byte count.
    pub open spec fn encodable(self) -> bool {
        forall|i: int| 0 <= i < self.extensions.len() ==> (#[trigger] self.extensions[i]).encodable()
    }

    /// The opening number, the version and the extensions.
    pub open spec fn decode_fields(s: Seq<u8>) -> Parsed<HelloView> {
        match parse_verified(s, set![MUX_HELLO]) {
            Err(e) => Err(e),
            Ok((s1, _)) => match parse_u32(s1) {
                Err(e) => Err(e),
                Ok((s2, version)) => match parse_extensions(s2) {
                    Err(e) => Err(e),
                    Ok((s3, extensions)) => Ok((s3, HelloView { version, extensions })),
                },
            },
        }
    }

    /// What decoding `s` as a handshake gives.
    pub open spec fn decode(s: Seq<u8>) -> Parsed<HelloView> {
        in_context("Hello"@, s, Self::decode_fields(s))
    }

    /// Decoding the encoding of a handshake gives the handshake and leaves
    /// nothing. The handshake must end the input: its extensions go on to
    /// the end.
    pub proof fn lemma_decode_encode(self)
        requires
            self.encodable(),
        ensures
            Self::decode(self.encode()) == Ok::<(Seq<u8>, HelloView), ParseErrorView>(
                (Seq::<u8>::empty(), self),
            ),
    {
        let none = Seq::<u8>::empty();
        let s2 = wire_extensions(self.extensions);
        let s1 = u32_to_be(self.version) + s2;
        lemma_join(u32_to_be(MUX_HELLO), u32_to_be(self.version), s2);
        u32::lemma_parse_serialized(MUX_HELLO, s1);
        u32::lemma_parse_serialized(self.version, s2);
        Self::lemma_parse_extensions(self.extensions);
        assert(s2 + none =~= s2);
    }

    /// Decoding encoded extensions gives the extensions and leaves nothing.
    pub proof fn lemma_parse_extensions(extensions: Seq<ExtensionView>)
        requires
            forall|i: int| 0 <= i < extensions.len() ==> (#[trigger] extensions[i]).encodable(),
        ensures
            parse_extensions(wire_extensions(extensions) + Seq::<u8>::empty()) == Ok::<
                (Seq<u8>, Seq<ExtensionView>),
                ParseErrorView,
            >((Seq::<u8>::empty(), extensions)),
    {
        let enc = |e: ExtensionView| e.encode();
        let elem = |s: Seq<u8>| ExtensionView::decode(s);
        assert forall|i: int| 0 <= i < extensions.len() implies (#[trigger] enc(
            extensions[i],
        )).len() >= 1 by {
            lemma_wire_string_len(extensions[i].name);
        }
        assert forall|i: int, t: Seq<u8>| 0 <= i < extensions.len() implies #[trigger] elem(
            enc(extensions[i]) + t,
        ) == Ok::<(Seq<u8>, ExtensionView), ParseErrorView>((t, extensions[i])) by {
            extensions[i].lemma_decode_encode(t);
        }
        lemma_parse_many_wire_many(extensions, enc, elem, 1, Seq::<u8>::empty());
    }
}

/// Decodes a 32-bit number and accepts it only as the number that opens a
/// handshake.
fn hello_magic<'a>(input: &'a [u8]) -> (r: core::result::Result<(&'a [u8], u32), ParseError>)
    ensures
        parsed(r) == parse_verified(input@, set![MUX_HELLO]),
{
    let (rest, magic) = u32::parse(input)?;
    if magic == MUX_HELLO {
        Ok((rest, magic))
    } else {
        Err(ParseError::Error(VerboseError::from_error_kind(input, ErrorKind::Verify)))
    }
}

/// Appends the encoding of each extension to `writer`.
fn write_extensions(extensions: &Vec<Extension>, writer: &mut Vec<u8>)
    ensures
        final(writer)@ == old(writer)@ + wire_extensions(views(extensions@)),
{
    let ghost enc = |e: ExtensionView| e.encode();
    let ghost all = views(extensions@);
    let mut i: usize = 0;
    while i < extensions.len()
        invariant
            i <= extensions.len(),
            all == views(extensions@),
            enc == (|e: ExtensionView| e.encode()),
            writer@ == old(writer)@ + wire_many(all.subrange(0, i as int), enc),
        decreases extensions.len() - i,
    {
        proof {
            lemma_wire_many_push(all.subrange(0, i as int), all[i as int], enc);
            assert(all.subrange(0, i as int).push(all[i as int]) =~= all.subrange(0, i + 1));
        }
        extensions[i].serialize(writer);
        i = i + 1;
    }
    assert(all.subrange(0, i as int) =~= all);
}

impl Hello {
    fn fields<'a>(input: &'a [u8]) -> (r: core::result::Result<(&'a [u8], Hello), ParseError>)
        ensures
            parsed(r) == HelloView::decode_fields(input@),
    {
        let (rest, _) = hello_magic(input)?;
        let (rest, version) = u32::parse(rest)?;
        proof {
            let by_trait = |s: Seq<u8>| Extension::spec_parse(s);
            let by_name = |s: Seq<u8>| ExtensionView::decode(s);
            assert(by_trait =~= by_name);
        }
        let (rest, extensions) = many::<Extension>(rest, 1)?;
        Ok((rest, Hello { version, extensions }))
    }
}

impl Wire for Hello {
    open spec fn spec_wire(v: HelloView) -> Seq<u8> {
        v.encode()
    }

    open spec fn spec_parse(input: Seq<u8>) -> Parsed<HelloView> {
        HelloView::decode(input)
    }

    open spec fn wire_ok(v: HelloView) -> bool {
        v.encodable()
    }

    fn parse<'a>(input: &'a [u8]) -> (r: core::result::Result<(&'a [u8], Hello), ParseError>) {
        context("Hello", input, Self::fields(input))
    }

    fn serialize(&self, writer: &mut Vec<u8>) {
        let ghost w0 = writer@;
        MUX_HELLO.serialize(writer);
        self.version.serialize(writer);
        write_extensions(&self.extensions, writer);
        proof {
            let e2 = u32_to_be(MUX_HELLO) + u32_to_be(self.version);
            lemma_join(w0, u32_to_be(MUX_HELLO), u32_to_be(self.version));
            lemma_join(w0, e2, wire_extensions(self@.extensions));
        }
    }

    open spec fn self_delimiting() -> bool {
        false
    }

    proof fn lemma_parse_serialized(v: HelloView, tail: Seq<u8>) {
        assert(v.encode() + tail =~= v.encode());
        assert(tail =~= Seq::<u8>::empty());
        v.lemma_decode_encode();
    }
}

/// A frame: the byte count of the payload as a 32-bit number, then the
/// payload.
pub open spec fn frame(payload: Seq<u8>) -> Seq<u8> {
    u32_to_be(payload.len() as u32) + payload
}

/// Taking the payload of one frame from the front of a byte stream: a
/// stream that ends before the frame does is incomplete by the number of
/// bytes that are missing.
#[verifier::opaque]
pub open spec fn parse_payload(s: Seq<u8>) -> Parsed<Seq<u8>> {
    match parse_u32(s) {
        Err(e) => Err(e),
        Ok((rest, n)) => if rest.len() < n {
            Err(ParseErrorView::Incomplete(Needed::Size((n - rest.len()) as usize)))
        } else {
            Ok((rest.subrange(n as int, rest.len() as int), rest.subrange(0, n as int)))
        },
    }
}

/// Taking one frame from the front of a byte stream, see
/// [`parse_payload`].
pub open spec fn parse_frame(s: Seq<u8>) -> Parsed<Seq<u8>> {
    in_context("Packet"@, s, parse_payload(s))
}

/// The failure that bytes left behind a decoded value are: the end of the
/// input was expected where they begin.
pub open spec fn trailing(left: Seq<u8>) -> ErrorView {
    ErrorView::Parsing(seq![(left, KindView::Code(ErrorKind::Eof))])
}

/// Receiving one value from a byte stream: one frame is taken from the
/// front of the stream and `decode` is applied to its payload, which it
/// must use up. The result is the rest of the stream and the value.
pub open spec fn receive<V>(stream: Seq<u8>, decode: spec_fn(Seq<u8>) -> Parsed<V>) -> core::result::Result<
    (Seq<u8>, V),
    ErrorView,
> {
    match parse_frame(stream) {
        Err(e) => Err(error_of(e)),
        Ok((rest, payload)) => match decode(payload) {
            Err(e) => Err(error_of(e)),
            Ok((left, value)) => if left.len() == 0 {
                Ok((rest, value))
            } else {
                Err(trailing(left))
            },
        },
    }
}

/// Taking a frame from a stream that begins with it gives its payload and
/// leaves what followed it.
pub proof fn lemma_parse_frame(payload: Seq<u8>, tail: Seq<u8>)
    requires
        payload.len() <= u32::MAX,
    ensures
        parse_frame(frame(payload) + tail) == Ok::<(Seq<u8>, Seq<u8>), ParseErrorView>(
            (tail, payload),
        ),
{
    reveal(parse_payload);
    let rest = payload + tail;
    lemma_join(u32_to_be(payload.len() as u32), payload, tail);
    u32::lemma_parse_serialized(payload.len() as u32, rest);
    assert(rest.subrange(0, payload.len() as int) =~= payload);
    assert(rest.subrange(payload.len() as int, rest.len() as int) =~= tail);
}

/// What is sent is what is received: a stream that begins with the frame
/// of an encoded value gives that value, with every byte of the frame
/// used, and leaves what followed the frame.
pub proof fn lemma_frame_integrity<T: Wire>(v: T::V, tail: Seq<u8>)
    requires
        T::wire_ok(v),
        T::spec_wire(v).len() <= u32::MAX,
    ensures
        receive(frame(T::spec_wire(v)) + tail, |s: Seq<u8>| T::spec_parse(s)) == Ok::<
            (Seq<u8>, T::V),
            ErrorView,
        >((tail, v)),
{
    let payload = T::spec_wire(v);
    lemma_parse_frame(payload, tail);
    T::lemma_parse_serialized(v, Seq::<u8>::empty());
    assert(payload + Seq::<u8>::empty() =~= payload);
}

/// A stream that ends before the frame that it announces does is an
/// incomplete input, by the number of bytes that are missing, whatever
/// would have been decoded from the payload.
pub proof fn lemma_truncated_frame<V>(
    declared: u32,
    available: Seq<u8>,
    decode: spec_fn(Seq<u8>) -> Parsed<V>,
)
    requires
        available.len() < declared,
    ensures
        receive(u32_to_be(declared) + available, decode) == Err::<(Seq<u8>, V), ErrorView>(
            ErrorView::Incomplete(Needed::Size((declared - available.len()) as usize)),
        ),
{
    reveal(parse_payload);
    u32::lemma_parse_serialized(declared, available);
}

/// The buffer that holds one frame at a time, on its way out or in.
#[derive(Debug, PartialEq, Eq)]
pub struct Packet {
    buffer: Vec<u8>,
}

impl View for Packet {
    type V = Seq<u8>;

    closed spec fn view(&self) -> Seq<u8> {
        self.buffer@
    }
}

impl From<Vec<u8>> for Packet {
    /// A packet that holds `buffer`.
    fn from(buffer: Vec<u8>) -> (packet: Packet)
        ensures
            packet@ == buffer@,
    {
        Packet { buffer }
    }
}

impl vstd::std_specs::convert::FromSpecImpl<Vec<u8>> for Packet {
    open spec fn obeys_from_spec() -> bool {
        true
    }

    closed spec fn from_spec(buffer: Vec<u8>) -> Packet {
        Packet { buffer }
    }
}

impl Packet {
    /// Fills the packet with the frame of `val`: room for the byte count
    /// is left in front, the value is encoded behind it, and the count is
    /// written once it is known.
    pub fn set<T: Wire>(&mut self, val: &T)
        requires
            T::spec_wire(val@).len() <= u32::MAX,
        ensures
            final(self)@ == frame(T::spec_wire(val@)),
    {
        let ghost payload = T::spec_wire(val@);
        self.buffer.clear();
        0u32.serialize(&mut self.buffer);
        val.serialize(&mut self.buffer);
        proof {
            lemma_u32_be_round_trip(0u32);
        }
        let size: u32 = (self.buffer.len() - 4) as u32;
        let count = be_bytes(size);
        let mut i: usize = 0;
        while i < 4
            invariant
                i <= 4,
                count@ == u32_to_be(size),
                self.buffer@.len() == 4 + payload.len(),
                forall|j: int| 0 <= j < i ==> self.buffer@[j] == count@[j],
                forall|j: int| 0 <= j < payload.len() ==> self.buffer@[4 + j] == payload[j],
            decreases 4 - i,
        {
            self.buffer.set(i, count[i]);
            i = i + 1;
        }
        assert(self@ =~= frame(payload));
    }

    /// The bytes that the packet holds.
    pub fn as_slice(&self) -> (bytes: &[u8])
        ensures
            bytes@ == self@,
    {
        self.buffer.as_slice()
    }

    /// Appends the bytes that the packet holds to `writer`.
    pub fn serialize(&self, writer: &mut Vec<u8>)
        ensures
            final(writer)@ == old(writer)@ + self@,
    {
        write_all(writer, self.buffer.as_slice());
    }

    /// Takes one frame from the front of `input`: the packet that holds
    /// its payload, and what is left of the input.
    pub fn parse<'a>(input: &'a [u8]) -> (r: core::result::Result<(&'a [u8], Packet), ParseError>)
        ensures
            parsed(r) == parse_frame(input@),
    {
        let mut packet = Packet { buffer: Vec::new() };
        let rest = packet.recv(input)?;
        Ok((rest, packet))
    }

    /// Decodes the byte count of a frame and tells where in `input` its
    /// payload ends.
    fn payload_end<'a>(input: &'a [u8]) -> (r: core::result::Result<(&'a [u8], usize), ParseError>)
        ensures
            match r {
                Ok((rest, n)) => n <= rest@.len() && parse_payload(input@) == Ok::<
                    (Seq<u8>, Seq<u8>),
                    ParseErrorView,
                >((rest@.subrange(n as int, rest@.len() as int), rest@.subrange(0, n as int))),
                Err(e) => parse_payload(input@) == Err::<(Seq<u8>, Seq<u8>), ParseErrorView>(e@),
            },
    {
        proof {
            reveal(parse_payload);
        }
        let (rest, n) = u32::parse(input)?;
        let n: usize = n as usize;
        let available: usize = rest.len();
        if available < n {
            return Err(ParseError::Incomplete(Needed::Size(n - available)));
        }
        Ok((rest, n))
    }

    /// The number of bytes that `stream` still lacks to begin with a whole
    /// frame: zero where it does, or where it is invalid.
    pub fn missing(stream: &[u8]) -> (n: usize)
        ensures
            n == match parse_frame(stream@) {
                Err(ParseErrorView::Incomplete(Needed::Size(m))) => m,
                _ => 0usize,
            },
    {
        match Self::payload_end(stream) {
            Err(ParseError::Incomplete(Needed::Size(m))) => m,
            _ => 0,
        }
    }

    /// Takes one frame from the front of `stream` into the packet, which
    /// then holds the payload. Hands back what is left of the stream. On
    /// failure the packet is left empty.
    pub fn recv<'a>(&mut self, stream: &'a [u8]) -> (r: core::result::Result<&'a [u8], ParseError>)
        ensures
            match r {
                Ok(rest) => parse_frame(stream@) == Ok::<(Seq<u8>, Seq<u8>), ParseErrorView>(
                    (rest@, final(self)@),
                ),
                Err(e) => parse_frame(stream@) == Err::<(Seq<u8>, Seq<u8>), ParseErrorView>(e@)
                    && final(self)@ == Seq::<u8>::empty(),
            },
    {
        self.buffer.clear();
        match Self::payload_end(stream) {
            Ok((rest, n)) => {
                write_all(&mut self.buffer, vstd::slice::slice_subrange(rest, 0, n));
                Ok(vstd::slice::slice_subrange(rest, n, rest.len()))
            },
            Err(ParseError::Error(e)) => Err(ParseError::Error(e.add_context(stream, "Packet"))),
            Err(e) => Err(e),
        }
    }

    /// Receives one value from `stream`: takes one frame into the packet
    /// and decodes its payload, all of it, see [`receive`]. Hands back
    /// what is left of the stream and the value.
    pub fn recv_next<'a, T: Wire>(&mut self, stream: &'a [u8]) -> (r: core::result::Result<
        (&'a [u8], T),
        Error,
    >)
        ensures
            received(r) == receive(stream@, |s: Seq<u8>| T::spec_parse(s)),
    {
        let rest = match self.recv(stream) {
            Ok(rest) => rest,
            Err(e) => {
                return Err(Error::from_parse(e));
            },
        };
        match T::parse(self.buffer.as_slice()) {
            Err(e) => Err(Error::from_parse(e)),
            Ok((left, value)) => {
                if left.len() == 0 {
                    Ok((rest, value))
                } else {
                    Err(Error::Parsing(VerboseError::from_error_kind(left, ErrorKind::Eof)))
                }
            },
        }
    }
}

/// What was received together with the stream that was left, as the
/// mathematical outcome that contracts speak of.
pub open spec fn received<T: View>(r: core::result::Result<(&[u8], T), Error>) -> core::result::Result<
    (Seq<u8>, T::V),
    ErrorView,
> {
    match r {
        Ok((rest, value)) => Ok((rest@, value@)),
        Err(e) => Err(e@),
    }
}

impl Clone for Extension {
    fn clone(&self) -> (copy: Extension)
        ensures
            copy@ == self@,
    {
        Extension { name: self.name.clone(), value: self.value.clone() }
    }
}

impl Clone for Hello {
    fn clone(&self) -> (copy: Hello)
        ensures
            copy@ == self@,
    {
        let mut extensions: Vec<Extension> = Vec::new();
        let mut i: usize = 0;
        while i < self.extensions.len()
            invariant
                i <= self.extensions@.len(),
                extensions@.len() == i,
                forall|j: int| 0 <= j < i ==> (#[trigger] extensions@[j])@ == self.extensions@[j]@,
            decreases self.extensions@.len() - i,
        {
            extensions.push(self.extensions[i].clone());
            i = i + 1;
        }
        assert(views(extensions@) =~= views(self.extensions@));
        Hello { version: self.version, extensions }
    }
}

impl Clone for Packet {
    fn clone(&self) -> (copy: Packet)
        ensures
            copy@ == self@,
    {
        Packet { buffer: vstd::slice::slice_to_vec(self.buffer.as_slice()) }
    }
}

} // verus!
