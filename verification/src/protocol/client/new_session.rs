//! Asking the peer to run a command in a new session.

use vstd::prelude::*;
use crate::error::{ParseError, ParseErrorView, Parsed};
use crate::protocol::strings::{
    lemma_parse_string_serialized,
    lemma_wire_string_len,
    parse_string,
    string_ok,
    wire_string,
};
use crate::protocol::utils::{
    lemma_parse_many_wire_many,
    lemma_join,
    lemma_push_is_join,
    lemma_wire_many_push,
    many,
    nul,
    parse_bool,
    parse_many,
    parse_nul,
    parse_u32,
    u32_to_be,
    views,
    wire_bool,
    wire_many,
};
use crate::protocol::{context, in_context, parsed, Wire};

verus! {

/// A request to run `command` on the peer's side, with the three
/// descriptors that follow the request as its standard streams.
#[derive(Debug, PartialEq, Eq)]
pub struct NewSession {
    pub request_id: u32,
    pub want_tty: bool,
    pub want_x11_forwarding: bool,
    pub want_agent: bool,
    pub subsystem: bool,
    pub escape_char: u32,
    pub terminal_type: String,
    pub command: String,
    pub environment: Vec<String>,
}

/// The mathematical value of a [`NewSession`].
pub struct NewSessionView {
    pub request_id: u32,
    pub want_tty: bool,
    pub want_x11_forwarding: bool,
    pub want_agent: bool,
    pub subsystem: bool,
    pub escape_char: u32,
    pub terminal_type: Seq<char>,
    pub command: Seq<char>,
    pub environment: Seq<Seq<char>>,
}

impl View for NewSession {
    type V = NewSessionView;

    open spec fn view(&self) -> NewSessionView {
        NewSessionView {
            request_id: self.request_id,
            want_tty: self.want_tty,
            want_x11_forwarding: self.want_x11_forwarding,
            want_agent: self.want_agent,
            subsystem: self.subsystem,
            escape_char: self.escape_char,
            terminal_type: self.terminal_type@,
            command: self.command@,
            environment: views(self.environment@),
        }
    }
}

/// The fewest bytes that can begin an environment entry: its byte count.
pub const ENTRY_LEAST: usize = 4;

/// The encoding of the environment entries, without the byte that ends
/// them.
pub open spec fn wire_entries(entries: Seq<Seq<char>>) -> Seq<u8> {
    wire_many(entries, |e: Seq<char>| wire_string(e))
}

/// Taking the zero byte from an input that holds nothing else leaves
/// nothing.
pub proof fn lemma_end_alone()
    ensures
        parse_nul(seq![0u8]) == Ok::<(Seq<u8>, ()), ParseErrorView>((Seq::<u8>::empty(), ())),
{
    reveal(parse_nul);
    let end = seq![0u8];
    assert(end.subrange(1, end.len() as int) =~= Seq::<u8>::empty());
}

/// Decoding the environment entries: texts for as long as a byte count can
/// follow.
pub open spec fn parse_entries(s: Seq<u8>) -> Parsed<Seq<Seq<char>>> {
    parse_many(s, |s: Seq<u8>| parse_string(s), ENTRY_LEAST as nat)
}

impl NewSessionView {
    /// The encoding of the message: the request id, a reserved text that
    /// is sent empty, four flags, the escape character, the terminal type,
    /// the command, the environment entries, and one zero byte.
    pub open spec fn encode(self) -> Seq<u8> {
        u32_to_be(self.request_id) + wire_string(Seq::<char>::empty()) + wire_bool(self.want_tty)
            + wire_bool(self.want_x11_forwarding) + wire_bool(self.want_agent) + wire_bool(
            self.subsystem,
        ) + u32_to_be(self.escape_char) + wire_string(self.terminal_type) + wire_string(
            self.command,
        ) + wire_entries(self.environment) + seq![0u8]
    }

    /// Whether the encoding loses nothing: every text fits its byte count.
    pub open spec fn encodable(self) -> bool {
        &&& string_ok(self.terminal_type)
        &&& string_ok(self.command)
        &&& forall|i: int| 0 <= i < self.environment.len() ==> string_ok(#[trigger] self.environment[i])
    }

    /// The fields in order; the first that fails decides. The reserved
    /// text is decoded and dropped, whatever it holds. The environment
    /// entries must be followed by a zero byte.
    pub open spec fn decode_fields(s: Seq<u8>) -> Parsed<NewSessionView> {
        match parse_u32(s) {
            Err(e) => Err(e),
            Ok((s1, request_id)) => match parse_string(s1) {
                Err(e) => Err(e),
                Ok((s2, _reserved)) => match parse_bool(s2) {
                    Err(e) => Err(e),
                    Ok((s3, want_tty)) => match parse_bool(s3) {
                        Err(e) => Err(e),
                        Ok((s4, want_x11_forwarding)) => match parse_bool(s4) {
                            Err(e) => Err(e),
                            Ok((s5, want_agent)) => match parse_bool(s5) {
                                Err(e) => Err(e),
                                Ok((s6, subsystem)) => match parse_u32(s6) {
                                    Err(e) => Err(e),
                                    Ok((s7, escape_char)) => match parse_string(s7) {
                                        Err(e) => Err(e),
                                        Ok((s8, terminal_type)) => match parse_string(s8) {
                                            Err(e) => Err(e),
                                            Ok((s9, command)) => Self::decode_environment(
                                                s9,
                                                NewSessionView {
                                                    request_id,
                                                    want_tty,
                                                    want_x11_forwarding,
                                                    want_agent,
                                                    subsystem,
                                                    escape_char,
                                                    terminal_type,
                                                    command,
                                                    environment: Seq::empty(),
                                                },
                                            ),
                                        },
                                    },
                                },
                            },
                        },
                    },
                },
            },
        }
    }

    /// The end of the message: the environment entries and the zero byte
    /// behind them, put into `head`, which holds the fields before them.
    pub open spec fn decode_environment(s: Seq<u8>, head: NewSessionView) -> Parsed<
        NewSessionView,
    > {
        match parse_entries(s) {
            Err(e) => Err(e),
            Ok((s1, environment)) => match parse_nul(s1) {
                Err(e) => Err(e),
                Ok((s2, _)) => Ok((s2, NewSessionView { environment, ..head })),
            },
        }
    }

    /// What decoding `s` as this message gives.
    pub open spec fn decode(s: Seq<u8>) -> Parsed<NewSessionView> {
        in_context("NewSession"@, s, Self::decode_fields(s))
    }

    /// Decoding the encoding of a message gives the message and leaves
    /// nothing. The message must end the input: what followed it could be
    /// taken for one more environment entry.
    pub proof fn lemma_decode_encode(self)
        requires
            self.encodable(),
        ensures
            Self::decode(self.encode()) == Ok::<(Seq<u8>, NewSessionView), ParseErrorView>(
                (Seq::<u8>::empty(), self),
            ),
    {
        let end = seq![0u8];
        let p1 = u32_to_be(self.request_id);
        let p2 = wire_string(Seq::<char>::empty());
        let p3 = wire_bool(self.want_tty);
        let p4 = wire_bool(self.want_x11_forwarding);
        let p5 = wire_bool(self.want_agent);
        let p6 = wire_bool(self.subsystem);
        let p7 = u32_to_be(self.escape_char);
        let p8 = wire_string(self.terminal_type);
        let p9 = wire_string(self.command);
        let p10 = wire_entries(self.environment);
        let e2 = p1 + p2;
        let e3 = e2 + p3;
        let e4 = e3 + p4;
        let e5 = e4 + p5;
        let e6 = e5 + p6;
        let e7 = e6 + p7;
        let e8 = e7 + p8;
        let e9 = e8 + p9;
        let s9 = p10 + end;
        let s8 = p9 + s9;
        let s7 = p8 + s8;
        let s6 = p7 + s7;
        let s5 = p6 + s6;
        let s4 = p5 + s5;
        let s3 = p4 + s4;
        let s2 = p3 + s3;
        let s1 = p2 + s2;
        lemma_join(e9, p10, end);
        lemma_join(e8, p9, s9);
        lemma_join(e7, p8, s8);
        lemma_join(e6, p7, s7);
        lemma_join(e5, p6, s6);
        lemma_join(e4, p5, s5);
        lemma_join(e3, p4, s4);
        lemma_join(e2, p3, s3);
        lemma_join(p1, p2, s2);
        u32::lemma_parse_serialized(self.request_id, s1);
        lemma_parse_string_serialized(Seq::<char>::empty(), s2);
        bool::lemma_parse_serialized(self.want_tty, s3);
        bool::lemma_parse_serialized(self.want_x11_forwarding, s4);
        bool::lemma_parse_serialized(self.want_agent, s5);
        bool::lemma_parse_serialized(self.subsystem, s6);
        u32::lemma_parse_serialized(self.escape_char, s7);
        lemma_parse_string_serialized(self.terminal_type, s8);
        lemma_parse_string_serialized(self.command, s9);
        Self::lemma_parse_entries(self.environment, end);
        lemma_end_alone();
    }

    /// Decoding encoded environment entries gives the entries and leaves
    /// what followed them, where that is too short to begin an entry.
    pub proof fn lemma_parse_entries(entries: Seq<Seq<char>>, tail: Seq<u8>)
        requires
            forall|i: int| 0 <= i < entries.len() ==> string_ok(#[trigger] entries[i]),
            tail.len() < ENTRY_LEAST,
        ensures
            parse_entries(wire_entries(entries) + tail) == Ok::<
                (Seq<u8>, Seq<Seq<char>>),
                ParseErrorView,
            >((tail, entries)),
    {
        let enc = |e: Seq<char>| wire_string(e);
        let elem = |s: Seq<u8>| parse_string(s);
        assert forall|i: int| 0 <= i < entries.len() implies (#[trigger] enc(entries[i])).len()
            >= ENTRY_LEAST by {
            lemma_wire_string_len(entries[i]);
        }
        assert forall|i: int, t: Seq<u8>| 0 <= i < entries.len() implies #[trigger] elem(
            enc(entries[i]) + t,
        ) == Ok::<(Seq<u8>, Seq<char>), ParseErrorView>((t, entries[i])) by {
            lemma_parse_string_serialized(entries[i], t);
        }
        lemma_parse_many_wire_many(entries, enc, elem, ENTRY_LEAST as nat, tail);
    }
}

/// Appends the encoding of each entry to `writer`.
fn write_entries(entries: &Vec<String>, writer: &mut Vec<u8>)
    ensures
        final(writer)@ == old(writer)@ + wire_entries(views(entries@)),
{
    let ghost enc = |e: Seq<char>| wire_string(e);
    let ghost all = views(entries@);
    let mut i: usize = 0;
    while i < entries.len()
        invariant
            i <= entries.len(),
            all == views(entries@),
            enc == (|e: Seq<char>| wire_string(e)),
            writer@ == old(writer)@ + wire_many(all.subrange(0, i as int), enc),
        decreases entries.len() - i,
    {
        proof {
            lemma_wire_many_push(all.subrange(0, i as int), all[i as int], enc);
            assert(all.subrange(0, i as int).push(all[i as int]) =~= all.subrange(0, i + 1));
        }
        entries[i].serialize(writer);
        i = i + 1;
    }
    assert(all.subrange(0, i as int) =~= all);
}

impl NewSession {
    fn fields<'a>(input: &'a [u8]) -> (r: core::result::Result<(&'a [u8], NewSession), ParseError>)
        ensures
            parsed(r) == NewSessionView::decode_fields(input@),
    {
        let (rest, request_id) = u32::parse(input)?;
        let (rest, _reserved) = String::parse(rest)?;
        let (rest, want_tty) = bool::parse(rest)?;
        let (rest, want_x11_forwarding) = bool::parse(rest)?;
        let (rest, want_agent) = bool::parse(rest)?;
        let (rest, subsystem) = bool::parse(rest)?;
        let (rest, escape_char) = u32::parse(rest)?;
        let (rest, terminal_type) = String::parse(rest)?;
        let (rest, command) = String::parse(rest)?;
        proof {
            let by_trait = |s: Seq<u8>| String::spec_parse(s);
            let by_name = |s: Seq<u8>| parse_string(s);
            assert(by_trait =~= by_name);
        }
        let (rest, environment) = many::<String>(rest, ENTRY_LEAST)?;
        let (rest, _) = nul(rest)?;
        Ok(
            (
                rest,
                NewSession {
                    request_id,
                    want_tty,
                    want_x11_forwarding,
                    want_agent,
                    subsystem,
                    escape_char,
                    terminal_type,
                    command,
                    environment,
                },
            ),
        )
    }

    /// The message itself: it owns its texts.
    pub fn into_owned(self) -> (r: NewSession)
        ensures
            r == self,
    {
        self
    }
}

impl Wire for NewSession {
    open spec fn spec_wire(v: NewSessionView) -> Seq<u8> {
        v.encode()
    }

    open spec fn spec_parse(input: Seq<u8>) -> Parsed<NewSessionView> {
        NewSessionView::decode(input)
    }

    open spec fn wire_ok(v: NewSessionView) -> bool {
        v.encodable()
    }

    fn parse<'a>(input: &'a [u8]) -> (r: core::result::Result<(&'a [u8], NewSession), ParseError>) {
        context("NewSession", input, Self::fields(input))
    }

    fn serialize(&self, writer: &mut Vec<u8>) {
        let ghost v = self@;
        let ghost w0 = writer@;
        self.request_id.serialize(writer);
        let ghost e1 = u32_to_be(v.request_id);
        String::new().serialize(writer);
        let ghost e2 = e1 + wire_string(Seq::<char>::empty());
        self.want_tty.serialize(writer);
        let ghost e3 = e2 + wire_bool(v.want_tty);
        self.want_x11_forwarding.serialize(writer);
        let ghost e4 = e3 + wire_bool(v.want_x11_forwarding);
        self.want_agent.serialize(writer);
        let ghost e5 = e4 + wire_bool(v.want_agent);
        self.subsystem.serialize(writer);
        let ghost e6 = e5 + wire_bool(v.subsystem);
        self.escape_char.serialize(writer);
        let ghost e7 = e6 + u32_to_be(v.escape_char);
        self.terminal_type.serialize(writer);
        let ghost e8 = e7 + wire_string(v.terminal_type);
        self.command.serialize(writer);
        let ghost e9 = e8 + wire_string(v.command);
        write_entries(&self.environment, writer);
        let ghost e10 = e9 + wire_entries(v.environment);
        let ghost w10 = writer@;
        writer.push(0u8);
        proof {
            lemma_join(w0, e1, wire_string(Seq::<char>::empty()));
            lemma_join(w0, e2, wire_bool(v.want_tty));
            lemma_join(w0, e3, wire_bool(v.want_x11_forwarding));
            lemma_join(w0, e4, wire_bool(v.want_agent));
            lemma_join(w0, e5, wire_bool(v.subsystem));
            lemma_join(w0, e6, u32_to_be(v.escape_char));
            lemma_join(w0, e7, wire_string(v.terminal_type));
            lemma_join(w0, e8, wire_string(v.command));
            lemma_join(w0, e9, wire_entries(v.environment));
            lemma_push_is_join(w10, 0u8);
            lemma_join(w0, e10, seq![0u8]);
        }
    }

    open spec fn self_delimiting() -> bool {
        false
    }

    proof fn lemma_parse_serialized(v: NewSessionView, tail: Seq<u8>) {
        assert(v.encode() + tail =~= v.encode());
        assert(tail =~= Seq::<u8>::empty());
        v.lemma_decode_encode();
    }
}

/// A copy of each text.
fn clone_texts(texts: &Vec<String>) -> (copy: Vec<String>)
    ensures
        views(copy@) == views(texts@),
{
    let mut copy: Vec<String> = Vec::new();
    let mut i: usize = 0;
    while i < texts.len()
        invariant
            i <= texts@.len(),
            copy@.len() == i,
            forall|j: int| 0 <= j < i ==> (#[trigger] copy@[j])@ == texts@[j]@,
        decreases texts@.len() - i,
    {
        copy.push(texts[i].clone());
        i = i + 1;
    }
    assert(views(copy@) =~= views(texts@));
    copy
}

impl Clone for NewSession {
    fn clone(&self) -> (copy: NewSession)
        ensures
            copy@ == self@,
    {
        NewSession {
            request_id: self.request_id,
            want_tty: self.want_tty,
            want_x11_forwarding: self.want_x11_forwarding,
            want_agent: self.want_agent,
            subsystem: self.subsystem,
            escape_char: self.escape_char,
            terminal_type: self.terminal_type.clone(),
            command: self.command.clone(),
            environment: clone_texts(&self.environment),
        }
    }
}

} // verus!
