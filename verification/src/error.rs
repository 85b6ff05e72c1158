//! Failures of the codec and of the control engine.

use vstd::prelude::*;
use vstd::string::StringExecFns;
use crate::text::{
    ascii,
    decimal,
    hex_bytes,
    lower_hex,
    push_decimal,
    push_hex_bytes,
    push_lower_hex,
    push_readable,
    readable,
};

verus! {

/// Bytes kept from the place in the input where decoding stopped.
#[derive(Debug, PartialEq, Eq)]
pub struct RawBytes(pub Vec<u8>);

impl View for RawBytes {
    type V = Seq<u8>;

    open spec fn view(&self) -> Seq<u8> {
        self.0@
    }
}

impl RawBytes {
    /// The bytes made readable, see [`readable`].
    pub fn to_text(&self) -> (text: String)
        ensures
            text@ == ascii(readable(self@)),
    {
        let mut text = String::new();
        push_readable(&mut text, self.0.as_slice());
        assert(text@ =~= ascii(readable(self@)));
        text
    }

    /// The bytes in hexadecimal behind `0x`.
    pub fn to_hex(&self) -> (text: String)
        ensures
            text@ == "0x"@ + ascii(hex_bytes(self@)),
    {
        let mut text = String::from_str("0x");
        push_hex_bytes(&mut text, self.0.as_slice());
        text
    }
}

/// How many more bytes a decoder needs before it can decide.
#[derive(Clone, Copy, Debug, PartialEq, Eq, Structural)]
pub enum Needed {
    /// More bytes are needed, their number is not known.
    Unknown,
    /// At least this many more bytes are needed.
    Size(usize),
}

/// The expectation that the input did not meet.
#[derive(Clone, Copy, Debug, PartialEq, Eq, Structural)]
pub enum ErrorKind {
    /// A fixed byte was expected.
    Tag,
    /// A value was decoded but stands for nothing.
    MapOpt,
    /// A value was decoded but is not the one required.
    Verify,
    /// The end of the input was expected.
    Eof,
    /// An element of a list took no input.
    Many0,
}

impl ErrorKind {
    /// The name of the expectation.
    pub open spec fn spec_name(self) -> Seq<char> {
        match self {
            ErrorKind::Tag => "Tag"@,
            ErrorKind::MapOpt => "MapOpt"@,
            ErrorKind::Verify => "Verify"@,
            ErrorKind::Eof => "Eof"@,
            ErrorKind::Many0 => "Many0"@,
        }
    }

    /// The name of the expectation.
    pub fn name(self) -> (name: &'static str)
        ensures
            name@ == self.spec_name(),
    {
        match self {
            ErrorKind::Tag => "Tag",
            ErrorKind::MapOpt => "MapOpt",
            ErrorKind::Verify => "Verify",
            ErrorKind::Eof => "Eof",
            ErrorKind::Many0 => "Many0",
        }
    }
}

/// One entry of a failure trail.
#[derive(Clone, Copy, Debug, PartialEq, Eq)]
pub enum VerboseErrorKind {
    /// The name of the structure that was being decoded.
    Context(&'static str),
    /// The expectation that failed.
    Code(ErrorKind),
}

/// The mathematical value of a [`VerboseErrorKind`].
pub enum KindView {
    Context(Seq<char>),
    Code(ErrorKind),
}

impl View for VerboseErrorKind {
    type V = KindView;

    open spec fn view(&self) -> KindView {
        match *self {
            VerboseErrorKind::Context(name) => KindView::Context(name@),
            VerboseErrorKind::Code(kind) => KindView::Code(kind),
        }
    }
}

/// A failure trail: innermost entry first, each with the input that was
/// left where the entry was recorded.
pub type Trail = Seq<(Seq<u8>, KindView)>;

/// Structurally invalid input, with the trail of what was being decoded.
#[derive(Debug, PartialEq, Eq)]
pub struct VerboseError {
    pub errors: Vec<(RawBytes, VerboseErrorKind)>,
}

impl View for VerboseError {
    type V = Trail;

    open spec fn view(&self) -> Trail {
        Seq::new(self.errors@.len(), |i: int| (self.errors@[i].0@, self.errors@[i].1@))
    }
}

impl VerboseError {
    /// A trail of one entry.
    pub fn from_error_kind(input: &[u8], kind: ErrorKind) -> (e: VerboseError)
        ensures
            e@ == seq![(input@, KindView::Code(kind))],
    {
        let mut errors: Vec<(RawBytes, VerboseErrorKind)> = Vec::new();
        errors.push((RawBytes(vstd::slice::slice_to_vec(input)), VerboseErrorKind::Code(kind)));
        let e = VerboseError { errors };
        assert(e@ =~= seq![(input@, KindView::Code(kind))]);
        e
    }

    /// Appends the name of the enclosing structure to the trail.
    pub fn add_context(self, input: &[u8], name: &'static str) -> (e: VerboseError)
        ensures
            e@ == self@.push((input@, KindView::Context(name@))),
    {
        let mut errors = self.errors;
        errors.push((RawBytes(vstd::slice::slice_to_vec(input)), VerboseErrorKind::Context(name)));
        let e = VerboseError { errors };
        assert(e@ =~= self@.push((input@, KindView::Context(name@))));
        e
    }
}

/// Why a decoder did not produce a value.
#[derive(Debug, PartialEq, Eq)]
pub enum ParseError {
    /// The input ends before the value does.
    Incomplete(Needed),
    /// The input is structurally invalid.
    Error(VerboseError),
}

/// The mathematical value of a [`ParseError`].
pub enum ParseErrorView {
    Incomplete(Needed),
    Error(Trail),
}

impl View for ParseError {
    type V = ParseErrorView;

    open spec fn view(&self) -> ParseErrorView {
        match *self {
            ParseError::Incomplete(needed) => ParseErrorView::Incomplete(needed),
            ParseError::Error(e) => ParseErrorView::Error(e@),
        }
    }
}

/// What decoding a byte sequence gives: the bytes left over and the value,
/// or the reason why there is none.
pub type Parsed<T> = core::result::Result<(Seq<u8>, T), ParseErrorView>;

/// Everything that can go wrong between this client and its peer.
#[derive(Debug, PartialEq, Eq)]
pub enum Error {
    /// Structurally invalid bytes were received.
    Parsing(VerboseError),
    /// Fewer bytes were received than the structure needs.
    Incomplete(Needed),
    /// The peer speaks another version of the protocol.
    UnsupportedVersion(u32),
    /// A well-formed message arrived where it makes no sense.
    InvalidPacket { description: String },
    /// The response answers another request than the outstanding one.
    InvalidResponseID { expected: Option<u32>, received: Option<u32> },
    /// The peer refused the operation.
    PermissionDenied(String),
    /// The peer tried and failed.
    Failure(String),
    /// The peer could not allocate a terminal for the session.
    TtyAllocFailed,
}

/// The mathematical value of an [`Error`].
pub enum ErrorView {
    Parsing(Trail),
    Incomplete(Needed),
    UnsupportedVersion(u32),
    InvalidPacket { description: Seq<char> },
    InvalidResponseID { expected: Option<u32>, received: Option<u32> },
    PermissionDenied(Seq<char>),
    Failure(Seq<char>),
    TtyAllocFailed,
}

impl View for Error {
    type V = ErrorView;

    open spec fn view(&self) -> ErrorView {
        match *self {
            Error::Parsing(e) => ErrorView::Parsing(e@),
            Error::Incomplete(needed) => ErrorView::Incomplete(needed),
            Error::UnsupportedVersion(version) => ErrorView::UnsupportedVersion(version),
            Error::InvalidPacket { description } => ErrorView::InvalidPacket {
                description: description@,
            },
            Error::InvalidResponseID { expected, received } => ErrorView::InvalidResponseID {
                expected,
                received,
            },
            Error::PermissionDenied(reason) => ErrorView::PermissionDenied(reason@),
            Error::Failure(reason) => ErrorView::Failure(reason@),
            Error::TtyAllocFailed => ErrorView::TtyAllocFailed,
        }
    }
}

/// The text of one entry of a trail: its number, what was expected, and
/// the input that was left there, made readable.
pub open spec fn entry_text(i: nat, entry: (Seq<u8>, KindView)) -> Seq<char> {
    ascii(decimal(i)) + ": "@ + match entry.1 {
        KindView::Context(name) => name,
        KindView::Code(kind) => kind.spec_name(),
    } + " at "@ + ascii(readable(entry.0)) + "\n"@
}

/// The text of the entries of a trail, one line each.
pub open spec fn trail_text(trail: Trail) -> Seq<char>
    decreases trail.len(),
{
    if trail.len() == 0 {
        Seq::empty()
    } else {
        trail_text(trail.drop_last()) + entry_text((trail.len() - 1) as nat, trail.last())
    }
}

impl ErrorView {
    /// The failure told in words.
    pub open spec fn message(self) -> Seq<char> {
        match self {
            ErrorView::Parsing(trail) => "Parsing error:\n"@ + trail_text(trail),
            ErrorView::Incomplete(Needed::Unknown) => "More bytes needed"@,
            ErrorView::Incomplete(Needed::Size(n)) => "At least "@ + ascii(decimal(n as nat))
                + " more bytes needed"@,
            ErrorView::UnsupportedVersion(version) => "Remote uses incompatible version "@
                + ascii(decimal(version as nat)),
            ErrorView::InvalidPacket { description } => "Received an invalid packet: "@
                + description,
            ErrorView::InvalidResponseID { expected, received } => (match expected {
                Some(id) => "Expect ID 0x"@ + ascii(lower_hex(id as nat)),
                None => "Expect no ID"@,
            }) + match received {
                Some(id) => ", received 0x"@ + ascii(lower_hex(id as nat)),
                None => ", received none"@,
            },
            ErrorView::PermissionDenied(reason) => "Remote operation not permitted: "@ + reason,
            ErrorView::Failure(reason) => "Remote operation failed: "@ + reason,
            ErrorView::TtyAllocFailed => "Remote TTY allocation failed"@,
        }
    }
}

impl VerboseError {
    /// The entries of the trail, one line each.
    pub fn to_text(&self) -> (text: String)
        ensures
            text@ == trail_text(self@),
    {
        let mut text = String::new();
        let ghost trail = self@;
        let mut i: usize = 0;
        assert(trail.subrange(0, 0) =~= Seq::empty());
        while i < self.errors.len()
            invariant
                i <= self.errors@.len(),
                trail == self@,
                text@ == trail_text(trail.subrange(0, i as int)),
            decreases self.errors@.len() - i,
        {
            proof {
                let next = trail.subrange(0, i + 1);
                assert(next.drop_last() =~= trail.subrange(0, i as int));
                assert(next.last() == trail[i as int]);
            }
            let ghost before = text@;
            push_decimal(&mut text, i as u64);
            text.append(": ");
            match self.errors[i].1 {
                VerboseErrorKind::Context(name) => text.append(name),
                VerboseErrorKind::Code(kind) => text.append(kind.name()),
            }
            text.append(" at ");
            push_readable(&mut text, self.errors[i].0.0.as_slice());
            text.append("\n");
            assert(text@ =~= before + entry_text(i as nat, trail[i as int]));
            i = i + 1;
        }
        assert(trail.subrange(0, i as int) =~= trail);
        text
    }
}

pub type Result<T> = core::result::Result<T, Error>;

/// The failure that a decoding failure becomes for the caller.
pub open spec fn error_of(e: ParseErrorView) -> ErrorView {
    match e {
        ParseErrorView::Incomplete(needed) => ErrorView::Incomplete(needed),
        ParseErrorView::Error(trail) => ErrorView::Parsing(trail),
    }
}

impl Error {
    /// The failure told in words.
    pub fn message(&self) -> (text: String)
        ensures
            text@ == self@.message(),
    {
        match self {
            Error::Parsing(e) => {
                let mut text = String::from_str("Parsing error:\n");
                text.append(e.to_text().as_str());
                text
            },
            Error::Incomplete(Needed::Unknown) => String::from_str("More bytes needed"),
            Error::Incomplete(Needed::Size(n)) => {
                let mut text = String::from_str("At least ");
                push_decimal(&mut text, *n as u64);
                text.append(" more bytes needed");
                text
            },
            Error::UnsupportedVersion(version) => {
                let mut text = String::from_str("Remote uses incompatible version ");
                push_decimal(&mut text, *version as u64);
                text
            },
            Error::InvalidPacket { description } => {
                let mut text = String::from_str("Received an invalid packet: ");
                text.append(description.as_str());
                text
            },
            Error::InvalidResponseID { expected, received } => {
                let mut text = match expected {
                    Some(id) => {
                        let mut text = String::from_str("Expect ID 0x");
                        push_lower_hex(&mut text, *id as u64);
                        text
                    },
                    None => String::from_str("Expect no ID"),
                };
                match received {
                    Some(id) => {
                        text.append(", received 0x");
                        push_lower_hex(&mut text, *id as u64);
                    },
                    None => {
                        text.append(", received none");
                    },
                }
                text
            },
            Error::PermissionDenied(reason) => {
                let mut text = String::from_str("Remote operation not permitted: ");
                text.append(reason.as_str());
                text
            },
            Error::Failure(reason) => {
                let mut text = String::from_str("Remote operation failed: ");
                text.append(reason.as_str());
                text
            },
            Error::TtyAllocFailed => String::from_str("Remote TTY allocation failed"),
        }
    }

    /// Turns a decoding failure into the failure reported to the caller.
    pub fn from_parse(e: ParseError) -> (r: Error)
        ensures
            r@ == error_of(e@),
            r == (match e {
                ParseError::Incomplete(needed) => Error::Incomplete(needed),
                ParseError::Error(trail) => Error::Parsing(trail),
            }),
    {
        match e {
            ParseError::Incomplete(needed) => Error::Incomplete(needed),
            ParseError::Error(trail) => Error::Parsing(trail),
        }
    }
}

/// The failure that a decoding failure becomes for the caller.
impl From<ParseError> for Error {
    fn from(e: ParseError) -> (r: Error) {
        Error::from_parse(e)
    }
}

impl vstd::std_specs::convert::FromSpecImpl<ParseError> for Error {
    open spec fn obeys_from_spec() -> bool {
        true
    }

    open spec fn from_spec(e: ParseError) -> Error {
        match e {
            ParseError::Incomplete(needed) => Error::Incomplete(needed),
            ParseError::Error(trail) => Error::Parsing(trail),
        }
    }
}

impl Clone for RawBytes {
    fn clone(&self) -> (copy: RawBytes)
        ensures
            copy@ == self@,
    {
        RawBytes(vstd::slice::slice_to_vec(self.0.as_slice()))
    }
}

impl Clone for VerboseError {
    fn clone(&self) -> (copy: VerboseError)
        ensures
            copy@ == self@,
    {
        let mut errors: Vec<(RawBytes, VerboseErrorKind)> = Vec::new();
        let mut i: usize = 0;
        while i < self.errors.len()
            invariant
                i <= self.errors@.len(),
                errors@.len() == i,
                forall|j: int|
                    0 <= j < i ==> (#[trigger] errors@[j]).0@ == self.errors@[j].0@ && errors@[j].1
                        == self.errors@[j].1,
            decreases self.errors@.len() - i,
        {
            errors.push((self.errors[i].0.clone(), self.errors[i].1));
            i = i + 1;
        }
        let copy = VerboseError { errors };
        assert(copy@ =~= self@);
        copy
    }
}

impl Clone for ParseError {
    fn clone(&self) -> (copy: ParseError)
        ensures
            copy@ == self@,
    {
        match self {
            ParseError::Incomplete(needed) => ParseError::Incomplete(*needed),
            ParseError::Error(e) => ParseError::Error(e.clone()),
        }
    }
}

impl Clone for Error {
    fn clone(&self) -> (copy: Error)
        ensures
            copy@ == self@,
    {
        match self {
            Error::Parsing(e) => Error::Parsing(e.clone()),
            Error::Incomplete(needed) => Error::Incomplete(*needed),
            Error::UnsupportedVersion(version) => Error::UnsupportedVersion(*version),
            Error::InvalidPacket { description } => Error::InvalidPacket {
                description: description.clone(),
            },
            Error::InvalidResponseID { expected, received } => Error::InvalidResponseID {
                expected: *expected,
                received: *received,
            },
            Error::PermissionDenied(reason) => Error::PermissionDenied(reason.clone()),
            Error::Failure(reason) => Error::Failure(reason.clone()),
            Error::TtyAllocFailed => Error::TtyAllocFailed,
        }
    }
}

} // verus!
