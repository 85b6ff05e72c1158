//! Descriptors of the streams of a remote command.
//!
//! A descriptor is held here as its number. Opening, reading, writing and
//! closing belong to whoever owns the descriptor.

use vstd::prelude::*;

verus! {

/// The descriptor of the standard input of a process.
pub const STDIN: i32 = 0;

/// The descriptor of the standard output of a process.
pub const STDOUT: i32 = 1;

/// The descriptor of the standard error of a process.
pub const STDERR: i32 = 2;

/// A descriptor to read from.
#[derive(Debug, PartialEq, Eq)]
pub struct PipeRead(pub i32);

/// A descriptor to write to.
#[derive(Debug, PartialEq, Eq)]
pub struct PipeWrite(pub i32);

/// A readable end and a writable end.
#[derive(Debug, PartialEq, Eq)]
pub struct Pipe {
    pub read: PipeRead,
    pub write: PipeWrite,
}

impl PipeRead {
    /// The number of the descriptor.
    pub fn as_raw_fd(&self) -> (fd: i32)
        ensures
            fd == self.0,
    {
        self.0
    }
}

impl PipeWrite {
    /// The number of the descriptor.
    pub fn as_raw_fd(&self) -> (fd: i32)
        ensures
            fd == self.0,
    {
        self.0
    }
}

impl Pipe {
    /// A pipe made of the two given ends.
    pub fn with_pipes(read: PipeRead, write: PipeWrite) -> (pipe: Pipe)
        ensures
            pipe == (Pipe { read, write }),
    {
        Pipe { read, write }
    }

    /// The standard input and the standard output of the calling process.
    pub fn stdio() -> (pipe: Pipe)
        ensures
            pipe == (Pipe { read: PipeRead(STDIN), write: PipeWrite(STDOUT) }),
    {
        Pipe { read: PipeRead(STDIN), write: PipeWrite(STDOUT) }
    }
}

} // verus!
