//! A command to run in a remote session, and the session that runs it.

use vstd::prelude::*;
use vstd::string::StringExecFns;
use crate::protocol::client::{NewSession, NewSessionView};
use crate::protocol::server::{ExitMessage, SessionOpened};

pub mod pipe;

pub use pipe::{Pipe, PipeRead, PipeWrite};

verus! {

/// The character that the peer takes as escape character.
pub const ESCAPE_CHAR: u32 = 0x7e;

/// A session that the peer opened.
#[derive(Debug, PartialEq, Eq)]
pub struct Child {
    /// Where to write what the command reads, if a pipe was asked for.
    pub stdin: Option<PipeWrite>,
    /// Where to read what the command writes, if a pipe was asked for.
    pub stdout: Option<PipeRead>,
    /// Where to read the command's errors, if a pipe was asked for.
    pub stderr: Option<PipeRead>,
    pub session: u32,
    /// The descriptor that stood in for the streams that were not given,
    /// to be closed with the session.
    pub devnull: Option<i32>,
}

impl Child {
    /// Whether `exit` tells the end of this session.
    pub fn is_exit(&self, exit: &ExitMessage) -> (matched: bool)
        ensures
            matched == (exit.session_id == self.session),
    {
        exit.session_id == self.session
    }
}

/// The three descriptors that are handed to the peer with a new session.
#[derive(Clone, Copy, Debug, PartialEq, Eq, Structural)]
pub struct Transfer {
    pub stdin: i32,
    pub stdout: i32,
    pub stderr: i32,
}

impl Transfer {
    /// The descriptors in the order in which they are handed over: input,
    /// output, error.
    pub fn in_order(&self) -> (fds: [i32; 3])
        ensures
            fds@ == seq![self.stdin, self.stdout, self.stderr],
    {
        let fds: [i32; 3] = [self.stdin, self.stdout, self.stderr];
        assert(fds@ =~= seq![self.stdin, self.stdout, self.stderr]);
        fds
    }
}

/// The ends of a command's pipes that are handed to the peer, to be
/// closed on this side once they are handed over.
#[derive(Debug, PartialEq, Eq)]
pub struct Handed {
    pub stdin: Option<PipeRead>,
    pub stdout: Option<PipeWrite>,
    pub stderr: Option<PipeWrite>,
}

/// A command to run on the peer's side.
#[derive(Debug, PartialEq, Eq)]
pub struct SshCommand {
    shell_command: String,
    environment: Vec<(String, String)>,
    want_tty: bool,
    want_x11_forwarding: bool,
    stdin: Option<Pipe>,
    stdout: Option<Pipe>,
    stderr: Option<Pipe>,
}

/// The mathematical value of an [`SshCommand`].
pub struct SshCommandView {
    pub shell_command: Seq<char>,
    /// The variables in the order in which they were first set.
    pub environment: Seq<(Seq<char>, Seq<char>)>,
    pub want_tty: bool,
    pub want_x11_forwarding: bool,
    pub stdin: Option<Pipe>,
    pub stdout: Option<Pipe>,
    pub stderr: Option<Pipe>,
}

/// Whether `key` is the name of one of the variables.
pub open spec fn has_key(environment: Seq<(Seq<char>, Seq<char>)>, key: Seq<char>) -> bool {
    exists|i: int| 0 <= i < environment.len() && (#[trigger] environment[i]).0 == key
}

/// Where the variable `key` stands among the variables.
pub open spec fn position(environment: Seq<(Seq<char>, Seq<char>)>, key: Seq<char>) -> int {
    choose|i: int| 0 <= i < environment.len() && (#[trigger] environment[i]).0 == key
}

/// No name stands twice among the variables.
pub open spec fn distinct_keys(environment: Seq<(Seq<char>, Seq<char>)>) -> bool {
    forall|i: int, j: int|
        0 <= i < j < environment.len() ==> (#[trigger] environment[i]).0 != (
        #[trigger] environment[j]).0
}

/// The variables after `key` was given `value`: a variable that stood
/// there keeps its place, a new one comes last.
pub open spec fn with_variable(
    environment: Seq<(Seq<char>, Seq<char>)>,
    key: Seq<char>,
    value: Seq<char>,
) -> Seq<(Seq<char>, Seq<char>)> {
    if has_key(environment, key) {
        environment.update(position(environment, key), (key, value))
    } else {
        environment.push((key, value))
    }
}

/// The variables after each of `variables` was set, in order.
pub open spec fn with_variables(
    environment: Seq<(Seq<char>, Seq<char>)>,
    variables: Seq<(Seq<char>, Seq<char>)>,
) -> Seq<(Seq<char>, Seq<char>)>
    decreases variables.len(),
{
    if variables.len() == 0 {
        environment
    } else {
        with_variable(
            with_variables(environment, variables.drop_last()),
            variables.last().0,
            variables.last().1,
        )
    }
}

/// The variables without `key`.
pub open spec fn without_variable(
    environment: Seq<(Seq<char>, Seq<char>)>,
    key: Seq<char>,
) -> Seq<(Seq<char>, Seq<char>)> {
    if has_key(environment, key) {
        environment.remove(position(environment, key))
    } else {
        environment
    }
}

/// The environment entry that sets the variable `key` to `value`.
pub open spec fn entry(key: Seq<char>, value: Seq<char>) -> Seq<char> {
    key + "="@ + value
}

/// The mathematical values of named variables.
pub open spec fn variables(pairs: Seq<(String, String)>) -> Seq<(Seq<char>, Seq<char>)> {
    Seq::new(pairs.len(), |i: int| (pairs[i].0@, pairs[i].1@))
}

impl View for SshCommand {
    type V = SshCommandView;

    closed spec fn view(&self) -> SshCommandView {
        SshCommandView {
            shell_command: self.shell_command@,
            environment: variables(self.environment@),
            want_tty: self.want_tty,
            want_x11_forwarding: self.want_x11_forwarding,
            stdin: self.stdin,
            stdout: self.stdout,
            stderr: self.stderr,
        }
    }
}

impl SshCommandView {
    /// No variable is set twice.
    pub open spec fn wf(self) -> bool {
        distinct_keys(self.environment)
    }

    /// Whether a stream was not given and a stand-in is needed for it.
    pub open spec fn needs_devnull(self) -> bool {
        self.stdin is None || self.stdout is None || self.stderr is None
    }

    /// The descriptors to hand to the peer: of each stream that was given
    /// the end that the command uses, and `devnull` for the others.
    pub open spec fn transfer(self, devnull: i32) -> Transfer {
        Transfer {
            stdin: match self.stdin {
                Some(pipe) => pipe.read.0,
                None => devnull,
            },
            stdout: match self.stdout {
                Some(pipe) => pipe.write.0,
                None => devnull,
            },
            stderr: match self.stderr {
                Some(pipe) => pipe.write.0,
                None => devnull,
            },
        }
    }

    /// The request that asks for the session. The terminal type is `term`,
    /// or `xterm` where there is none.
    pub open spec fn session_request(self, term: Option<Seq<char>>) -> NewSessionView {
        NewSessionView {
            request_id: 0,
            want_tty: self.want_tty,
            want_x11_forwarding: self.want_x11_forwarding,
            want_agent: false,
            subsystem: false,
            escape_char: ESCAPE_CHAR,
            terminal_type: match term {
                Some(term) => term,
                None => "xterm"@,
            },
            command: self.shell_command,
            environment: Seq::new(
                self.environment.len(),
                |i: int| entry(self.environment[i].0, self.environment[i].1),
            ),
        }
    }
}

/// Looks for the variable `key`: its place, or the number of variables
/// where it is not among them.
fn find(environment: &Vec<(String, String)>, key: &String) -> (i: usize)
    requires
        distinct_keys(variables(environment@)),
    ensures
        i <= environment@.len(),
        i < environment@.len() <==> has_key(variables(environment@), key@),
        i < environment@.len() ==> position(variables(environment@), key@) == i,
{
    let ghost all = variables(environment@);
    let mut i: usize = 0;
    while i < environment.len()
        invariant
            i <= environment@.len(),
            all == variables(environment@),
            distinct_keys(all),
            forall|j: int| 0 <= j < i ==> (#[trigger] all[j]).0 != key@,
        decreases environment@.len() - i,
    {
        if environment[i].0 == *key {
            proof {
                assert(all[i as int].0 == key@);
                let j = position(all, key@);
                assert(0 <= j < all.len() && all[j].0 == key@);
                if j > i {
                    assert(all[i as int].0 != all[j].0);
                }
            }
            return i;
        }
        i = i + 1;
    }
    i
}

impl SshCommand {
    /// The command `command`, with no variable set, no terminal and no
    /// stream given.
    pub fn new(command: String) -> (cmd: SshCommand)
        ensures
            cmd@ == (SshCommandView {
                shell_command: command@,
                environment: Seq::empty(),
                want_tty: false,
                want_x11_forwarding: false,
                stdin: None,
                stdout: None,
                stderr: None,
            }),
            cmd@.wf(),
    {
        let cmd = SshCommand {
            shell_command: command,
            environment: Vec::new(),
            want_tty: false,
            want_x11_forwarding: false,
            stdin: None,
            stdout: None,
            stderr: None,
        };
        assert(cmd@.environment =~= Seq::empty());
        cmd
    }

    /// Sets the variable `key` to `value` for the command.
    pub fn env(&mut self, key: String, value: String)
        requires
            old(self)@.wf(),
        ensures
            final(self)@.wf(),
            final(self)@ == (SshCommandView {
                environment: with_variable(old(self)@.environment, key@, value@),
                ..old(self)@
            }),
    {
        let ghost before = variables(self.environment@);
        let i = find(&self.environment, &key);
        if i < self.environment.len() {
            self.environment.set(i, (key, value));
            assert(variables(self.environment@) =~= before.update(i as int, (key@, value@)));
        } else {
            self.environment.push((key, value));
            assert(variables(self.environment@) =~= before.push((key@, value@)));
        }
    }

    /// Sets each of `variables` for the command, in order.
    pub fn copy_env(&mut self, vars: &Vec<(String, String)>)
        requires
            old(self)@.wf(),
        ensures
            final(self)@.wf(),
            final(self)@ == (SshCommandView {
                environment: with_variables(old(self)@.environment, variables(vars@)),
                ..old(self)@
            }),
    {
        let ghost all = variables(vars@);
        let mut i: usize = 0;
        assert(all.subrange(0, 0) =~= Seq::empty());
        while i < vars.len()
            invariant
                i <= vars@.len(),
                all == variables(vars@),
                self@.wf(),
                self@ == (SshCommandView {
                    environment: with_variables(old(self)@.environment, all.subrange(0, i as int)),
                    ..old(self)@
                }),
            decreases vars@.len() - i,
        {
            proof {
                let next = all.subrange(0, i + 1);
                assert(next.drop_last() =~= all.subrange(0, i as int));
                assert(next.last() == all[i as int]);
            }
            self.env(vars[i].0.clone(), vars[i].1.clone());
            i = i + 1;
        }
        assert(all.subrange(0, i as int) =~= all);
    }

    /// Removes the variable `key`, if it is set.
    pub fn env_remove(&mut self, key: &String)
        requires
            old(self)@.wf(),
        ensures
            final(self)@.wf(),
            final(self)@ == (SshCommandView {
                environment: without_variable(old(self)@.environment, key@),
                ..old(self)@
            }),
    {
        let ghost before = variables(self.environment@);
        let i = find(&self.environment, key);
        if i < self.environment.len() {
            self.environment.remove(i);
            assert(variables(self.environment@) =~= before.remove(i as int));
        }
    }

    /// Gives the command `p` as its standard input, and hands back the pipe
    /// that it had before, if it had one.
    pub fn stdin(&mut self, p: Pipe) -> (replaced: Option<Pipe>)
        ensures
            final(self)@ == (SshCommandView { stdin: Some(p), ..old(self)@ }),
            replaced == old(self)@.stdin,
    {
        let mut pipe = Some(p);
        core::mem::swap(&mut self.stdin, &mut pipe);
        pipe
    }

    /// Gives the command `p` as its standard output, and hands back the pipe
    /// that it had before, if it had one.
    pub fn stdout(&mut self, p: Pipe) -> (replaced: Option<Pipe>)
        ensures
            final(self)@ == (SshCommandView { stdout: Some(p), ..old(self)@ }),
            replaced == old(self)@.stdout,
    {
        let mut pipe = Some(p);
        core::mem::swap(&mut self.stdout, &mut pipe);
        pipe
    }

    /// Gives the command `p` as its standard error, and hands back the pipe
    /// that it had before, if it had one.
    pub fn stderr(&mut self, p: Pipe) -> (replaced: Option<Pipe>)
        ensures
            final(self)@ == (SshCommandView { stderr: Some(p), ..old(self)@ }),
            replaced == old(self)@.stderr,
    {
        let mut pipe = Some(p);
        core::mem::swap(&mut self.stderr, &mut pipe);
        pipe
    }

    /// Whether the command asks for a terminal.
    pub fn tty(&mut self, want_tty: bool)
        ensures
            final(self)@ == (SshCommandView { want_tty, ..old(self)@ }),
    {
        self.want_tty = want_tty;
    }

    /// Whether the command asks for its X11 connections to be forwarded.
    pub fn x11_forwarding(&mut self, want_x11_forwarding: bool)
        ensures
            final(self)@ == (SshCommandView { want_x11_forwarding, ..old(self)@ }),
    {
        self.want_x11_forwarding = want_x11_forwarding;
    }

    /// Whether a stand-in descriptor is needed: a stream was not given.
    pub fn needs_devnull(&self) -> (needed: bool)
        ensures
            needed == self@.needs_devnull(),
    {
        self.stdin.is_none() || self.stdout.is_none() || self.stderr.is_none()
    }

    /// The descriptors to hand to the peer, see
    /// [`SshCommandView::transfer`]. One stand-in serves every stream that
    /// was not given.
    pub fn transfer(&self, devnull: Option<i32>) -> (t: Transfer)
        requires
            self@.needs_devnull() ==> devnull is Some,
        ensures
            self@.needs_devnull() ==> t == self@.transfer(devnull->0),
            !self@.needs_devnull() ==> forall|any: i32| t == self@.transfer(any),
    {
        let fallback: i32 = match devnull {
            Some(fd) => fd,
            None => -1,
        };
        Transfer {
            stdin: match &self.stdin {
                Some(pipe) => pipe.read.as_raw_fd(),
                None => fallback,
            },
            stdout: match &self.stdout {
                Some(pipe) => pipe.write.as_raw_fd(),
                None => fallback,
            },
            stderr: match &self.stderr {
                Some(pipe) => pipe.write.as_raw_fd(),
                None => fallback,
            },
        }
    }

    /// The request that asks the peer for the session, see
    /// [`SshCommandView::session_request`].
    pub fn session_request(&self, term: Option<String>) -> (request: NewSession)
        ensures
            request@ == self@.session_request(
                match term {
                    Some(term) => Some(term@),
                    None => None,
                },
            ),
    {
        let ghost all = variables(self.environment@);
        let mut environment: Vec<String> = Vec::new();
        let mut i: usize = 0;
        while i < self.environment.len()
            invariant
                i <= self.environment@.len(),
                all == variables(self.environment@),
                environment@.len() == i,
                forall|j: int| 0 <= j < i ==> (#[trigger] environment@[j])@ == entry(all[j].0, all[j].1),
            decreases self.environment@.len() - i,
        {
            let mut line = self.environment[i].0.clone();
            line.append("=");
            line.append(self.environment[i].1.as_str());
            environment.push(line);
            i = i + 1;
        }
        let request = NewSession {
            request_id: 0,
            want_tty: self.want_tty,
            want_x11_forwarding: self.want_x11_forwarding,
            want_agent: false,
            subsystem: false,
            escape_char: ESCAPE_CHAR,
            terminal_type: match term {
                Some(term) => term,
                None => "xterm".to_owned(),
            },
            command: self.shell_command.clone(),
            environment,
        };
        assert(request@.environment =~= self@.session_request(None).environment);
        request
    }

    /// The session that the peer opened for the command: the handle with
    /// this side's ends of the pipes that were given, and the ends that
    /// were handed to the peer. The stand-in is kept with the handle if a
    /// stream used it.
    pub fn into_child(self, devnull: Option<i32>, opened: &SessionOpened) -> (r: (Child, Handed))
        ensures
            r.0.session == opened.session_id,
            r.0.devnull == if self@.needs_devnull() {
                devnull
            } else {
                None
            },
            r.0.stdin == match self@.stdin {
                Some(pipe) => Some(pipe.write),
                None => None,
            },
            r.0.stdout == match self@.stdout {
                Some(pipe) => Some(pipe.read),
                None => None,
            },
            r.0.stderr == match self@.stderr {
                Some(pipe) => Some(pipe.read),
                None => None,
            },
            r.1.stdin == match self@.stdin {
                Some(pipe) => Some(pipe.read),
                None => None,
            },
            r.1.stdout == match self@.stdout {
                Some(pipe) => Some(pipe.write),
                None => None,
            },
            r.1.stderr == match self@.stderr {
                Some(pipe) => Some(pipe.write),
                None => None,
            },
    {
        let kept = if self.needs_devnull() {
            devnull
        } else {
            None
        };
        let (child_stdin, stdin) = match self.stdin {
            Some(pipe) => (Some(pipe.write), Some(pipe.read)),
            None => (None, None),
        };
        let (child_stdout, stdout) = match self.stdout {
            Some(pipe) => (Some(pipe.read), Some(pipe.write)),
            None => (None, None),
        };
        let (child_stderr, stderr) = match self.stderr {
            Some(pipe) => (Some(pipe.read), Some(pipe.write)),
            None => (None, None),
        };
        (
            Child {
                stdin: child_stdin,
                stdout: child_stdout,
                stderr: child_stderr,
                session: opened.session_id,
                devnull: kept,
            },
            Handed { stdin, stdout, stderr },
        )
    }
}

} // verus!
