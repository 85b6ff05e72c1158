use ssh_control::client::NewSession;
use ssh_control::command::{Child, Pipe, PipeRead, PipeWrite, SshCommand, Transfer};
use ssh_control::server::{ExitMessage, SessionOpened};

fn environment_of(command: &SshCommand) -> Vec<String> {
    command.session_request(None).environment
}

fn pipe(read: i32, write: i32) -> Pipe {
    Pipe::with_pipes(PipeRead(read), PipeWrite(write))
}

#[test]
fn new_command_asks_for_nothing_but_the_command() {
    let command = SshCommand::new(String::from("uname -a"));
    assert_eq!(
        command.session_request(None),
        NewSession {
            request_id: 0,
            want_tty: false,
            want_x11_forwarding: false,
            want_agent: false,
            subsystem: false,
            escape_char: b'~' as u32,
            terminal_type: String::from("xterm"),
            command: String::from("uname -a"),
            environment: vec![],
        }
    );
}

#[test]
fn terminal_type_is_the_one_given_or_xterm() {
    let command = SshCommand::new(String::from("id"));
    assert_eq!(command.session_request(None).terminal_type, "xterm");
    assert_eq!(command.session_request(Some(String::from("vt100"))).terminal_type, "vt100");
    assert_eq!(command.session_request(Some(String::new())).terminal_type, "");
}

#[test]
fn terminal_is_asked_for_when_wanted() {
    let mut command = SshCommand::new(String::from("top"));
    command.tty(true);
    assert!(command.session_request(None).want_tty);
    command.tty(false);
    assert!(!command.session_request(None).want_tty);
    assert!(!command.session_request(None).want_x11_forwarding);
    command.x11_forwarding(true);
    assert!(command.session_request(None).want_x11_forwarding);
    assert!(!command.session_request(None).want_tty);
}

#[test]
fn variables_become_entries_in_the_order_they_were_set() {
    let mut command = SshCommand::new(String::from("env"));
    command.env(String::from("LANG"), String::from("C"));
    command.env(String::from("PATH"), String::from("/bin"));
    command.env(String::from("EMPTY"), String::new());
    assert_eq!(environment_of(&command), vec!["LANG=C", "PATH=/bin", "EMPTY="]);
}

#[test]
fn variable_set_again_keeps_its_place_and_takes_the_new_value() {
    let mut command = SshCommand::new(String::from("env"));
    command.env(String::from("A"), String::from("1"));
    command.env(String::from("B"), String::from("2"));
    command.env(String::from("A"), String::from("3"));
    assert_eq!(environment_of(&command), vec!["A=3", "B=2"]);
}

#[test]
fn variable_is_removed() {
    let mut command = SshCommand::new(String::from("env"));
    command.env(String::from("A"), String::from("1"));
    command.env(String::from("B"), String::from("2"));
    command.env(String::from("C"), String::from("3"));
    command.env_remove(&String::from("B"));
    assert_eq!(environment_of(&command), vec!["A=1", "C=3"]);
    command.env_remove(&String::from("missing"));
    assert_eq!(environment_of(&command), vec!["A=1", "C=3"]);
    command.env_remove(&String::from("A"));
    command.env_remove(&String::from("C"));
    assert!(environment_of(&command).is_empty());
}

#[test]
fn copied_variables_are_set_in_order() {
    let mut command = SshCommand::new(String::from("env"));
    command.env(String::from("B"), String::from("old"));
    command.copy_env(&vec![
        (String::from("A"), String::from("1")),
        (String::from("B"), String::from("2")),
        (String::from("A"), String::from("3")),
    ]);
    assert_eq!(environment_of(&command), vec!["B=2", "A=3"]);
    command.copy_env(&vec![]);
    assert_eq!(environment_of(&command), vec!["B=2", "A=3"]);
}

#[test]
fn given_streams_hand_over_the_end_the_command_uses() {
    let mut command = SshCommand::new(String::from("cat"));
    let _ = command.stdin(pipe(10, 11));
    let _ = command.stdout(pipe(20, 21));
    let _ = command.stderr(pipe(30, 31));
    assert!(!command.needs_devnull());
    let expected = Transfer { stdin: 10, stdout: 21, stderr: 31 };
    assert_eq!(command.transfer(None), expected);
    assert_eq!(command.transfer(Some(99)), expected);
    assert_eq!(expected.in_order(), [10, 21, 31]);
}

#[test]
fn one_stand_in_serves_every_stream_not_given() {
    let command = SshCommand::new(String::from("true"));
    assert!(command.needs_devnull());
    assert_eq!(command.transfer(Some(7)).in_order(), [7, 7, 7]);

    let mut command = SshCommand::new(String::from("true"));
    let _ = command.stdin(pipe(10, 11));
    assert!(command.needs_devnull());
    assert_eq!(command.transfer(Some(7)).in_order(), [10, 7, 7]);

    let mut command = SshCommand::new(String::from("true"));
    let _ = command.stderr(pipe(30, 31));
    assert_eq!(command.transfer(Some(7)).in_order(), [7, 7, 31]);
}

#[test]
fn child_keeps_this_sides_ends() {
    let mut command = SshCommand::new(String::from("cat"));
    let _ = command.stdin(pipe(10, 11));
    let _ = command.stdout(pipe(20, 21));
    let _ = command.stderr(pipe(30, 31));
    let opened = SessionOpened { client_request_id: 1, session_id: 9 };
    let (child, handed) = command.into_child(Some(5), &opened);
    assert_eq!(
        child,
        Child {
            stdin: Some(PipeWrite(11)),
            stdout: Some(PipeRead(20)),
            stderr: Some(PipeRead(30)),
            session: 9,
            // Every stream was given: the stand-in was not used.
            devnull: None,
        }
    );
    assert_eq!(handed.stdin, Some(PipeRead(10)));
    assert_eq!(handed.stdout, Some(PipeWrite(21)));
    assert_eq!(handed.stderr, Some(PipeWrite(31)));
}

#[test]
fn child_without_streams_keeps_the_stand_in() {
    let command = SshCommand::new(String::from("true"));
    let opened = SessionOpened { client_request_id: 1, session_id: 0 };
    let (child, handed) = command.into_child(Some(5), &opened);
    assert_eq!(
        child,
        Child { stdin: None, stdout: None, stderr: None, session: 0, devnull: Some(5) }
    );
    assert_eq!((handed.stdin, handed.stdout, handed.stderr), (None, None, None));
}

#[test]
fn exit_matches_by_session() {
    let child = Child { stdin: None, stdout: None, stderr: None, session: 7, devnull: None };
    assert!(child.is_exit(&ExitMessage { session_id: 7, exit_value: 1 }));
    assert!(!child.is_exit(&ExitMessage { session_id: 0, exit_value: 1 }));
}

#[test]
fn own_streams_are_descriptors_zero_and_one() {
    assert_eq!(Pipe::stdio(), pipe(0, 1));
}
