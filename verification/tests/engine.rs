use std::collections::BTreeMap;

use frish::builtins::{Builtins, Handler};
use frish::common::Command;
use frish::eval::eval;
use frish::exec::{
    exec_builtin, exec_external, fork_child, fork_child_wait, run_builtin, run_external,
    wait_process, ForkChild, Ran, Side, Wait, NOT_STARTED,
};
use frish::pipes::{do_pipes, pipes_begin, pipes_cont, pipes_end, Ends};
use frish::redirect::{
    apply, open_how, redirect_stdin, redirect_stdout, release, restore_stdin, restore_stdout,
    target, OpenHow, Redirect, Restore, Saved,
};
use frish::state::{State, Status};
use frish::sys::{answered, Call, Machine, Progress, Reply, Stream};

/// How a driven machine ended.
#[derive(Debug, PartialEq)]
enum End<T> {
    /// With a result.
    Done(T),
    /// The process ended.
    Exited(i32),
    /// The process became the program of the command.
    Replaced,
}

/// A process as the tests see it: its descriptors, each with the name of
/// what it refers to, the calls that were made, and how the system answers.
struct Os {
    table: BTreeMap<i32, String>,
    calls: Vec<Call>,
    reports: Vec<i32>,
    /// The errors with which the targets cannot be opened.
    open_errors: BTreeMap<i32, i32>,
    /// The answers to the duplications of the process, in order.
    forks: Vec<Reply>,
    /// The errors of the pipes that cannot be created, by their order.
    pipe_errors: BTreeMap<usize, i32>,
    pipes: usize,
    wait: Reply,
    exec: Option<i32>,
    handler: Reply,
}

impl Os {
    fn new() -> Os {
        let mut table = BTreeMap::new();
        table.insert(0, String::from("terminal in"));
        table.insert(1, String::from("terminal out"));
        table.insert(2, String::from("terminal err"));
        Os {
            table,
            calls: Vec::new(),
            reports: Vec::new(),
            open_errors: BTreeMap::new(),
            forks: Vec::new(),
            pipe_errors: BTreeMap::new(),
            pipes: 0,
            wait: Reply::Exited { code: 0 },
            exec: None,
            handler: Reply::Returned { status: Status::success() },
        }
    }

    fn free(&self) -> i32 {
        let mut fd = 0;
        while self.table.contains_key(&fd) {
            fd += 1;
        }
        fd
    }

    fn answer(&mut self, call: Call) -> Option<Reply> {
        self.calls.push(call);
        let reply = match call {
            Call::Open { stream } => match self.open_errors.get(&stream.fd()) {
                Some(&errno) => Reply::Failed { errno },
                None => {
                    let fd = self.free();
                    self.table.insert(fd, format!("file of {:?}", stream));
                    Reply::Fd { fd }
                }
            },
            Call::Dup { fd } => {
                let new = self.free();
                let what = self.table[&fd].clone();
                self.table.insert(new, what);
                Reply::Fd { fd: new }
            }
            Call::Dup2 { from, to } => {
                let what = self.table[&from].clone();
                self.table.insert(to, what);
                Reply::Done
            }
            Call::Close { fd } => {
                assert!(self.table.remove(&fd).is_some(), "closed twice: {}", fd);
                Reply::Done
            }
            Call::Pipe => {
                self.pipes += 1;
                match self.pipe_errors.get(&self.pipes) {
                    Some(&errno) => Reply::Failed { errno },
                    None => {
                        let read = self.free();
                        self.table.insert(read, format!("pipe {} read", self.pipes));
                        let write = self.free();
                        self.table.insert(write, format!("pipe {} write", self.pipes));
                        Reply::Pipe { read, write }
                    }
                }
            }
            Call::Fork => self.forks.remove(0),
            Call::Wait { .. } => self.wait,
            Call::Exec => match self.exec {
                Some(errno) => Reply::Failed { errno },
                None => return None,
            },
            Call::Invoke => self.handler,
            Call::Eval { .. } => Reply::Done,
            Call::Report { errno } => {
                self.reports.push(errno);
                Reply::Done
            }
            Call::Exit { .. } => return None,
        };
        assert!(answered(&call, &reply));
        Some(reply)
    }

    fn drive<M: Machine + Copy>(&mut self, start: Progress<M, M::Output>) -> End<M::Output> {
        let mut at = start;
        loop {
            match at {
                Progress::Done(output) => return End::Done(output),
                Progress::Busy(machine) => {
                    let call = machine.call();
                    match self.answer(call) {
                        Some(reply) => at = machine.resume(reply),
                        None => match call {
                            Call::Exit { code } => return End::Exited(code),
                            _ => return End::Replaced,
                        },
                    }
                }
            }
        }
    }
}

fn command<'a>(
    args: &[&'a str],
    background: bool,
    input: Option<&'a str>,
    output: Option<&'a str>,
) -> Command<'a> {
    Command { args: args.to_vec(), background, inredirect: input, outredirect: output }
}

fn names(os: &Os) -> Vec<(i32, &str)> {
    os.table.iter().map(|(fd, what)| (*fd, what.as_str())).collect()
}

const START: [(i32, &str); 3] = [(0, "terminal in"), (1, "terminal out"), (2, "terminal err")];

#[test]
fn redirect_stdin_swaps_the_target_in() {
    let mut os = Os::new();
    let saved = os.drive(redirect_stdin(Some("in.txt")));
    assert_eq!(saved, End::Done(Ok(Some(4))));
    assert_eq!(
        os.calls,
        vec![
            Call::Open { stream: Stream::Stdin },
            Call::Dup { fd: 0 },
            Call::Dup2 { from: 3, to: 0 },
            Call::Close { fd: 3 },
        ]
    );
    assert_eq!(
        names(&os),
        vec![(0, "file of Stdin"), (1, "terminal out"), (2, "terminal err"), (4, "terminal in")]
    );
}

#[test]
fn redirect_stdout_swaps_the_target_in() {
    let mut os = Os::new();
    let saved = os.drive(redirect_stdout(Some("out.txt")));
    assert_eq!(saved, End::Done(Ok(Some(4))));
    assert_eq!(
        os.calls,
        vec![
            Call::Open { stream: Stream::Stdout },
            Call::Dup { fd: 1 },
            Call::Dup2 { from: 3, to: 1 },
            Call::Close { fd: 3 },
        ]
    );
    assert_eq!(
        names(&os),
        vec![(0, "terminal in"), (1, "file of Stdout"), (2, "terminal err"), (4, "terminal out")]
    );
}

#[test]
fn redirect_without_a_target_does_nothing() {
    let mut os = Os::new();
    assert_eq!(os.drive(redirect_stdin(None)), End::Done(Ok(None)));
    assert_eq!(os.drive(redirect_stdout(None)), End::Done(Ok(None)));
    assert!(os.calls.is_empty());
}

#[test]
fn redirect_that_cannot_open_changes_nothing() {
    let mut os = Os::new();
    os.open_errors.insert(0, 2);
    assert_eq!(os.drive(redirect_stdin(Some("missing"))), End::Done(Err(2)));
    assert_eq!(os.calls, vec![Call::Open { stream: Stream::Stdin }]);
    assert_eq!(names(&os), START.to_vec());
}

#[test]
fn restore_puts_the_stream_back() {
    let mut os = Os::new();
    assert_eq!(os.drive(redirect_stdin(Some("in.txt"))), End::Done(Ok(Some(4))));
    os.calls.clear();
    assert_eq!(os.drive(restore_stdin(Some(4))), End::Done(()));
    assert_eq!(os.calls, vec![Call::Dup2 { from: 4, to: 0 }, Call::Close { fd: 4 }]);
    assert_eq!(names(&os), START.to_vec());
    os.calls.clear();
    assert_eq!(os.drive(restore_stdin(None)), End::Done(()));
    assert_eq!(os.drive(restore_stdout(None)), End::Done(()));
    assert!(os.calls.is_empty());
}

#[test]
fn restore_stdout_puts_the_stream_back() {
    let mut os = Os::new();
    assert_eq!(os.drive(redirect_stdout(Some("out.txt"))), End::Done(Ok(Some(4))));
    os.calls.clear();
    assert_eq!(os.drive(restore_stdout(Some(4))), End::Done(()));
    assert_eq!(os.calls, vec![Call::Dup2 { from: 4, to: 1 }, Call::Close { fd: 4 }]);
    assert_eq!(names(&os), START.to_vec());
}

#[test]
fn a_reply_that_does_not_answer_is_ignored() {
    let machine = Redirect::Open { stream: Stream::Stdin };
    assert_eq!(machine.resume(Reply::Done), Progress::Busy(machine));
    assert_eq!(machine.resume(Reply::Child), Progress::Busy(machine));
    let machine = Redirect::Save { stream: Stream::Stdin, fd: 3 };
    assert_eq!(machine.resume(Reply::Failed { errno: 9 }), Progress::Busy(machine));
    let machine = Restore::Swap { stream: Stream::Stdout, saved: 4 };
    assert_eq!(machine.resume(Reply::Fd { fd: 1 }), Progress::Busy(machine));
    let machine = Wait { pid: 5 };
    assert_eq!(machine.resume(Reply::Done), Progress::Busy(machine));
    assert_eq!(ForkChild.resume(Reply::Done), Progress::Busy(ForkChild));
}

#[test]
fn apply_then_release_restores_both_streams() {
    let mut os = Os::new();
    let saved = match os.drive(apply(Some("in.txt"), Some("out.txt"))) {
        End::Done(Ok(saved)) => saved,
        other => panic!("not applied: {:?}", other),
    };
    assert_eq!(saved, Saved { stdin: Some(4), stdout: Some(5) });
    assert_eq!(
        names(&os),
        vec![
            (0, "file of Stdin"),
            (1, "file of Stdout"),
            (2, "terminal err"),
            (4, "terminal in"),
            (5, "terminal out"),
        ]
    );
    os.calls.clear();
    assert_eq!(os.drive(release(saved)), End::Done(()));
    assert_eq!(
        os.calls,
        vec![
            Call::Dup2 { from: 4, to: 0 },
            Call::Close { fd: 4 },
            Call::Dup2 { from: 5, to: 1 },
            Call::Close { fd: 5 },
        ]
    );
    assert_eq!(names(&os), START.to_vec());
}

#[test]
fn apply_restores_input_when_output_cannot_be_opened() {
    let mut os = Os::new();
    os.open_errors.insert(1, 13);
    assert_eq!(os.drive(apply(Some("in.txt"), Some("/forbidden"))), End::Done(Err(13)));
    assert_eq!(
        os.calls,
        vec![
            Call::Open { stream: Stream::Stdin },
            Call::Dup { fd: 0 },
            Call::Dup2 { from: 3, to: 0 },
            Call::Close { fd: 3 },
            Call::Open { stream: Stream::Stdout },
            Call::Dup2 { from: 4, to: 0 },
            Call::Close { fd: 4 },
        ]
    );
    assert_eq!(names(&os), START.to_vec());
}

#[test]
fn apply_stops_when_input_cannot_be_opened() {
    let mut os = Os::new();
    os.open_errors.insert(0, 2);
    assert_eq!(os.drive(apply(Some("missing"), Some("out.txt"))), End::Done(Err(2)));
    assert_eq!(os.calls, vec![Call::Open { stream: Stream::Stdin }]);
    assert_eq!(names(&os), START.to_vec());
}

#[test]
fn apply_without_targets_does_nothing() {
    let mut os = Os::new();
    assert_eq!(
        os.drive(apply(None, None)),
        End::Done(Ok(Saved { stdin: None, stdout: None }))
    );
    assert_eq!(os.drive(release(Saved { stdin: None, stdout: None })), End::Done(()));
    assert!(os.calls.is_empty());
}

#[test]
fn apply_output_only() {
    let mut os = Os::new();
    assert_eq!(
        os.drive(apply(None, Some("out.txt"))),
        End::Done(Ok(Saved { stdin: None, stdout: Some(4) }))
    );
    assert_eq!(os.drive(release(Saved { stdin: None, stdout: Some(4) })), End::Done(()));
    assert_eq!(names(&os), START.to_vec());
}

#[test]
fn targets_are_opened_as_the_streams_need() {
    assert_eq!(
        open_how(Stream::Stdin),
        OpenHow { read: true, create: false, truncate: false, mode: 0 }
    );
    assert_eq!(
        open_how(Stream::Stdout),
        OpenHow { read: false, create: true, truncate: true, mode: 0o600 }
    );
    let cmd = command(&["sort"], false, Some("in.txt"), None);
    assert_eq!(target(&cmd, Stream::Stdin), Some("in.txt"));
    assert_eq!(target(&cmd, Stream::Stdout), None);
    assert_eq!(Stream::Stdin.fd(), 0);
    assert_eq!(Stream::Stdout.fd(), 1);
}

#[test]
fn wait_process_gives_the_exit_status() {
    let mut os = Os::new();
    os.wait = Reply::Exited { code: 3 };
    assert_eq!(os.drive(wait_process(42)), End::Done(Ok(Status::from_code(3))));
    assert_eq!(os.calls, vec![Call::Wait { pid: 42 }]);
    os.wait = Reply::NotExited { errno: 4 };
    assert_eq!(os.drive(wait_process(42)), End::Done(Err(4)));
    os.wait = Reply::Failed { errno: 10 };
    assert_eq!(os.drive(wait_process(42)), End::Done(Err(10)));
}

#[test]
fn fork_child_tells_the_sides_apart() {
    let mut os = Os::new();
    os.forks = vec![Reply::Parent { pid: 9 }, Reply::Child, Reply::Failed { errno: 11 }];
    assert_eq!(os.drive(fork_child()), End::Done(Ok(Side::Parent(9))));
    assert_eq!(os.drive(fork_child()), End::Done(Ok(Side::Child)));
    assert_eq!(os.drive(fork_child()), End::Done(Err(11)));
    assert_eq!(os.calls, vec![Call::Fork, Call::Fork, Call::Fork]);
}

#[test]
fn fork_child_wait_waits_in_the_parent() {
    let mut os = Os::new();
    os.forks = vec![Reply::Parent { pid: 9 }, Reply::Child, Reply::Failed { errno: 11 }];
    os.wait = Reply::Exited { code: 5 };
    assert_eq!(os.drive(fork_child_wait()), End::Done(Ok(Side::Parent(Status::from_code(5)))));
    assert_eq!(os.calls, vec![Call::Fork, Call::Wait { pid: 9 }]);
    assert_eq!(os.drive(fork_child_wait()), End::Done(Ok(Side::Child)));
    assert_eq!(os.drive(fork_child_wait()), End::Done(Err(11)));
}

#[test]
fn exec_external_redirects_then_replaces_the_image() {
    let mut os = Os::new();
    let cmd = command(&["sort"], false, Some("in.txt"), Some("out.txt"));
    assert_eq!(os.drive(exec_external(&cmd)), End::Replaced);
    assert_eq!(os.calls.last(), Some(&Call::Exec));
    assert_eq!(os.calls.len(), 9);
    assert_eq!(os.table[&0], "file of Stdin");
    assert_eq!(os.table[&1], "file of Stdout");
}

#[test]
fn exec_external_comes_back_with_the_error() {
    let mut os = Os::new();
    os.exec = Some(2);
    let cmd = command(&["no-such-program"], false, None, None);
    assert_eq!(os.drive(exec_external(&cmd)), End::Done(2));
    assert_eq!(os.calls, vec![Call::Exec]);
    let mut os = Os::new();
    os.open_errors.insert(0, 13);
    let cmd = command(&["sort"], false, Some("secret"), None);
    assert_eq!(os.drive(exec_external(&cmd)), End::Done(13));
    assert_eq!(os.calls, vec![Call::Open { stream: Stream::Stdin }]);
}

#[test]
fn run_external_foreground_gives_the_exit_status() {
    let mut os = Os::new();
    os.forks = vec![Reply::Parent { pid: 42 }];
    os.wait = Reply::Exited { code: 3 };
    let cmd = command(&["sh", "-c", "exit 3"], false, None, None);
    assert_eq!(
        os.drive(run_external(&cmd)),
        End::Done(Ran { result: Ok(Status::from_code(3)), lastpid: None })
    );
    assert_eq!(os.calls, vec![Call::Fork, Call::Wait { pid: 42 }]);
    assert_eq!(names(&os), START.to_vec());
}

#[test]
fn run_external_duplicate_that_cannot_start_ends_with_127() {
    let mut os = Os::new();
    os.forks = vec![Reply::Child];
    os.exec = Some(2);
    let cmd = command(&["no-such-program"], false, None, None);
    assert_eq!(os.drive(run_external(&cmd)), End::<Ran>::Exited(127));
    assert_eq!(
        os.calls,
        vec![Call::Fork, Call::Exec, Call::Report { errno: 2 }, Call::Exit { code: 127 }]
    );
    assert_eq!(NOT_STARTED, 127);
    os.calls.clear();
    os.forks = vec![Reply::Parent { pid: 42 }];
    os.wait = Reply::Exited { code: 127 };
    assert_eq!(
        os.drive(run_external(&cmd)),
        End::Done(Ran { result: Ok(Status::from_code(127)), lastpid: None })
    );
}

#[test]
fn run_external_duplicate_reports_a_failed_redirection() {
    let mut os = Os::new();
    os.forks = vec![Reply::Child];
    os.open_errors.insert(1, 13);
    let cmd = command(&["ls"], false, None, Some("/forbidden"));
    assert_eq!(os.drive(run_external(&cmd)), End::<Ran>::Exited(127));
    assert_eq!(
        os.calls,
        vec![
            Call::Fork,
            Call::Open { stream: Stream::Stdout },
            Call::Report { errno: 13 },
            Call::Exit { code: 127 },
        ]
    );
}

#[test]
fn run_external_duplicate_becomes_the_program() {
    let mut os = Os::new();
    os.forks = vec![Reply::Child];
    let cmd = command(&["sort"], true, Some("in.txt"), None);
    assert_eq!(os.drive(run_external(&cmd)), End::<Ran>::Replaced);
    assert_eq!(
        os.calls,
        vec![
            Call::Fork,
            Call::Open { stream: Stream::Stdin },
            Call::Dup { fd: 0 },
            Call::Dup2 { from: 3, to: 0 },
            Call::Close { fd: 3 },
            Call::Exec,
        ]
    );
}

#[test]
fn run_external_background_does_not_wait() {
    let mut os = Os::new();
    os.forks = vec![Reply::Parent { pid: 77 }];
    let cmd = command(&["sleep", "100"], true, None, Some("log"));
    assert_eq!(
        os.drive(run_external(&cmd)),
        End::Done(Ran { result: Ok(Status::success()), lastpid: Some(77) })
    );
    assert_eq!(os.calls, vec![Call::Fork]);
}

#[test]
fn run_external_that_cannot_duplicate_fails() {
    for background in [false, true] {
        let mut os = Os::new();
        os.forks = vec![Reply::Failed { errno: 11 }];
        let cmd = command(&["ls"], background, None, None);
        assert_eq!(
            os.drive(run_external(&cmd)),
            End::Done(Ran { result: Err(11), lastpid: None })
        );
        assert_eq!(os.calls, vec![Call::Fork]);
    }
}

#[test]
fn run_external_that_ended_by_a_signal_fails() {
    let mut os = Os::new();
    os.forks = vec![Reply::Parent { pid: 42 }];
    os.wait = Reply::NotExited { errno: 4 };
    let cmd = command(&["cat"], false, None, None);
    assert_eq!(os.drive(run_external(&cmd)), End::Done(Ran { result: Err(4), lastpid: None }));
}

#[test]
fn exec_builtin_releases_after_the_handler() {
    let mut os = Os::new();
    os.handler = Reply::Returned { status: Status::from_code(7) };
    let cmd = command(&["dir.list"], false, Some("in.txt"), Some("out.txt"));
    assert_eq!(os.drive(exec_builtin(&cmd, true)), End::Done(Ok(Status::from_code(7))));
    assert_eq!(os.calls.len(), 13);
    assert_eq!(os.calls[8], Call::Invoke);
    assert_eq!(names(&os), START.to_vec());
}

#[test]
fn exec_builtin_releases_when_the_handler_fails() {
    let mut os = Os::new();
    os.handler = Reply::Failed { errno: 20 };
    let cmd = command(&["dir.list", "file"], false, None, Some("out.txt"));
    assert_eq!(os.drive(exec_builtin(&cmd, true)), End::Done(Err(20)));
    assert_eq!(
        os.calls,
        vec![
            Call::Open { stream: Stream::Stdout },
            Call::Dup { fd: 1 },
            Call::Dup2 { from: 3, to: 1 },
            Call::Close { fd: 3 },
            Call::Invoke,
            Call::Dup2 { from: 4, to: 1 },
            Call::Close { fd: 4 },
        ]
    );
    assert_eq!(names(&os), START.to_vec());
}

#[test]
fn exec_builtin_does_not_run_the_handler_when_redirection_fails() {
    let mut os = Os::new();
    os.open_errors.insert(1, 13);
    let cmd = command(&["echo", "hi"], false, Some("in.txt"), Some("/forbidden"));
    assert_eq!(os.drive(exec_builtin(&cmd, true)), End::Done(Err(13)));
    assert!(!os.calls.contains(&Call::Invoke));
    assert_eq!(names(&os), START.to_vec());
}

#[test]
fn exec_builtin_that_stays_redirected() {
    let mut os = Os::new();
    let cmd = command(&["echo", "hi"], true, None, Some("out.txt"));
    assert_eq!(os.drive(exec_builtin(&cmd, false)), End::Done(Ok(Status::success())));
    assert_eq!(os.calls.last(), Some(&Call::Invoke));
    assert_eq!(os.table[&1], "file of Stdout");
}

#[test]
fn run_builtin_foreground_runs_in_this_process() {
    let mut os = Os::new();
    os.handler = Reply::Returned { status: Status::from_code(1) };
    let cmd = command(&["status"], false, None, None);
    assert_eq!(
        os.drive(run_builtin(&cmd)),
        End::Done(Ran { result: Ok(Status::from_code(1)), lastpid: None })
    );
    assert_eq!(os.calls, vec![Call::Invoke]);
}

#[test]
fn run_builtin_foreground_gives_the_handlers_error() {
    let mut os = Os::new();
    os.handler = Reply::Failed { errno: 2 };
    let cmd = command(&["dir.change", "/missing"], false, None, None);
    assert_eq!(os.drive(run_builtin(&cmd)), End::Done(Ran { result: Err(2), lastpid: None }));
}

#[test]
fn run_builtin_background_does_not_wait() {
    let mut os = Os::new();
    os.forks = vec![Reply::Parent { pid: 55 }];
    let cmd = command(&["cpcat", "a", "b"], true, None, None);
    assert_eq!(
        os.drive(run_builtin(&cmd)),
        End::Done(Ran { result: Ok(Status::success()), lastpid: Some(55) })
    );
    assert_eq!(os.calls, vec![Call::Fork]);
    let mut os = Os::new();
    os.forks = vec![Reply::Failed { errno: 12 }];
    assert_eq!(os.drive(run_builtin(&cmd)), End::Done(Ran { result: Err(12), lastpid: None }));
}

#[test]
fn run_builtin_duplicate_applies_and_never_releases() {
    let mut os = Os::new();
    os.forks = vec![Reply::Child];
    let cmd = command(&["echo", "hi"], true, Some("in.txt"), Some("out.txt"));
    assert_eq!(os.drive(run_builtin(&cmd)), End::<Ran>::Exited(0));
    assert_eq!(os.calls.len(), 11);
    assert_eq!(os.calls[9], Call::Invoke);
    assert_eq!(os.calls[10], Call::Exit { code: 0 });
    assert_eq!(os.table[&0], "file of Stdin");
    assert_eq!(os.table[&1], "file of Stdout");
}

#[test]
fn run_builtin_duplicate_reports_its_failure() {
    let mut os = Os::new();
    os.forks = vec![Reply::Child];
    os.handler = Reply::Failed { errno: 2 };
    let cmd = command(&["unlink", "missing"], true, None, None);
    assert_eq!(os.drive(run_builtin(&cmd)), End::<Ran>::Exited(0));
    assert_eq!(
        os.calls,
        vec![Call::Fork, Call::Invoke, Call::Report { errno: 2 }, Call::Exit { code: 0 }]
    );
    assert_eq!(os.reports, vec![2]);
}

#[test]
fn eval_of_a_blank_line_is_nothing() {
    let builtins = Builtins::new();
    let state = State::new(&builtins, "frish", false);
    assert!(eval(&state, "").is_none());
    assert!(eval(&state, "  \n").is_none());
}

#[test]
fn eval_finds_the_builtin() {
    let builtins = Builtins::new();
    let state = State::new(&builtins, "frish", false);
    let dispatch = eval(&state, "echo hello >out.txt\n").expect("a command");
    assert_eq!(dispatch.command.args, vec!["echo", "hello"]);
    assert_eq!(dispatch.command.outredirect, Some("out.txt"));
    assert_eq!(dispatch.builtin.map(|b| b.handler), Some(Handler::Echo));
    let mut os = Os::new();
    assert_eq!(
        os.drive(dispatch.run),
        End::Done(Ran { result: Ok(Status::success()), lastpid: None })
    );
    assert_eq!(os.calls.len(), 7);
    assert_eq!(names(&os), START.to_vec());
}

#[test]
fn eval_runs_any_other_name_as_a_program() {
    let builtins = Builtins::new();
    let state = State::new(&builtins, "frish", false);
    let dispatch = eval(&state, "ls -l &").expect("a command");
    assert!(dispatch.builtin.is_none());
    assert!(dispatch.command.background);
    let mut os = Os::new();
    os.forks = vec![Reply::Parent { pid: 8 }];
    assert_eq!(
        os.drive(dispatch.run),
        End::Done(Ran { result: Ok(Status::success()), lastpid: Some(8) })
    );
}

#[test]
fn eval_reports_an_error_before_it_ends() {
    let builtins = Builtins::new();
    let mut state = State::new(&builtins, "frish", false);
    let dispatch = eval(&state, "dir.list <missing").expect("a command");
    let mut os = Os::new();
    os.open_errors.insert(0, 2);
    let ran = match os.drive(dispatch.run) {
        End::Done(ran) => ran,
        other => panic!("no result: {:?}", other),
    };
    assert_eq!(ran, Ran { result: Err(2), lastpid: None });
    assert_eq!(os.calls, vec![Call::Open { stream: Stream::Stdin }, Call::Report { errno: 2 }]);
    state.record(&ran);
    assert_eq!(state.status.code(), 2);
    assert!(state.running);
}

#[test]
fn record_keeps_the_status_and_the_background_process() {
    let builtins = Builtins::new();
    let mut state = State::new(&builtins, "frish", false);
    state.record(&Ran { result: Ok(Status::from_code(3)), lastpid: None });
    assert_eq!(state.status, Status::from_code(3));
    assert_eq!(state.lastpid, 0);
    state.record(&Ran { result: Ok(Status::success()), lastpid: Some(99) });
    assert_eq!(state.status, Status::success());
    assert_eq!(state.lastpid, 99);
    state.record(&Ran { result: Err(11), lastpid: None });
    assert_eq!(state.status.code(), 11);
    assert_eq!(state.lastpid, 99);
}

#[test]
fn pipeline_of_three_stages_in_the_shell() {
    let mut os = Os::new();
    os.forks =
        vec![Reply::Parent { pid: 11 }, Reply::Parent { pid: 12 }, Reply::Parent { pid: 13 }];
    os.wait = Reply::Exited { code: 9 };
    let args = vec!["pipes", "gen", "transform", "sink"];
    let start = do_pipes(&args).expect("a pipeline");
    assert_eq!(os.drive(start), End::Done(Ok(Status::success())));
    assert_eq!(
        os.calls,
        vec![
            Call::Pipe,
            Call::Fork,
            Call::Pipe,
            Call::Fork,
            Call::Close { fd: 3 },
            Call::Close { fd: 4 },
            Call::Fork,
            Call::Close { fd: 5 },
            Call::Close { fd: 6 },
            Call::Wait { pid: 13 },
        ]
    );
    assert_eq!(names(&os), START.to_vec());
}

#[test]
fn pipeline_of_two_stages_in_the_shell() {
    let mut os = Os::new();
    os.forks = vec![Reply::Parent { pid: 11 }, Reply::Parent { pid: 12 }];
    let args = vec!["pipes", "gen", "sink"];
    assert_eq!(os.drive(do_pipes(&args).expect("a pipeline")), End::Done(Ok(Status::success())));
    assert_eq!(
        os.calls,
        vec![
            Call::Pipe,
            Call::Fork,
            Call::Fork,
            Call::Close { fd: 3 },
            Call::Close { fd: 4 },
            Call::Wait { pid: 12 },
        ]
    );
    assert_eq!(names(&os), START.to_vec());
}

#[test]
fn pipeline_needs_two_stages() {
    assert!(do_pipes(&vec!["pipes"]).is_none());
    assert!(do_pipes(&vec!["pipes", "ls"]).is_none());
    assert!(do_pipes(&vec!["pipes", "ls", "wc"]).is_some());
}

#[test]
fn pipeline_first_stage_writes_to_the_pipe() {
    let mut os = Os::new();
    os.forks = vec![Reply::Child];
    let args = vec!["pipes", "gen", "transform", "sink"];
    assert_eq!(
        os.drive(do_pipes(&args).expect("a pipeline")),
        End::<Result<Status, i32>>::Exited(0)
    );
    assert_eq!(
        os.calls,
        vec![
            Call::Pipe,
            Call::Fork,
            Call::Dup2 { from: 4, to: 1 },
            Call::Close { fd: 3 },
            Call::Close { fd: 4 },
            Call::Eval { stage: 1 },
            Call::Exit { code: 0 },
        ]
    );
    assert_eq!(
        names(&os),
        vec![(0, "terminal in"), (1, "pipe 1 write"), (2, "terminal err")]
    );
}

#[test]
fn pipeline_middle_stage_reads_and_writes_pipes() {
    let mut os = Os::new();
    os.forks = vec![Reply::Parent { pid: 11 }, Reply::Child];
    let args = vec!["pipes", "gen", "transform", "sink"];
    assert_eq!(
        os.drive(do_pipes(&args).expect("a pipeline")),
        End::<Result<Status, i32>>::Exited(0)
    );
    assert_eq!(
        os.calls[4..],
        [
            Call::Dup2 { from: 3, to: 0 },
            Call::Dup2 { from: 6, to: 1 },
            Call::Close { fd: 3 },
            Call::Close { fd: 4 },
            Call::Close { fd: 5 },
            Call::Close { fd: 6 },
            Call::Eval { stage: 2 },
            Call::Exit { code: 0 },
        ]
    );
    assert_eq!(
        names(&os),
        vec![(0, "pipe 1 read"), (1, "pipe 2 write"), (2, "terminal err")]
    );
}

#[test]
fn pipeline_last_stage_reads_from_the_pipe() {
    let mut os = Os::new();
    os.forks = vec![Reply::Parent { pid: 11 }, Reply::Parent { pid: 12 }, Reply::Child];
    let args = vec!["pipes", "gen", "transform", "sink"];
    assert_eq!(
        os.drive(do_pipes(&args).expect("a pipeline")),
        End::<Result<Status, i32>>::Exited(0)
    );
    assert_eq!(
        os.calls[7..],
        [
            Call::Dup2 { from: 5, to: 0 },
            Call::Close { fd: 5 },
            Call::Close { fd: 6 },
            Call::Eval { stage: 3 },
            Call::Exit { code: 0 },
        ]
    );
    assert_eq!(
        names(&os),
        vec![(0, "pipe 2 read"), (1, "terminal out"), (2, "terminal err")]
    );
}

#[test]
fn pipeline_that_cannot_create_a_pipe_closes_what_it_holds() {
    let mut os = Os::new();
    os.pipe_errors.insert(1, 24);
    let args = vec!["pipes", "gen", "transform", "sink"];
    assert_eq!(os.drive(do_pipes(&args).expect("a pipeline")), End::Done(Err(24)));
    assert_eq!(os.calls, vec![Call::Pipe]);
    let mut os = Os::new();
    os.forks = vec![Reply::Parent { pid: 11 }];
    os.pipe_errors.insert(2, 24);
    assert_eq!(os.drive(do_pipes(&args).expect("a pipeline")), End::Done(Err(24)));
    assert_eq!(
        os.calls,
        vec![Call::Pipe, Call::Fork, Call::Pipe, Call::Close { fd: 3 }, Call::Close { fd: 4 }]
    );
    assert_eq!(names(&os), START.to_vec());
}

#[test]
fn pipeline_that_cannot_duplicate_closes_what_it_holds() {
    let args = vec!["pipes", "gen", "transform", "sink"];
    let mut forks = Vec::new();
    for failing in 0..3 {
        let mut os = Os::new();
        os.forks = forks.clone();
        os.forks.push(Reply::Failed { errno: 11 });
        assert_eq!(os.drive(do_pipes(&args).expect("a pipeline")), End::Done(Err(11)));
        assert_eq!(names(&os), START.to_vec(), "stage {}", failing + 1);
        assert!(!os.calls.iter().any(|call| matches!(call, Call::Wait { .. })));
        forks.push(Reply::Parent { pid: 11 + failing });
    }
}

#[test]
fn pipeline_fails_when_the_wait_fails() {
    let mut os = Os::new();
    os.forks = vec![Reply::Parent { pid: 11 }, Reply::Parent { pid: 12 }];
    os.wait = Reply::Failed { errno: 10 };
    let args = vec!["pipes", "gen", "sink"];
    assert_eq!(os.drive(do_pipes(&args).expect("a pipeline")), End::Done(Err(10)));
    assert_eq!(names(&os), START.to_vec());
}

#[test]
fn pipes_begin_gives_the_new_pipe() {
    let mut os = Os::new();
    os.forks = vec![Reply::Parent { pid: 11 }];
    assert_eq!(os.drive(pipes_begin(1)), End::Done(Ok(Ends { read: 3, write: 4 })));
    assert_eq!(os.calls, vec![Call::Pipe, Call::Fork]);
    assert_eq!(os.table[&3], "pipe 1 read");
    assert_eq!(os.table[&4], "pipe 1 write");
}

#[test]
fn pipes_cont_closes_the_pipe_before() {
    let mut os = Os::new();
    os.forks = vec![Reply::Parent { pid: 11 }, Reply::Parent { pid: 12 }];
    let prev = match os.drive(pipes_begin(1)) {
        End::Done(Ok(ends)) => ends,
        other => panic!("no pipe: {:?}", other),
    };
    assert_eq!(os.drive(pipes_cont(2, prev)), End::Done(Ok(Ends { read: 5, write: 6 })));
    assert_eq!(
        names(&os),
        vec![
            (0, "terminal in"),
            (1, "terminal out"),
            (2, "terminal err"),
            (5, "pipe 2 read"),
            (6, "pipe 2 write"),
        ]
    );
}

#[test]
fn pipes_end_gives_the_last_process() {
    let mut os = Os::new();
    os.forks = vec![Reply::Parent { pid: 11 }, Reply::Parent { pid: 12 }];
    let prev = match os.drive(pipes_begin(1)) {
        End::Done(Ok(ends)) => ends,
        other => panic!("no pipe: {:?}", other),
    };
    assert_eq!(os.drive(pipes_end(2, prev)), End::Done(Ok(12)));
    assert_eq!(names(&os), START.to_vec());
    let mut os = Os::new();
    os.forks = vec![Reply::Parent { pid: 11 }, Reply::Failed { errno: 11 }];
    let prev = match os.drive(pipes_begin(1)) {
        End::Done(Ok(ends)) => ends,
        other => panic!("no pipe: {:?}", other),
    };
    assert_eq!(os.drive(pipes_end(2, prev)), End::Done(Err(11)));
    assert_eq!(names(&os), START.to_vec());
}

#[test]
fn every_call_has_its_answers() {
    assert!(answered(&Call::Open { stream: Stream::Stdin }, &Reply::Fd { fd: 3 }));
    assert!(answered(&Call::Open { stream: Stream::Stdin }, &Reply::Failed { errno: 2 }));
    assert!(!answered(&Call::Open { stream: Stream::Stdin }, &Reply::Done));
    assert!(answered(&Call::Dup { fd: 0 }, &Reply::Fd { fd: 3 }));
    assert!(!answered(&Call::Dup { fd: 0 }, &Reply::Failed { errno: 9 }));
    assert!(answered(&Call::Dup2 { from: 3, to: 0 }, &Reply::Done));
    assert!(answered(&Call::Close { fd: 3 }, &Reply::Done));
    assert!(answered(&Call::Pipe, &Reply::Pipe { read: 3, write: 4 }));
    assert!(answered(&Call::Fork, &Reply::Child));
    assert!(answered(&Call::Fork, &Reply::Parent { pid: 1 }));
    assert!(answered(&Call::Wait { pid: 1 }, &Reply::Exited { code: 0 }));
    assert!(answered(&Call::Wait { pid: 1 }, &Reply::NotExited { errno: 0 }));
    assert!(answered(&Call::Exec, &Reply::Failed { errno: 2 }));
    assert!(!answered(&Call::Exec, &Reply::Done));
    assert!(answered(&Call::Invoke, &Reply::Returned { status: Status::success() }));
    assert!(answered(&Call::Eval { stage: 1 }, &Reply::Done));
    assert!(answered(&Call::Report { errno: 2 }, &Reply::Done));
    assert!(!answered(&Call::Exit { code: 0 }, &Reply::Done));
}
