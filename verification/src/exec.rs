//! Running one command: an external program or a builtin, in the
//! foreground or in the background.

use vstd::prelude::*;
use crate::common::Command;
use crate::fds::{effect, fresh, has_streams, Table};
use crate::redirect::{
    applied, apply, apply_targets, lemma_release_undoes_apply, release, saves, Apply, Release,
    Saved,
};
use crate::state::Status;
use crate::sys::{answers, Call, Machine, Progress, Reply};

verus! {

/// The exit status of a duplicate that could not start its program.
pub const NOT_STARTED: i32 = 127;

/// On which side of a duplication the process is: the one that asked, which
/// has `T` of its duplicate, or the duplicate.
#[derive(Clone, Copy, Debug, PartialEq, Eq)]
pub enum Side<T> {
    Parent(T),
    Child,
}

/// How an invocation ended, as the session sees it: with a status or with
/// the system error that stopped it, and with the process that it left in
/// the background, if any.
#[derive(Clone, Copy, Debug, PartialEq, Eq)]
pub struct Ran {
    pub result: Result<Status, i32>,
    pub lastpid: Option<i32>,
}

/// The wait for the process `pid` to end.
#[derive(Clone, Copy, Debug, PartialEq, Eq)]
pub struct Wait {
    pub pid: i32,
}

impl Wait {
}

impl Machine for Wait {
    type Output = Result<Status, i32>;

    /// The call that the wait stands for.
    open spec fn pending(&self) -> Call {
        Call::Wait { pid: self.pid }
    }

    /// The wait after `reply`: the exit status of a process that ended by
    /// itself is the status; any other end, and a wait that the system
    /// refuses, is an error.
    open spec fn after(&self, reply: Reply) -> Progress<Wait, Result<Status, i32>> {
        match reply {
            Reply::Exited { code } => Progress::Done(Ok(Status(code))),
            Reply::NotExited { errno } => Progress::Done(Err(errno)),
            Reply::Failed { errno } => Progress::Done(Err(errno)),
            _ => Progress::Busy(*self),
        }
    }

    /// The call to make now.
    fn call(&self) -> (call: Call)
        ensures
            call == self.pending(),
    {
        Call::Wait { pid: self.pid }
    }

    /// Takes the reply to the pending call.
    fn resume(self, reply: Reply) -> (next: Progress<Wait, Result<Status, i32>>)
        ensures
            next == self.after(reply),
    {
        match reply {
            Reply::Exited { code } => Progress::Done(Ok(Status::from_code(code))),
            Reply::NotExited { errno } => Progress::Done(Err(errno)),
            Reply::Failed { errno } => Progress::Done(Err(errno)),
            _ => Progress::Busy(self),
        }
    }
}

/// Starts to wait for the process `pid`.
pub fn wait_process(pid: i32) -> (start: Progress<Wait, Result<Status, i32>>)
    ensures
        start == Progress::<Wait, Result<Status, i32>>::Busy(Wait { pid }),
{
    Progress::Busy(Wait { pid })
}

/// The duplication of the process, with nothing to wait for.
#[derive(Clone, Copy, Debug, PartialEq, Eq)]
pub struct ForkChild;

impl ForkChild {
}

impl Machine for ForkChild {
    type Output = Result<Side<i32>, i32>;

    /// The call that the duplication stands for.
    open spec fn pending(&self) -> Call {
        Call::Fork
    }

    /// The duplication after `reply`: the process that asked has the
    /// duplicate's process id.
    open spec fn after(&self, reply: Reply) -> Progress<ForkChild, Result<Side<i32>, i32>> {
        match reply {
            Reply::Parent { pid } => Progress::Done(Ok(Side::Parent(pid))),
            Reply::Child => Progress::Done(Ok(Side::Child)),
            Reply::Failed { errno } => Progress::Done(Err(errno)),
            _ => Progress::Busy(*self),
        }
    }

    /// The call to make now.
    fn call(&self) -> (call: Call)
        ensures
            call == self.pending(),
    {
        Call::Fork
    }

    /// Takes the reply to the pending call.
    fn resume(self, reply: Reply) -> (next: Progress<ForkChild, Result<Side<i32>, i32>>)
        ensures
            next == self.after(reply),
    {
        match reply {
            Reply::Parent { pid } => Progress::Done(Ok(Side::Parent(pid))),
            Reply::Child => Progress::Done(Ok(Side::Child)),
            Reply::Failed { errno } => Progress::Done(Err(errno)),
            _ => Progress::Busy(self),
        }
    }
}

/// Starts to duplicate the process.
pub fn fork_child() -> (start: Progress<ForkChild, Result<Side<i32>, i32>>)
    ensures
        start == Progress::<ForkChild, Result<Side<i32>, i32>>::Busy(ForkChild),
{
    Progress::Busy(ForkChild)
}

/// The duplication of the process, where the process that asked waits for
/// its duplicate to end.
#[derive(Clone, Copy, Debug, PartialEq, Eq)]
pub enum ForkChildWait {
    /// The process is to be duplicated.
    Fork,
    /// The duplicate runs.
    Wait { wait: Wait },
}

impl ForkChildWait {
}

impl Machine for ForkChildWait {
    type Output = Result<Side<Status>, i32>;

    /// The call that the duplication waits for.
    open spec fn pending(&self) -> Call {
        match *self {
            ForkChildWait::Fork => Call::Fork,
            ForkChildWait::Wait { wait } => wait.pending(),
        }
    }

    /// The duplication after `reply`: the process that asked has the
    /// status that its duplicate ended with.
    open spec fn after(&self, reply: Reply) -> Progress<ForkChildWait, Result<Side<Status>, i32>> {
        match *self {
            ForkChildWait::Fork => match reply {
                Reply::Parent { pid } => Progress::Busy(ForkChildWait::Wait { wait: Wait { pid } }),
                Reply::Child => Progress::Done(Ok(Side::Child)),
                Reply::Failed { errno } => Progress::Done(Err(errno)),
                _ => Progress::Busy(*self),
            },
            ForkChildWait::Wait { wait } => match wait.after(reply) {
                Progress::Busy(wait) => Progress::Busy(ForkChildWait::Wait { wait }),
                Progress::Done(Ok(status)) => Progress::Done(Ok(Side::Parent(status))),
                Progress::Done(Err(errno)) => Progress::Done(Err(errno)),
            },
        }
    }

    /// The call to make now.
    fn call(&self) -> (call: Call)
        ensures
            call == self.pending(),
    {
        match self {
            ForkChildWait::Fork => Call::Fork,
            ForkChildWait::Wait { wait } => wait.call(),
        }
    }

    /// Takes the reply to the pending call.
    fn resume(self, reply: Reply) -> (next: Progress<ForkChildWait, Result<Side<Status>, i32>>)
        ensures
            next == self.after(reply),
    {
        match self {
            ForkChildWait::Fork => match reply {
                Reply::Parent { pid } => Progress::Busy(ForkChildWait::Wait { wait: Wait { pid } }),
                Reply::Child => Progress::Done(Ok(Side::Child)),
                Reply::Failed { errno } => Progress::Done(Err(errno)),
                _ => Progress::Busy(self),
            },
            ForkChildWait::Wait { wait } => match wait.resume(reply) {
                Progress::Busy(wait) => Progress::Busy(ForkChildWait::Wait { wait }),
                Progress::Done(Ok(status)) => Progress::Done(Ok(Side::Parent(status))),
                Progress::Done(Err(errno)) => Progress::Done(Err(errno)),
            },
        }
    }
}

/// Starts to duplicate the process and to wait for the duplicate.
pub fn fork_child_wait() -> (start: Progress<ForkChildWait, Result<Side<Status>, i32>>)
    ensures
        start == Progress::<ForkChildWait, Result<Side<Status>, i32>>::Busy(ForkChildWait::Fork),
{
    Progress::Busy(ForkChildWait::Fork)
}

/// What the duplicate does for an external program: it redirects the
/// streams and replaces its image. It comes back only with an error.
#[derive(Clone, Copy, Debug, PartialEq, Eq)]
pub enum ExecExternal {
    /// The streams are being redirected.
    Apply { apply: Apply },
    /// The image is to be replaced; `saved` keeps the former streams.
    Exec { saved: Saved },
}

impl ExecExternal {
    /// Goes on to replace the image once the streams are redirected; an
    /// error ends the work.
    pub open spec fn from_apply(apply: Progress<Apply, Result<Saved, i32>>) -> Progress<
        ExecExternal,
        i32,
    > {
        match apply {
            Progress::Busy(apply) => Progress::Busy(ExecExternal::Apply { apply }),
            Progress::Done(Ok(saved)) => Progress::Busy(ExecExternal::Exec { saved }),
            Progress::Done(Err(errno)) => Progress::Done(errno),
        }
    }

    /// The work at its start; `input` and `output` say whether the command
    /// names a target for each stream.
    pub open spec fn start(input: bool, output: bool) -> Progress<ExecExternal, i32> {
        ExecExternal::from_apply(Apply::start(input, output))
    }

    /// Whether the work can stand where it stands, having started on
    /// `start`.
    pub open spec fn valid(self, start: Table) -> bool {
        match self {
            ExecExternal::Apply { apply } => apply.valid(start),
            ExecExternal::Exec { saved } => saves(start, saved),
        }
    }

    /// The table while the work waits, having started on `start`: the
    /// image is replaced with both streams redirected.
    pub open spec fn table(self, start: Table) -> Table {
        match self {
            ExecExternal::Apply { apply } => apply.table(start),
            ExecExternal::Exec { saved } => applied(start, saved),
        }
    }

    /// Each reply takes the table where `table` says.
    pub proof fn lemma_step(self, start: Table, reply: Reply)
        requires
            self.valid(start),
            answers(self.pending(), reply),
            fresh(self.table(start), reply),
        ensures
            self.after(reply) matches Progress::Busy(next) ==> next.valid(start) && next.table(
                start,
            ) == effect(self.table(start), self.pending(), reply),
    {
        match self {
            ExecExternal::Apply { apply } => {
                apply.lemma_step(start, reply);
            },
            ExecExternal::Exec { .. } => {},
        }
    }

}

impl Machine for ExecExternal {
    type Output = i32;

    /// The call that the work waits for.
    open spec fn pending(&self) -> Call {
        match *self {
            ExecExternal::Apply { apply } => apply.pending(),
            ExecExternal::Exec { .. } => Call::Exec,
        }
    }

    /// The work after `reply`. The result is the error of the redirection
    /// or of the replacement that failed; a replacement that succeeds is
    /// never answered.
    open spec fn after(&self, reply: Reply) -> Progress<ExecExternal, i32> {
        match *self {
            ExecExternal::Apply { apply } => ExecExternal::from_apply(apply.after(reply)),
            ExecExternal::Exec { .. } => match reply {
                Reply::Failed { errno } => Progress::Done(errno),
                _ => Progress::Busy(*self),
            },
        }
    }

    /// The call to make now.
    fn call(&self) -> (call: Call)
        ensures
            call == self.pending(),
    {
        match self {
            ExecExternal::Apply { apply } => apply.call(),
            ExecExternal::Exec { .. } => Call::Exec,
        }
    }

    /// Takes the reply to the pending call.
    fn resume(self, reply: Reply) -> (next: Progress<ExecExternal, i32>)
        ensures
            next == self.after(reply),
    {
        match self {
            ExecExternal::Apply { apply } => applied_external(apply.resume(reply)),
            ExecExternal::Exec { .. } => match reply {
                Reply::Failed { errno } => Progress::Done(errno),
                _ => Progress::Busy(self),
            },
        }
    }
}

/// Goes on to replace the image once the streams are redirected.
fn applied_external(apply: Progress<Apply, Result<Saved, i32>>) -> (next: Progress<
    ExecExternal,
    i32,
>)
    ensures
        next == ExecExternal::from_apply(apply),
{
    match apply {
        Progress::Busy(apply) => Progress::Busy(ExecExternal::Apply { apply }),
        Progress::Done(Ok(saved)) => Progress::Busy(ExecExternal::Exec { saved }),
        Progress::Done(Err(errno)) => Progress::Done(errno),
    }
}

/// Starts, in the duplicate, what runs the external program of `cmd`.
pub fn exec_external(cmd: &Command) -> (start: Progress<ExecExternal, i32>)
    ensures
        start == ExecExternal::start(cmd.inredirect is Some, cmd.outredirect is Some),
{
    applied_external(apply(cmd.inredirect, cmd.outredirect))
}

/// The run of an external program.
#[derive(Clone, Copy, Debug, PartialEq, Eq)]
pub enum RunExternal {
    /// The process is being duplicated, and will wait for its duplicate.
    Foreground { fork: ForkChildWait, input: bool, output: bool },
    /// The process is being duplicated, and will not wait.
    Background { spawn: ForkChild, input: bool, output: bool },
    /// This is the duplicate, at its work.
    Child { work: ExecExternal },
    /// This is the duplicate; its work failed with `errno`, which is to be
    /// reported.
    Report { errno: i32 },
    /// This is the duplicate, about to end.
    Exit,
}

impl RunExternal {
    /// The duplicate at work, or about to report why the work failed.
    pub open spec fn child(work: Progress<ExecExternal, i32>) -> Progress<RunExternal, Ran> {
        match work {
            Progress::Busy(work) => Progress::Busy(RunExternal::Child { work }),
            Progress::Done(errno) => Progress::Busy(RunExternal::Report { errno }),
        }
    }

    /// The run at its start.
    pub open spec fn start(background: bool, input: bool, output: bool) -> Progress<
        RunExternal,
        Ran,
    > {
        if background {
            Progress::Busy(RunExternal::Background { spawn: ForkChild, input, output })
        } else {
            Progress::Busy(RunExternal::Foreground { fork: ForkChildWait::Fork, input, output })
        }
    }

    /// Whether this is the duplicate.
    pub open spec fn in_duplicate(self) -> bool {
        self is Child || self is Report || self is Exit
    }

    /// The duplicate never comes back: whatever it is told, it has no
    /// result, and it stays the duplicate.
    pub proof fn lemma_duplicate_never_returns(self, reply: Reply)
        requires
            self.in_duplicate(),
        ensures
            self.after(reply) matches Progress::Busy(next) && next.in_duplicate(),
    {
    }

    /// The process that asked touches no descriptor: it duplicates itself
    /// and, in the foreground, waits. In the background it never waits.
    pub proof fn lemma_parent_calls(self)
        requires
            !self.in_duplicate(),
        ensures
            self.pending() is Fork || (self is Foreground && self.pending() is Wait),
    {
    }

    /// In the process that asked, the result is the status that the
    /// duplicate ended with, in the foreground, and success with the
    /// duplicate's process id, in the background; the reply `Child` makes
    /// the duplicate.
    pub proof fn lemma_parent_result(self, reply: Reply)
        requires
            !self.in_duplicate(),
            answers(self.pending(), reply),
        ensures
            reply matches Reply::Exited { code } ==> self.after(reply) == Progress::<
                RunExternal,
                Ran,
            >::Done(Ran { result: Ok(Status(code)), lastpid: None }),
            reply matches Reply::Parent { pid } ==> (if self is Background {
                self.after(reply) == Progress::<RunExternal, Ran>::Done(
                    Ran { result: Ok(Status(0)), lastpid: Some(pid) },
                )
            } else {
                (self.after(reply) matches Progress::Busy(next) && next.pending() == (Call::Wait {
                    pid,
                }))
            }),
            reply is Child ==> (self.after(reply) matches Progress::Busy(next)
                && next.in_duplicate()),
            (reply matches Reply::Failed { errno } ==> self.after(reply) == Progress::<
                RunExternal,
                Ran,
            >::Done(Ran { result: Err(errno), lastpid: None })),
    {
    }

}

impl Machine for RunExternal {
    type Output = Ran;

    /// The call that the run waits for.
    open spec fn pending(&self) -> Call {
        match *self {
            RunExternal::Foreground { fork, .. } => fork.pending(),
            RunExternal::Background { spawn, .. } => spawn.pending(),
            RunExternal::Child { work } => work.pending(),
            RunExternal::Report { errno } => Call::Report { errno },
            RunExternal::Exit => Call::Exit { code: NOT_STARTED },
        }
    }

    /// The run after `reply`.
    ///
    /// The process is always duplicated; where that fails, the error is
    /// the result. In the foreground the result is the status that the
    /// duplicate ends with. In the background the result is success at
    /// once, with the duplicate as the last background process. The
    /// duplicate redirects its streams and replaces its image; where either
    /// fails it reports the error and ends with the status `NOT_STARTED`.
    /// It never has a result.
    open spec fn after(&self, reply: Reply) -> Progress<RunExternal, Ran> {
        match *self {
            RunExternal::Foreground { fork, input, output } => match fork.after(reply) {
                Progress::Busy(fork) => Progress::Busy(
                    RunExternal::Foreground { fork, input, output },
                ),
                Progress::Done(Ok(Side::Parent(status))) => Progress::Done(
                    Ran { result: Ok(status), lastpid: None },
                ),
                Progress::Done(Ok(Side::Child)) => RunExternal::child(
                    ExecExternal::start(input, output),
                ),
                Progress::Done(Err(errno)) => Progress::Done(
                    Ran { result: Err(errno), lastpid: None },
                ),
            },
            RunExternal::Background { spawn, input, output } => match spawn.after(reply) {
                Progress::Busy(spawn) => Progress::Busy(
                    RunExternal::Background { spawn, input, output },
                ),
                Progress::Done(Ok(Side::Parent(pid))) => Progress::Done(
                    Ran { result: Ok(Status(0)), lastpid: Some(pid) },
                ),
                Progress::Done(Ok(Side::Child)) => RunExternal::child(
                    ExecExternal::start(input, output),
                ),
                Progress::Done(Err(errno)) => Progress::Done(
                    Ran { result: Err(errno), lastpid: None },
                ),
            },
            RunExternal::Child { work } => RunExternal::child(work.after(reply)),
            RunExternal::Report { .. } => match reply {
                Reply::Done => Progress::Busy(RunExternal::Exit),
                _ => Progress::Busy(*self),
            },
            RunExternal::Exit => Progress::Busy(*self),
        }
    }

    /// The call to make now.
    fn call(&self) -> (call: Call)
        ensures
            call == self.pending(),
    {
        match self {
            RunExternal::Foreground { fork, .. } => fork.call(),
            RunExternal::Background { spawn, .. } => spawn.call(),
            RunExternal::Child { work } => work.call(),
            RunExternal::Report { errno } => Call::Report { errno: *errno },
            RunExternal::Exit => Call::Exit { code: NOT_STARTED },
        }
    }

    /// Takes the reply to the pending call.
    fn resume(self, reply: Reply) -> (next: Progress<RunExternal, Ran>)
        ensures
            next == self.after(reply),
    {
        match self {
            RunExternal::Foreground { fork, input, output } => match fork.resume(reply) {
                Progress::Busy(fork) => Progress::Busy(
                    RunExternal::Foreground { fork, input, output },
                ),
                Progress::Done(Ok(Side::Parent(status))) => Progress::Done(
                    Ran { result: Ok(status), lastpid: None },
                ),
                Progress::Done(Ok(Side::Child)) => external_child(
                    applied_external(apply_targets(input, output)),
                ),
                Progress::Done(Err(errno)) => Progress::Done(
                    Ran { result: Err(errno), lastpid: None },
                ),
            },
            RunExternal::Background { spawn, input, output } => match spawn.resume(reply) {
                Progress::Busy(spawn) => Progress::Busy(
                    RunExternal::Background { spawn, input, output },
                ),
                Progress::Done(Ok(Side::Parent(pid))) => Progress::Done(
                    Ran { result: Ok(Status::success()), lastpid: Some(pid) },
                ),
                Progress::Done(Ok(Side::Child)) => external_child(
                    applied_external(apply_targets(input, output)),
                ),
                Progress::Done(Err(errno)) => Progress::Done(
                    Ran { result: Err(errno), lastpid: None },
                ),
            },
            RunExternal::Child { work } => external_child(work.resume(reply)),
            RunExternal::Report { .. } => match reply {
                Reply::Done => Progress::Busy(RunExternal::Exit),
                _ => Progress::Busy(self),
            },
            RunExternal::Exit => Progress::Busy(self),
        }
    }
}

/// The duplicate at work, or about to report why the work failed.
fn external_child(work: Progress<ExecExternal, i32>) -> (next: Progress<RunExternal, Ran>)
    ensures
        next == RunExternal::child(work),
{
    match work {
        Progress::Busy(work) => Progress::Busy(RunExternal::Child { work }),
        Progress::Done(errno) => Progress::Busy(RunExternal::Report { errno }),
    }
}

/// Starts to run the external program of `cmd`.
pub fn run_external(cmd: &Command) -> (start: Progress<RunExternal, Ran>)
    ensures
        start == RunExternal::start(
            cmd.background,
            cmd.inredirect is Some,
            cmd.outredirect is Some,
        ),
{
    let input = cmd.inredirect.is_some();
    let output = cmd.outredirect.is_some();
    if cmd.background {
        Progress::Busy(RunExternal::Background { spawn: ForkChild, input, output })
    } else {
        Progress::Busy(RunExternal::Foreground { fork: ForkChildWait::Fork, input, output })
    }
}

/// A builtin at work in this process: the streams are redirected, the
/// handler runs, and the streams are put back.
#[derive(Clone, Copy, Debug, PartialEq, Eq)]
pub enum ExecBuiltin {
    /// The streams are being redirected; `release` says whether they will
    /// be put back.
    Apply { apply: Apply, release: bool },
    /// The handler is to run; `saved` keeps the former streams.
    Handler { saved: Saved, release: bool },
    /// The streams are being put back; `result` is what the handler gave.
    Release { back: Release, result: Result<Status, i32> },
}

impl ExecBuiltin {
    /// Goes on to the handler once the streams are redirected; an error
    /// ends the work, and the handler does not run.
    pub open spec fn from_apply(
        apply: Progress<Apply, Result<Saved, i32>>,
        release: bool,
    ) -> Progress<ExecBuiltin, Result<Status, i32>> {
        match apply {
            Progress::Busy(apply) => Progress::Busy(ExecBuiltin::Apply { apply, release }),
            Progress::Done(Ok(saved)) => Progress::Busy(ExecBuiltin::Handler { saved, release }),
            Progress::Done(Err(errno)) => Progress::Done(Err(errno)),
        }
    }

    /// Ends with the handler's result once the streams are back.
    pub open spec fn from_release(
        back: Progress<Release, ()>,
        result: Result<Status, i32>,
    ) -> Progress<ExecBuiltin, Result<Status, i32>> {
        match back {
            Progress::Busy(back) => Progress::Busy(ExecBuiltin::Release { back, result }),
            Progress::Done(_) => Progress::Done(result),
        }
    }

    /// What follows the handler: the streams are put back, whether the
    /// handler failed or not, unless they are to stay.
    pub open spec fn handled(saved: Saved, release: bool, result: Result<Status, i32>) -> Progress<
        ExecBuiltin,
        Result<Status, i32>,
    > {
        if release {
            ExecBuiltin::from_release(Release::start(saved), result)
        } else {
            Progress::Done(result)
        }
    }

    /// The work at its start; `input` and `output` say whether the command
    /// names a target for each stream, `release` whether the streams are
    /// put back after the handler.
    pub open spec fn start(input: bool, output: bool, release: bool) -> Progress<
        ExecBuiltin,
        Result<Status, i32>,
    > {
        ExecBuiltin::from_apply(Apply::start(input, output), release)
    }

    /// Whether the streams are put back after the handler.
    pub open spec fn releases(self) -> bool {
        match self {
            ExecBuiltin::Apply { release, .. } => release,
            ExecBuiltin::Handler { release, .. } => release,
            ExecBuiltin::Release { .. } => true,
        }
    }

    /// Whether the work can stand where it stands, having started on
    /// `start`.
    pub open spec fn valid(self, start: Table) -> bool {
        match self {
            ExecBuiltin::Apply { apply, .. } => apply.valid(start),
            ExecBuiltin::Handler { saved, .. } => saves(start, saved),
            ExecBuiltin::Release { back, .. } => saves(start, back.saved()) && back.valid(
                applied(start, back.saved()),
            ),
        }
    }

    /// The table while the work waits, having started on `start`: the
    /// handler runs with both streams redirected.
    pub open spec fn table(self, start: Table) -> Table {
        match self {
            ExecBuiltin::Apply { apply, .. } => apply.table(start),
            ExecBuiltin::Handler { saved, .. } => applied(start, saved),
            ExecBuiltin::Release { back, .. } => back.table(applied(start, back.saved())),
        }
    }

    /// At its start the work has changed nothing.
    pub proof fn lemma_start(input: bool, output: bool, release: bool, start: Table)
        requires
            has_streams(start),
        ensures
            ExecBuiltin::start(input, output, release) matches Progress::Busy(first)
                && first.valid(start) && first.table(start) == start && first.releases()
                == release,
    {
        Apply::lemma_start(input, output, start);
        if let Progress::Busy(first) = ExecBuiltin::start(input, output, release) {
            assert(first.table(start) =~= start);
        }
    }

    /// Each reply takes the table where `table` says, and work that puts
    /// the streams back ends on the table that it started on, whether the
    /// redirection failed, the handler failed, or nothing did: no
    /// descriptor is left open, and both streams are where they were.
    pub proof fn lemma_step(self, start: Table, reply: Reply)
        requires
            self.valid(start),
            answers(self.pending(), reply),
            fresh(self.table(start), reply),
        ensures
            match self.after(reply) {
                Progress::Busy(next) => next.valid(start) && next.releases() == self.releases()
                    && next.table(start) == effect(self.table(start), self.pending(), reply),
                Progress::Done(_) => self.releases() ==> start == effect(
                    self.table(start),
                    self.pending(),
                    reply,
                ),
            },
    {
        match self {
            ExecBuiltin::Apply { apply, .. } => {
                apply.lemma_step(start, reply);
            },
            ExecBuiltin::Handler { saved, release } => {
                lemma_release_undoes_apply(start, saved);
                Release::lemma_start(saved, applied(start, saved));
            },
            ExecBuiltin::Release { back, .. } => {
                lemma_release_undoes_apply(start, back.saved());
                back.lemma_step(applied(start, back.saved()), reply);
            },
        }
    }

}

impl Machine for ExecBuiltin {
    type Output = Result<Status, i32>;

    /// The call that the work waits for.
    open spec fn pending(&self) -> Call {
        match *self {
            ExecBuiltin::Apply { apply, .. } => apply.pending(),
            ExecBuiltin::Handler { .. } => Call::Invoke,
            ExecBuiltin::Release { back, .. } => back.pending(),
        }
    }

    /// The work after `reply`. The result is the error of the redirection,
    /// or else what the handler gave: its status or its error.
    open spec fn after(&self, reply: Reply) -> Progress<ExecBuiltin, Result<Status, i32>> {
        match *self {
            ExecBuiltin::Apply { apply, release } => ExecBuiltin::from_apply(
                apply.after(reply),
                release,
            ),
            ExecBuiltin::Handler { saved, release } => match reply {
                Reply::Returned { status } => ExecBuiltin::handled(saved, release, Ok(status)),
                Reply::Failed { errno } => ExecBuiltin::handled(saved, release, Err(errno)),
                _ => Progress::Busy(*self),
            },
            ExecBuiltin::Release { back, result } => ExecBuiltin::from_release(
                back.after(reply),
                result,
            ),
        }
    }

    /// The call to make now.
    fn call(&self) -> (call: Call)
        ensures
            call == self.pending(),
    {
        match self {
            ExecBuiltin::Apply { apply, .. } => apply.call(),
            ExecBuiltin::Handler { .. } => Call::Invoke,
            ExecBuiltin::Release { back, .. } => back.call(),
        }
    }

    /// Takes the reply to the pending call.
    fn resume(self, reply: Reply) -> (next: Progress<ExecBuiltin, Result<Status, i32>>)
        ensures
            next == self.after(reply),
    {
        match self {
            ExecBuiltin::Apply { apply, release } => applied_builtin(apply.resume(reply), release),
            ExecBuiltin::Handler { saved, release } => match reply {
                Reply::Returned { status } => handled(saved, release, Ok(status)),
                Reply::Failed { errno } => handled(saved, release, Err(errno)),
                _ => Progress::Busy(self),
            },
            ExecBuiltin::Release { back, result } => released_builtin(back.resume(reply), result),
        }
    }
}

/// Goes on to the handler once the streams are redirected.
fn applied_builtin(apply: Progress<Apply, Result<Saved, i32>>, release: bool) -> (next: Progress<
    ExecBuiltin,
    Result<Status, i32>,
>)
    ensures
        next == ExecBuiltin::from_apply(apply, release),
{
    match apply {
        Progress::Busy(apply) => Progress::Busy(ExecBuiltin::Apply { apply, release }),
        Progress::Done(Ok(saved)) => Progress::Busy(ExecBuiltin::Handler { saved, release }),
        Progress::Done(Err(errno)) => Progress::Done(Err(errno)),
    }
}

/// Ends with the handler's result once the streams are back.
fn released_builtin(back: Progress<Release, ()>, result: Result<Status, i32>) -> (next: Progress<
    ExecBuiltin,
    Result<Status, i32>,
>)
    ensures
        next == ExecBuiltin::from_release(back, result),
{
    match back {
        Progress::Busy(back) => Progress::Busy(ExecBuiltin::Release { back, result }),
        Progress::Done(_) => Progress::Done(result),
    }
}

/// What follows the handler.
fn handled(saved: Saved, release_after: bool, result: Result<Status, i32>) -> (next: Progress<
    ExecBuiltin,
    Result<Status, i32>,
>)
    ensures
        next == ExecBuiltin::handled(saved, release_after, result),
{
    if release_after {
        released_builtin(release(saved), result)
    } else {
        Progress::Done(result)
    }
}

/// Starts the builtin of `cmd` in this process; `release` says whether the
/// streams are put back after the handler, as they must be where the
/// process goes on afterwards.
pub fn exec_builtin(cmd: &Command, release: bool) -> (start: Progress<
    ExecBuiltin,
    Result<Status, i32>,
>)
    ensures
        start == ExecBuiltin::start(cmd.inredirect is Some, cmd.outredirect is Some, release),
{
    applied_builtin(apply(cmd.inredirect, cmd.outredirect), release)
}

/// The run of a builtin.
#[derive(Clone, Copy, Debug, PartialEq, Eq)]
pub enum RunBuiltin {
    /// The builtin is at work in this process.
    Foreground { work: ExecBuiltin },
    /// The process is being duplicated, and will not wait.
    Background { spawn: ForkChild, input: bool, output: bool },
    /// This is the duplicate, at its work.
    Child { work: ExecBuiltin },
    /// This is the duplicate; its work failed with `errno`, which is to be
    /// reported.
    Report { errno: i32 },
    /// This is the duplicate, about to end.
    Exit,
}

impl RunBuiltin {
    /// The builtin at work in this process, or its result.
    pub open spec fn foreground(work: Progress<ExecBuiltin, Result<Status, i32>>) -> Progress<
        RunBuiltin,
        Ran,
    > {
        match work {
            Progress::Busy(work) => Progress::Busy(RunBuiltin::Foreground { work }),
            Progress::Done(result) => Progress::Done(Ran { result, lastpid: None }),
        }
    }

    /// The duplicate at work, about to report why the work failed, or
    /// about to end.
    pub open spec fn child(work: Progress<ExecBuiltin, Result<Status, i32>>) -> Progress<
        RunBuiltin,
        Ran,
    > {
        match work {
            Progress::Busy(work) => Progress::Busy(RunBuiltin::Child { work }),
            Progress::Done(Ok(_)) => Progress::Busy(RunBuiltin::Exit),
            Progress::Done(Err(errno)) => Progress::Busy(RunBuiltin::Report { errno }),
        }
    }

    /// The run at its start.
    pub open spec fn start(background: bool, input: bool, output: bool) -> Progress<
        RunBuiltin,
        Ran,
    > {
        if background {
            Progress::Busy(RunBuiltin::Background { spawn: ForkChild, input, output })
        } else {
            RunBuiltin::foreground(ExecBuiltin::start(input, output, true))
        }
    }

    /// Whether this is the duplicate.
    pub open spec fn in_duplicate(self) -> bool {
        self is Child || self is Report || self is Exit
    }

    /// The duplicate never comes back: whatever it is told, it has no
    /// result, and it stays the duplicate.
    pub proof fn lemma_duplicate_never_returns(self, reply: Reply)
        requires
            self.in_duplicate(),
        ensures
            self.after(reply) matches Progress::Busy(next) && next.in_duplicate(),
    {
    }

    /// The duplicate applies and never releases: whatever it is told, it
    /// does not start to put a stream back.
    pub proof fn lemma_duplicate_never_releases(self, reply: Reply)
        requires
            self matches RunBuiltin::Child { work } && !work.releases(),
        ensures
            self.after(reply) matches Progress::Busy(RunBuiltin::Child { work }) ==> !(work
                is Release) && !work.releases(),
    {
    }

    /// Whether the run can stand where it stands, having started on
    /// `start`.
    pub open spec fn valid(self, start: Table) -> bool {
        match self {
            RunBuiltin::Foreground { work } => work.valid(start) && work.releases(),
            RunBuiltin::Child { work } => work.valid(start) && !work.releases(),
            _ => has_streams(start),
        }
    }

    /// The table while the run waits, having started on `start`.
    pub open spec fn table(self, start: Table) -> Table {
        match self {
            RunBuiltin::Foreground { work } => work.table(start),
            RunBuiltin::Child { work } => work.table(start),
            _ => start,
        }
    }

    /// At its start the run has changed nothing.
    pub proof fn lemma_start(background: bool, input: bool, output: bool, start: Table)
        requires
            has_streams(start),
        ensures
            RunBuiltin::start(background, input, output) matches Progress::Busy(first)
                && first.valid(start) && first.table(start) == start && !first.in_duplicate(),
    {
        ExecBuiltin::lemma_start(input, output, true, start);
    }

    /// Each reply takes the table where `table` says, and a run that has a
    /// result leaves the shell's descriptors as they were: in the
    /// foreground both streams are back and no duplicate is open, on every
    /// path; in the background the shell touched no descriptor.
    pub proof fn lemma_step(self, start: Table, reply: Reply)
        requires
            self.valid(start),
            !(self is Report) && !(self is Exit),
            answers(self.pending(), reply),
            fresh(self.table(start), reply),
        ensures
            match self.after(reply) {
                Progress::Busy(next) => (next is Report || next is Exit || (next.valid(start)
                    && next.table(start) == effect(self.table(start), self.pending(), reply))),
                Progress::Done(_) => start == effect(self.table(start), self.pending(), reply),
            },
    {
        match self {
            RunBuiltin::Foreground { work } => {
                work.lemma_step(start, reply);
            },
            RunBuiltin::Background { input, output, .. } => {
                ExecBuiltin::lemma_start(input, output, false, start);
            },
            RunBuiltin::Child { work } => {
                work.lemma_step(start, reply);
            },
            _ => {},
        }
    }

}

impl Machine for RunBuiltin {
    type Output = Ran;

    /// The call that the run waits for.
    open spec fn pending(&self) -> Call {
        match *self {
            RunBuiltin::Foreground { work } => work.pending(),
            RunBuiltin::Background { spawn, .. } => spawn.pending(),
            RunBuiltin::Child { work } => work.pending(),
            RunBuiltin::Report { errno } => Call::Report { errno },
            RunBuiltin::Exit => Call::Exit { code: 0 },
        }
    }

    /// The run after `reply`.
    ///
    /// In the foreground the builtin works in this process: the streams
    /// are redirected, the handler runs, the streams are put back, and the
    /// result is the handler's status, or the error of the handler or of
    /// the redirection. In the background the process is duplicated; the
    /// result is success at once, with the duplicate as the last
    /// background process, or the error where the duplication fails. The
    /// duplicate redirects its streams and runs the handler, reports an
    /// error if there is one, and ends. It never has a result.
    open spec fn after(&self, reply: Reply) -> Progress<RunBuiltin, Ran> {
        match *self {
            RunBuiltin::Foreground { work } => RunBuiltin::foreground(work.after(reply)),
            RunBuiltin::Background { spawn, input, output } => match spawn.after(reply) {
                Progress::Busy(spawn) => Progress::Busy(
                    RunBuiltin::Background { spawn, input, output },
                ),
                Progress::Done(Ok(Side::Parent(pid))) => Progress::Done(
                    Ran { result: Ok(Status(0)), lastpid: Some(pid) },
                ),
                Progress::Done(Ok(Side::Child)) => RunBuiltin::child(
                    ExecBuiltin::start(input, output, false),
                ),
                Progress::Done(Err(errno)) => Progress::Done(
                    Ran { result: Err(errno), lastpid: None },
                ),
            },
            RunBuiltin::Child { work } => RunBuiltin::child(work.after(reply)),
            RunBuiltin::Report { .. } => match reply {
                Reply::Done => Progress::Busy(RunBuiltin::Exit),
                _ => Progress::Busy(*self),
            },
            RunBuiltin::Exit => Progress::Busy(*self),
        }
    }

    /// The call to make now.
    fn call(&self) -> (call: Call)
        ensures
            call == self.pending(),
    {
        match self {
            RunBuiltin::Foreground { work } => work.call(),
            RunBuiltin::Background { spawn, .. } => spawn.call(),
            RunBuiltin::Child { work } => work.call(),
            RunBuiltin::Report { errno } => Call::Report { errno: *errno },
            RunBuiltin::Exit => Call::Exit { code: 0 },
        }
    }

    /// Takes the reply to the pending call.
    fn resume(self, reply: Reply) -> (next: Progress<RunBuiltin, Ran>)
        ensures
            next == self.after(reply),
    {
        match self {
            RunBuiltin::Foreground { work } => builtin_foreground(work.resume(reply)),
            RunBuiltin::Background { spawn, input, output } => match spawn.resume(reply) {
                Progress::Busy(spawn) => Progress::Busy(
                    RunBuiltin::Background { spawn, input, output },
                ),
                Progress::Done(Ok(Side::Parent(pid))) => Progress::Done(
                    Ran { result: Ok(Status::success()), lastpid: Some(pid) },
                ),
                Progress::Done(Ok(Side::Child)) => builtin_child(
                    applied_builtin(apply_targets(input, output), false),
                ),
                Progress::Done(Err(errno)) => Progress::Done(
                    Ran { result: Err(errno), lastpid: None },
                ),
            },
            RunBuiltin::Child { work } => builtin_child(work.resume(reply)),
            RunBuiltin::Report { .. } => match reply {
                Reply::Done => Progress::Busy(RunBuiltin::Exit),
                _ => Progress::Busy(self),
            },
            RunBuiltin::Exit => Progress::Busy(self),
        }
    }
}

/// The builtin at work in this process, or its result.
fn builtin_foreground(work: Progress<ExecBuiltin, Result<Status, i32>>) -> (next: Progress<
    RunBuiltin,
    Ran,
>)
    ensures
        next == RunBuiltin::foreground(work),
{
    match work {
        Progress::Busy(work) => Progress::Busy(RunBuiltin::Foreground { work }),
        Progress::Done(result) => Progress::Done(Ran { result, lastpid: None }),
    }
}

/// The duplicate at work, about to report why the work failed, or about to
/// end.
fn builtin_child(work: Progress<ExecBuiltin, Result<Status, i32>>) -> (next: Progress<
    RunBuiltin,
    Ran,
>)
    ensures
        next == RunBuiltin::child(work),
{
    match work {
        Progress::Busy(work) => Progress::Busy(RunBuiltin::Child { work }),
        Progress::Done(Ok(_)) => Progress::Busy(RunBuiltin::Exit),
        Progress::Done(Err(errno)) => Progress::Busy(RunBuiltin::Report { errno }),
    }
}

/// Starts to run the builtin of `cmd`.
pub fn run_builtin(cmd: &Command) -> (start: Progress<RunBuiltin, Ran>)
    ensures
        start == RunBuiltin::start(
            cmd.background,
            cmd.inredirect is Some,
            cmd.outredirect is Some,
        ),
{
    if cmd.background {
        Progress::Busy(
            RunBuiltin::Background {
                spawn: ForkChild,
                input: cmd.inredirect.is_some(),
                output: cmd.outredirect.is_some(),
            },
        )
    } else {
        builtin_foreground(exec_builtin(cmd, true))
    }
}

} // verus!
