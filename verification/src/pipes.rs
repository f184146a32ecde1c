//! Pipelines: two or more commands, each in a process of its own, with the
//! standard output of each feeding the standard input of the next.

use vstd::prelude::*;
use crate::exec::{ForkChild, Side, Wait};
use crate::fds::{effect, fresh, has_streams, Table, Target};
use crate::state::Status;
use crate::sys::{answered, answers, Call, Machine, Progress, Reply};
use crate::trace::{lemma_run_neutral, plausible, run, run_table, Neutral};

verus! {

/// The two descriptors of a pipe.
#[derive(Clone, Copy, Debug, PartialEq, Eq)]
pub struct Ends {
    pub read: i32,
    pub write: i32,
}

impl Ends {
    /// Whether the two descriptors differ, and neither is a standard
    /// stream.
    pub open spec fn apart(self) -> bool {
        self.read != self.write && self.read != 0 && self.read != 1 && self.write != 0
            && self.write != 1
    }
}

/// What a process does with the pipes of a stage, as a fixed run of calls.
#[derive(Clone, Copy, Debug, PartialEq, Eq)]
pub enum Wiring {
    /// The duplicate that runs the first stage, which writes to `next`.
    First { stage: usize, next: Ends },
    /// The duplicate that runs a stage in the middle, which reads from
    /// `prev` and writes to `next`.
    Middle { stage: usize, prev: Ends, next: Ends },
    /// The duplicate that runs the last stage, which reads from `prev`.
    Last { stage: usize, prev: Ends },
    /// The shell lets go of the pipe `pipe`.
    Drop { pipe: Ends },
    /// The shell lets go of the pipes `prev` and `next`.
    DropBoth { prev: Ends, next: Ends },
}

impl Wiring {
    /// The calls, in order.
    ///
    /// A duplicate puts the ends that it needs in the place of its
    /// standard streams, closes every descriptor of its pipes, evaluates
    /// the text of its stage and ends. The shell closes every descriptor of
    /// the pipes that it lets go of.
    pub open spec fn calls(self) -> Seq<Call> {
        match self {
            Wiring::First { stage, next } => seq![
                Call::Dup2 { from: next.write, to: 1 },
                Call::Close { fd: next.read },
                Call::Close { fd: next.write },
                Call::Eval { stage },
                Call::Exit { code: 0 },
            ],
            Wiring::Middle { stage, prev, next } => seq![
                Call::Dup2 { from: prev.read, to: 0 },
                Call::Dup2 { from: next.write, to: 1 },
                Call::Close { fd: prev.read },
                Call::Close { fd: prev.write },
                Call::Close { fd: next.read },
                Call::Close { fd: next.write },
                Call::Eval { stage },
                Call::Exit { code: 0 },
            ],
            Wiring::Last { stage, prev } => seq![
                Call::Dup2 { from: prev.read, to: 0 },
                Call::Close { fd: prev.read },
                Call::Close { fd: prev.write },
                Call::Eval { stage },
                Call::Exit { code: 0 },
            ],
            Wiring::Drop { pipe } => seq![
                Call::Close { fd: pipe.read },
                Call::Close { fd: pipe.write },
            ],
            Wiring::DropBoth { prev, next } => seq![
                Call::Close { fd: prev.read },
                Call::Close { fd: prev.write },
                Call::Close { fd: next.read },
                Call::Close { fd: next.write },
            ],
        }
    }

    /// Whether this is what a duplicate does.
    pub open spec fn in_duplicate(self) -> bool {
        self is First || self is Middle || self is Last
    }

    /// How many calls there are.
    pub fn len(&self) -> (len: usize)
        ensures
            len == self.calls().len(),
            len > 0,
    {
        match self {
            Wiring::First { .. } => 5,
            Wiring::Middle { .. } => 8,
            Wiring::Last { .. } => 5,
            Wiring::Drop { .. } => 2,
            Wiring::DropBoth { .. } => 4,
        }
    }

    /// The call at the place `at`.
    pub fn call_at(&self, at: usize) -> (call: Call)
        requires
            at < self.calls().len(),
        ensures
            call == self.calls()[at as int],
    {
        match *self {
            Wiring::First { stage, next } => if at == 0 {
                Call::Dup2 { from: next.write, to: 1 }
            } else if at == 1 {
                Call::Close { fd: next.read }
            } else if at == 2 {
                Call::Close { fd: next.write }
            } else if at == 3 {
                Call::Eval { stage }
            } else {
                Call::Exit { code: 0 }
            },
            Wiring::Middle { stage, prev, next } => if at == 0 {
                Call::Dup2 { from: prev.read, to: 0 }
            } else if at == 1 {
                Call::Dup2 { from: next.write, to: 1 }
            } else if at == 2 {
                Call::Close { fd: prev.read }
            } else if at == 3 {
                Call::Close { fd: prev.write }
            } else if at == 4 {
                Call::Close { fd: next.read }
            } else if at == 5 {
                Call::Close { fd: next.write }
            } else if at == 6 {
                Call::Eval { stage }
            } else {
                Call::Exit { code: 0 }
            },
            Wiring::Last { stage, prev } => if at == 0 {
                Call::Dup2 { from: prev.read, to: 0 }
            } else if at == 1 {
                Call::Close { fd: prev.read }
            } else if at == 2 {
                Call::Close { fd: prev.write }
            } else if at == 3 {
                Call::Eval { stage }
            } else {
                Call::Exit { code: 0 }
            },
            Wiring::Drop { pipe } => if at == 0 {
                Call::Close { fd: pipe.read }
            } else {
                Call::Close { fd: pipe.write }
            },
            Wiring::DropBoth { prev, next } => if at == 0 {
                Call::Close { fd: prev.read }
            } else if at == 1 {
                Call::Close { fd: prev.write }
            } else if at == 2 {
                Call::Close { fd: next.read }
            } else {
                Call::Close { fd: next.write }
            },
        }
    }
}

/// A wiring under way: `done` of its calls are made.
#[derive(Clone, Copy, Debug, PartialEq, Eq)]
pub struct Script {
    pub wiring: Wiring,
    pub done: usize,
}

impl Script {
    /// The place of the call that the script waits for: the one behind
    /// those that are made, and the last one at the latest.
    pub open spec fn at(self) -> int {
        if self.done < self.wiring.calls().len() {
            self.done as int
        } else {
            self.wiring.calls().len() - 1
        }
    }

    /// The wiring at its start.
    pub fn start(wiring: Wiring) -> (script: Script)
        ensures
            script == (Script { wiring, done: 0 }),
    {
        Script { wiring, done: 0 }
    }

    /// The place of the call to make now.
    fn place(&self) -> (at: usize)
        ensures
            at == self.at(),
            at < self.wiring.calls().len(),
    {
        let len = self.wiring.len();
        if self.done < len {
            self.done
        } else {
            len - 1
        }
    }

}

impl Machine for Script {
    type Output = ();

    /// The call that the script waits for.
    open spec fn pending(&self) -> Call {
        self.wiring.calls()[self.at()]
    }

    /// The script after `reply`: an answer to the pending call makes the
    /// next call pending, and ends the script behind its last call. A reply
    /// that does not answer the pending call changes nothing.
    open spec fn after(&self, reply: Reply) -> Progress<Script, ()> {
        if !answers(self.pending(), reply) {
            Progress::Busy(*self)
        } else if self.at() + 1 < self.wiring.calls().len() {
            Progress::Busy(Script { wiring: self.wiring, done: (self.at() + 1) as usize })
        } else {
            Progress::Done(())
        }
    }

    /// The call to make now.
    fn call(&self) -> (call: Call)
        ensures
            call == self.pending(),
    {
        self.wiring.call_at(self.place())
    }

    /// Takes the reply to the pending call.
    fn resume(self, reply: Reply) -> (next: Progress<Script, ()>)
        ensures
            next == self.after(reply),
    {
        let at = self.place();
        if !answered(&self.wiring.call_at(at), &reply) {
            Progress::Busy(self)
        } else if at + 1 < self.wiring.len() {
            Progress::Busy(Script { wiring: self.wiring, done: at + 1 })
        } else {
            Progress::Done(())
        }
    }
}

/// The table after the pipe `ends` was created on `table`.
pub open spec fn piped(table: Table, ends: Ends) -> Table {
    table.insert(ends.read, Target::PipeRead { fd: ends.read }).insert(
        ends.write,
        Target::PipeWrite { fd: ends.write },
    )
}

/// The table after both descriptors of `ends` were closed on `table`.
pub open spec fn dropped(table: Table, ends: Ends) -> Table {
    table.remove(ends.read).remove(ends.write)
}

/// Whether `ends` can be a new pipe on `table`: two descriptors that
/// `table` does not hold.
pub open spec fn pipe_new(table: Table, ends: Ends) -> bool {
    ends.read != ends.write && !table.dom().contains(ends.read) && !table.dom().contains(
        ends.write,
    )
}

/// Whether `table` holds the pipe `ends`: two open descriptors, neither a
/// standard stream.
pub open spec fn pipe_open(table: Table, ends: Ends) -> bool {
    ends.apart() && table.dom().contains(ends.read) && table.dom().contains(ends.write)
}

/// The table with the pipe `ends`, if there is one.
pub open spec fn piped_if(table: Table, ends: Option<Ends>) -> Table {
    match ends {
        Some(ends) => piped(table, ends),
        None => table,
    }
}

/// The table without the pipe `ends`, if there is one.
pub open spec fn dropped_if(table: Table, ends: Option<Ends>) -> Table {
    match ends {
        Some(ends) => dropped(table, ends),
        None => table,
    }
}

/// A new pipe that is created and let go of leaves the table as it was.
pub proof fn lemma_drop_undoes_pipe(table: Table, ends: Ends)
    requires
        pipe_new(table, ends),
    ensures
        dropped(piped(table, ends), ends) == table,
{
    assert(dropped(piped(table, ends), ends) =~= table);
}

/// The table after the first `n` of `calls` were made on `table`, each
/// answered by `Done`.
pub open spec fn after_calls(table: Table, calls: Seq<Call>, n: nat) -> Table
    decreases n,
{
    if n == 0 {
        table
    } else {
        effect(after_calls(table, calls, (n - 1) as nat), calls[n - 1], Reply::Done)
    }
}

impl Wiring {
    /// What the wiring comes to on `table`.
    ///
    /// In a duplicate, standard input is the reading end of the pipe
    /// before, standard output is the writing end of the pipe behind, and
    /// no descriptor of either pipe is open besides. In the shell, no
    /// descriptor of the pipes that it lets go of is open.
    pub open spec fn wired(self, table: Table) -> Table {
        match self {
            Wiring::First { next, .. } => dropped(table.insert(1, table[next.write]), next),
            Wiring::Middle { prev, next, .. } => dropped(
                dropped(table.insert(0, table[prev.read]).insert(1, table[next.write]), prev),
                next,
            ),
            Wiring::Last { prev, .. } => dropped(table.insert(0, table[prev.read]), prev),
            Wiring::Drop { pipe } => dropped(table, pipe),
            Wiring::DropBoth { prev, next } => dropped(dropped(table, prev), next),
        }
    }

    /// Whether the descriptors of each pipe differ, and none is a standard
    /// stream.
    pub open spec fn apart(self) -> bool {
        match self {
            Wiring::First { next, .. } => next.apart(),
            Wiring::Middle { prev, next, .. } => prev.apart() && next.apart(),
            Wiring::Last { prev, .. } => prev.apart(),
            Wiring::Drop { pipe } => pipe.apart(),
            Wiring::DropBoth { prev, next } => prev.apart() && next.apart(),
        }
    }

    /// How many of the calls act on descriptors: all but the evaluation
    /// and the end of a duplicate.
    pub open spec fn wires(self) -> nat {
        if self.in_duplicate() {
            (self.calls().len() - 2) as nat
        } else {
            self.calls().len()
        }
    }

    /// The calls that act on descriptors come first and take the table
    /// where `wired` says; each descriptor of the pipes is closed by one of
    /// them, and by one only. The evaluation of the stage follows them.
    pub proof fn lemma_wired(self, table: Table)
        requires
            self.apart(),
        ensures
            after_calls(table, self.calls(), self.wires()) == self.wired(table),
            self.in_duplicate() ==> self.calls()[self.wires() as int] is Eval
                && after_calls(table, self.calls(), self.wires() + 1) == self.wired(table),
            forall|i: int| 0 <= i < self.wires() ==> #[trigger] answers(self.calls()[i], Reply::Done),
    {
        reveal_with_fuel(after_calls, 8);
        assert(after_calls(table, self.calls(), self.wires()) =~= self.wired(table));
    }
}

impl Script {
    /// The table while the script waits, having started on `start`.
    pub open spec fn table(self, start: Table) -> Table {
        after_calls(start, self.wiring.calls(), self.at() as nat)
    }

    /// Each reply takes the table where `table` says; at its end a script
    /// of the shell has taken it where `Wiring::wired` says.
    pub proof fn lemma_step(self, start: Table, reply: Reply)
        requires
            self.wiring.apart(),
            self.done < self.wiring.calls().len(),
            answers(self.pending(), reply),
        ensures
            match self.after(reply) {
                Progress::Busy(next) => next.done < next.wiring.calls().len() && next.wiring
                    == self.wiring && next.table(start) == effect(
                    self.table(start),
                    self.pending(),
                    reply,
                ),
                Progress::Done(_) => !self.wiring.in_duplicate() && self.wiring.wired(start)
                    == effect(self.table(start), self.pending(), reply),
            },
    {
        self.wiring.lemma_wired(start);
        let calls = self.wiring.calls();
        assert(reply == Reply::Done);
        assert(after_calls(start, calls, (self.at() + 1) as nat) == effect(
            after_calls(start, calls, self.at() as nat),
            calls[self.at()],
            Reply::Done,
        ));
    }
}

/// A step of a pipeline that creates a pipe: the first stage, or a stage in
/// the middle. The result is the new pipe, which the next stage reads from.
#[derive(Clone, Copy, Debug, PartialEq, Eq)]
pub enum Link {
    /// The pipe is to be created; `prev` is the pipe of the stage before,
    /// if there is one.
    Pipe { stage: usize, prev: Option<Ends> },
    /// The process is being duplicated.
    Fork { spawn: ForkChild, stage: usize, prev: Option<Ends>, next: Ends },
    /// The shell lets go of the pipe of the stage before.
    Parent { script: Script, next: Ends },
    /// The step failed with `errno`, and the shell lets go of its pipes;
    /// `created` is the new pipe, if there is one.
    Failed { script: Script, created: Option<Ends>, errno: i32 },
    /// This is the duplicate.
    Child { script: Script, next: Ends },
}

impl Link {
    /// The step for the stage `stage` at its start.
    pub open spec fn start(stage: usize, prev: Option<Ends>) -> Progress<
        Link,
        Result<Ends, i32>,
    > {
        Progress::Busy(Link::Pipe { stage, prev })
    }

    /// Whether this is the duplicate.
    pub open spec fn in_duplicate(self) -> bool {
        self matches Link::Child { script, .. } && script.wiring.in_duplicate()
    }

    /// The duplicate never comes back: whatever it is told, it has no
    /// result, and it stays the duplicate.
    pub proof fn lemma_duplicate_never_returns(self, reply: Reply)
        requires
            self.in_duplicate(),
        ensures
            self.after(reply) matches Progress::Busy(next) && next.in_duplicate(),
    {
    }

    /// The pipe of the stage before, if there is one.
    pub open spec fn before(self) -> Option<Ends> {
        match self {
            Link::Pipe { prev, .. } => prev,
            Link::Fork { prev, .. } => prev,
            Link::Parent { script, .. } => match script.wiring {
                Wiring::Drop { pipe } => Some(pipe),
                _ => None,
            },
            Link::Failed { script, created, .. } => match script.wiring {
                Wiring::Drop { pipe } => if created is None {
                    Some(pipe)
                } else {
                    None
                },
                Wiring::DropBoth { prev, .. } => Some(prev),
                _ => None,
            },
            Link::Child { script, .. } => match script.wiring {
                Wiring::Middle { prev, .. } => Some(prev),
                _ => None,
            },
        }
    }

    /// Whether the step can stand where it stands, having started on
    /// `start`: the pipe before is open, and the new pipe was new.
    pub open spec fn valid(self, start: Table) -> bool {
        &&& has_streams(start)
        &&& self.before() matches Some(prev) ==> pipe_open(start, prev)
        &&& match self {
            Link::Pipe { .. } => true,
            Link::Fork { next, .. } => pipe_new(start, next),
            Link::Parent { script, next } => {
                &&& pipe_new(start, next)
                &&& script.wiring is Drop
                &&& script.done < script.wiring.calls().len()
            },
            Link::Failed { script, created, .. } => {
                &&& script.done < script.wiring.calls().len()
                &&& match created {
                    Some(next) => pipe_new(start, next) && (script.wiring == (Wiring::Drop {
                        pipe: next,
                    }) || (script.wiring matches Wiring::DropBoth { next: other, .. } && other
                        == next)),
                    None => script.wiring is Drop,
                }
            },
            Link::Child { script, next } => {
                &&& pipe_new(start, next)
                &&& script.done < script.wiring.calls().len()
                &&& match script.wiring {
                    Wiring::First { next: other, .. } => other == next,
                    Wiring::Middle { next: other, .. } => other == next,
                    _ => false,
                }
            },
        }
    }

    /// The table while the step waits, having started on `start`.
    pub open spec fn table(self, start: Table) -> Table {
        match self {
            Link::Pipe { .. } => start,
            Link::Fork { next, .. } => piped(start, next),
            Link::Parent { script, next } => script.table(piped(start, next)),
            Link::Failed { script, created, .. } => script.table(piped_if(start, created)),
            Link::Child { script, next } => script.table(piped(start, next)),
        }
    }

    /// Each reply takes the table where `table` says. When the step has its
    /// result, the shell holds no descriptor of the pipe before, and of the
    /// new pipe it holds both ends where the step succeeded and none where
    /// it failed.
    pub proof fn lemma_step(self, start: Table, reply: Reply)
        requires
            self.valid(start),
            answers(self.pending(), reply),
            fresh(self.table(start), reply),
        ensures
            match self.after(reply) {
                Progress::Busy(next) => next.valid(start) && next.before() == self.before()
                    && next.table(start) == effect(self.table(start), self.pending(), reply),
                Progress::Done(Ok(next)) => pipe_new(start, next) && piped(
                    dropped_if(start, self.before()),
                    next,
                ) == effect(self.table(start), self.pending(), reply),
                Progress::Done(Err(_)) => dropped_if(start, self.before()) == effect(
                    self.table(start),
                    self.pending(),
                    reply,
                ),
            },
    {
        let now = effect(self.table(start), self.pending(), reply);
        match self {
            Link::Pipe { .. } => {},
            Link::Fork { prev, next, .. } => {
                if let Progress::Busy(after) = self.after(reply) {
                    assert(after.table(start) =~= now);
                }
            },
            Link::Parent { script, next } => {
                script.lemma_step(piped(start, next), reply);
                assert(piped(dropped_if(start, self.before()), next) =~= dropped_if(
                    piped(start, next),
                    self.before(),
                ));
            },
            Link::Failed { script, created, .. } => {
                script.lemma_step(piped_if(start, created), reply);
                if let Some(next) = created {
                    lemma_drop_undoes_pipe(start, next);
                    assert(dropped(dropped_if(piped(start, next), self.before()), next)
                        =~= dropped_if(dropped(piped(start, next), next), self.before()));
                }
            },
            Link::Child { script, next } => {
                script.lemma_step(piped(start, next), reply);
            },
        }
    }

    /// What the duplicate comes to when it evaluates its stage, having
    /// started on `start`: its standard output is the writing end of the
    /// new pipe, its standard input is the reading end of the pipe before,
    /// if there is one, and it holds no other descriptor of either pipe.
    pub proof fn lemma_child_wired(self, start: Table)
        requires
            self.valid(start),
            self.in_duplicate(),
            self.pending() is Eval,
        ensures
            self.table(start)[1] == (Target::PipeWrite { fd: self->Child_next.write }),
            self.before() matches Some(prev) ==> self.table(start)[0] == start[prev.read],
            self.before() is None ==> self.table(start)[0] == start[0],
            self.table(start).dom() =~= dropped_if(start, self.before()).dom(),
    {
        let script = self->Child_script;
        let next = self->Child_next;
        script.wiring.lemma_wired(piped(start, next));
        reveal_with_fuel(after_calls, 8);
    }

}

impl Machine for Link {
    type Output = Result<Ends, i32>;

    /// The call that the step waits for.
    open spec fn pending(&self) -> Call {
        match *self {
            Link::Pipe { .. } => Call::Pipe,
            Link::Fork { spawn, .. } => spawn.pending(),
            Link::Parent { script, .. } => script.pending(),
            Link::Failed { script, .. } => script.pending(),
            Link::Child { script, .. } => script.pending(),
        }
    }

    /// The step after `reply`.
    ///
    /// The pipe is created and the process is duplicated. The duplicate
    /// does what `Wiring::First` or `Wiring::Middle` says. The shell closes
    /// both ends of the pipe of the stage before, which no later stage
    /// needs, and has the new pipe as its result. Where the pipe cannot be
    /// created or the process cannot be duplicated, the shell closes every
    /// descriptor of both pipes, and the result is the error.
    open spec fn after(&self, reply: Reply) -> Progress<Link, Result<Ends, i32>> {
        match *self {
            Link::Pipe { stage, prev } => match reply {
                Reply::Pipe { read, write } => Progress::Busy(
                    Link::Fork { spawn: ForkChild, stage, prev, next: Ends { read, write } },
                ),
                Reply::Failed { errno } => match prev {
                    Some(pipe) => Progress::Busy(
                        Link::Failed {
                            script: Script { wiring: Wiring::Drop { pipe }, done: 0 },
                            created: None,
                            errno,
                        },
                    ),
                    None => Progress::Done(Err(errno)),
                },
                _ => Progress::Busy(*self),
            },
            Link::Fork { spawn, stage, prev, next } => match spawn.after(reply) {
                Progress::Busy(spawn) => Progress::Busy(Link::Fork { spawn, stage, prev, next }),
                Progress::Done(Ok(Side::Parent(_))) => match prev {
                    Some(pipe) => Progress::Busy(
                        Link::Parent {
                            script: Script { wiring: Wiring::Drop { pipe }, done: 0 },
                            next,
                        },
                    ),
                    None => Progress::Done(Ok(next)),
                },
                Progress::Done(Ok(Side::Child)) => Progress::Busy(
                    Link::Child {
                        script: Script {
                            wiring: match prev {
                                Some(prev) => Wiring::Middle { stage, prev, next },
                                None => Wiring::First { stage, next },
                            },
                            done: 0,
                        },
                        next,
                    },
                ),
                Progress::Done(Err(errno)) => Progress::Busy(
                    Link::Failed {
                        script: Script {
                            wiring: match prev {
                                Some(prev) => Wiring::DropBoth { prev, next },
                                None => Wiring::Drop { pipe: next },
                            },
                            done: 0,
                        },
                        created: Some(next),
                        errno,
                    },
                ),
            },
            Link::Parent { script, next } => match script.after(reply) {
                Progress::Busy(script) => Progress::Busy(Link::Parent { script, next }),
                Progress::Done(_) => Progress::Done(Ok(next)),
            },
            Link::Failed { script, created, errno } => match script.after(reply) {
                Progress::Busy(script) => Progress::Busy(Link::Failed { script, created, errno }),
                Progress::Done(_) => Progress::Done(Err(errno)),
            },
            Link::Child { script, next } => match script.after(reply) {
                Progress::Busy(script) => Progress::Busy(Link::Child { script, next }),
                Progress::Done(_) => Progress::Busy(*self),
            },
        }
    }

    /// The call to make now.
    fn call(&self) -> (call: Call)
        ensures
            call == self.pending(),
    {
        match self {
            Link::Pipe { .. } => Call::Pipe,
            Link::Fork { spawn, .. } => spawn.call(),
            Link::Parent { script, .. } => script.call(),
            Link::Failed { script, .. } => script.call(),
            Link::Child { script, .. } => script.call(),
        }
    }

    /// Takes the reply to the pending call.
    fn resume(self, reply: Reply) -> (next: Progress<Link, Result<Ends, i32>>)
        ensures
            next == self.after(reply),
    {
        match self {
            Link::Pipe { stage, prev } => match reply {
                Reply::Pipe { read, write } => Progress::Busy(
                    Link::Fork { spawn: ForkChild, stage, prev, next: Ends { read, write } },
                ),
                Reply::Failed { errno } => match prev {
                    Some(pipe) => Progress::Busy(
                        Link::Failed {
                            script: Script::start(Wiring::Drop { pipe }),
                            created: None,
                            errno,
                        },
                    ),
                    None => Progress::Done(Err(errno)),
                },
                _ => Progress::Busy(self),
            },
            Link::Fork { spawn, stage, prev, next } => match spawn.resume(reply) {
                Progress::Busy(spawn) => Progress::Busy(Link::Fork { spawn, stage, prev, next }),
                Progress::Done(Ok(Side::Parent(_))) => match prev {
                    Some(pipe) => Progress::Busy(
                        Link::Parent { script: Script::start(Wiring::Drop { pipe }), next },
                    ),
                    None => Progress::Done(Ok(next)),
                },
                Progress::Done(Ok(Side::Child)) => {
                    let wiring = match prev {
                        Some(prev) => Wiring::Middle { stage, prev, next },
                        None => Wiring::First { stage, next },
                    };
                    Progress::Busy(Link::Child { script: Script::start(wiring), next })
                },
                Progress::Done(Err(errno)) => {
                    let wiring = match prev {
                        Some(prev) => Wiring::DropBoth { prev, next },
                        None => Wiring::Drop { pipe: next },
                    };
                    Progress::Busy(
                        Link::Failed { script: Script::start(wiring), created: Some(next), errno },
                    )
                },
            },
            Link::Parent { script, next } => match script.resume(reply) {
                Progress::Busy(script) => Progress::Busy(Link::Parent { script, next }),
                Progress::Done(_) => Progress::Done(Ok(next)),
            },
            Link::Failed { script, created, errno } => match script.resume(reply) {
                Progress::Busy(script) => Progress::Busy(Link::Failed { script, created, errno }),
                Progress::Done(_) => Progress::Done(Err(errno)),
            },
            Link::Child { script, next } => match script.resume(reply) {
                Progress::Busy(script) => Progress::Busy(Link::Child { script, next }),
                Progress::Done(_) => Progress::Busy(self),
            },
        }
    }
}

/// Starts the first stage of a pipeline, whose text is the argument
/// `stage` of the pipeline.
pub fn pipes_begin(stage: usize) -> (start: Progress<Link, Result<Ends, i32>>)
    ensures
        start == Link::start(stage, None),
{
    Progress::Busy(Link::Pipe { stage, prev: None })
}

/// Starts a stage in the middle of a pipeline, which reads from the pipe
/// `prev` of the stage before.
pub fn pipes_cont(stage: usize, prev: Ends) -> (start: Progress<Link, Result<Ends, i32>>)
    ensures
        start == Link::start(stage, Some(prev)),
{
    Progress::Busy(Link::Pipe { stage, prev: Some(prev) })
}

/// The last step of a pipeline. The result is the process of the last
/// stage.
#[derive(Clone, Copy, Debug, PartialEq, Eq)]
pub enum Tail {
    /// The process is being duplicated.
    Fork { spawn: ForkChild, stage: usize, prev: Ends },
    /// The shell lets go of the pipe; `pid` is the duplicate.
    Parent { script: Script, pid: i32 },
    /// The duplication failed with `errno`, and the shell lets go of the
    /// pipe.
    Failed { script: Script, errno: i32 },
    /// This is the duplicate.
    Child { script: Script },
}

impl Tail {
    /// The step for the stage `stage` at its start.
    pub open spec fn start(stage: usize, prev: Ends) -> Progress<Tail, Result<i32, i32>> {
        Progress::Busy(Tail::Fork { spawn: ForkChild, stage, prev })
    }

    /// Whether this is the duplicate.
    pub open spec fn in_duplicate(self) -> bool {
        self matches Tail::Child { script } && script.wiring.in_duplicate()
    }

    /// The duplicate never comes back: whatever it is told, it has no
    /// result, and it stays the duplicate.
    pub proof fn lemma_duplicate_never_returns(self, reply: Reply)
        requires
            self.in_duplicate(),
        ensures
            self.after(reply) matches Progress::Busy(next) && next.in_duplicate(),
    {
    }

    /// The pipe of the stage before.
    pub open spec fn before(self) -> Ends {
        match self {
            Tail::Fork { prev, .. } => prev,
            Tail::Parent { script, .. } => script.wiring->Drop_pipe,
            Tail::Failed { script, .. } => script.wiring->Drop_pipe,
            Tail::Child { script } => script.wiring->Last_prev,
        }
    }

    /// Whether the step can stand where it stands, having started on
    /// `start`: the pipe before is open.
    pub open spec fn valid(self, start: Table) -> bool {
        &&& has_streams(start)
        &&& pipe_open(start, self.before())
        &&& match self {
            Tail::Fork { .. } => true,
            Tail::Parent { script, .. } => script.wiring is Drop && script.done
                < script.wiring.calls().len(),
            Tail::Failed { script, .. } => script.wiring is Drop && script.done
                < script.wiring.calls().len(),
            Tail::Child { script } => script.wiring is Last && script.done
                < script.wiring.calls().len(),
        }
    }

    /// The table while the step waits, having started on `start`.
    pub open spec fn table(self, start: Table) -> Table {
        match self {
            Tail::Fork { .. } => start,
            Tail::Parent { script, .. } => script.table(start),
            Tail::Failed { script, .. } => script.table(start),
            Tail::Child { script } => script.table(start),
        }
    }

    /// Each reply takes the table where `table` says. When the step has its
    /// result, the shell holds no descriptor of the pipe, whether the
    /// duplication failed or not.
    pub proof fn lemma_step(self, start: Table, reply: Reply)
        requires
            self.valid(start),
            answers(self.pending(), reply),
            fresh(self.table(start), reply),
        ensures
            match self.after(reply) {
                Progress::Busy(next) => next.valid(start) && next.before() == self.before()
                    && next.table(start) == effect(self.table(start), self.pending(), reply),
                Progress::Done(_) => dropped(start, self.before()) == effect(
                    self.table(start),
                    self.pending(),
                    reply,
                ),
            },
    {
        match self {
            Tail::Fork { .. } => {},
            Tail::Parent { script, .. } => {
                script.lemma_step(start, reply);
            },
            Tail::Failed { script, .. } => {
                script.lemma_step(start, reply);
            },
            Tail::Child { script } => {
                script.lemma_step(start, reply);
            },
        }
    }

    /// What the duplicate comes to when it evaluates its stage, having
    /// started on `start`: its standard input is the reading end of the
    /// pipe, and it holds no other descriptor of the pipe.
    pub proof fn lemma_child_wired(self, start: Table)
        requires
            self.valid(start),
            self.in_duplicate(),
            self.pending() is Eval,
        ensures
            self.table(start)[0] == start[self.before().read],
            self.table(start)[1] == start[1],
            self.table(start).dom() =~= dropped(start, self.before()).dom(),
    {
        let script = self->Child_script;
        script.wiring.lemma_wired(start);
        reveal_with_fuel(after_calls, 8);
    }

}

impl Machine for Tail {
    type Output = Result<i32, i32>;

    /// The call that the step waits for.
    open spec fn pending(&self) -> Call {
        match *self {
            Tail::Fork { spawn, .. } => spawn.pending(),
            Tail::Parent { script, .. } => script.pending(),
            Tail::Failed { script, .. } => script.pending(),
            Tail::Child { script } => script.pending(),
        }
    }

    /// The step after `reply`.
    ///
    /// The process is duplicated. The duplicate does what `Wiring::Last`
    /// says. The shell closes both ends of the pipe, whether the
    /// duplication failed or not, and has the duplicate's process id, or
    /// the error, as its result.
    open spec fn after(&self, reply: Reply) -> Progress<Tail, Result<i32, i32>> {
        match *self {
            Tail::Fork { spawn, stage, prev } => match spawn.after(reply) {
                Progress::Busy(spawn) => Progress::Busy(Tail::Fork { spawn, stage, prev }),
                Progress::Done(Ok(Side::Parent(pid))) => Progress::Busy(
                    Tail::Parent {
                        script: Script { wiring: Wiring::Drop { pipe: prev }, done: 0 },
                        pid,
                    },
                ),
                Progress::Done(Ok(Side::Child)) => Progress::Busy(
                    Tail::Child { script: Script { wiring: Wiring::Last { stage, prev }, done: 0 } },
                ),
                Progress::Done(Err(errno)) => Progress::Busy(
                    Tail::Failed {
                        script: Script { wiring: Wiring::Drop { pipe: prev }, done: 0 },
                        errno,
                    },
                ),
            },
            Tail::Parent { script, pid } => match script.after(reply) {
                Progress::Busy(script) => Progress::Busy(Tail::Parent { script, pid }),
                Progress::Done(_) => Progress::Done(Ok(pid)),
            },
            Tail::Failed { script, errno } => match script.after(reply) {
                Progress::Busy(script) => Progress::Busy(Tail::Failed { script, errno }),
                Progress::Done(_) => Progress::Done(Err(errno)),
            },
            Tail::Child { script } => match script.after(reply) {
                Progress::Busy(script) => Progress::Busy(Tail::Child { script }),
                Progress::Done(_) => Progress::Busy(*self),
            },
        }
    }

    /// The call to make now.
    fn call(&self) -> (call: Call)
        ensures
            call == self.pending(),
    {
        match self {
            Tail::Fork { spawn, .. } => spawn.call(),
            Tail::Parent { script, .. } => script.call(),
            Tail::Failed { script, .. } => script.call(),
            Tail::Child { script } => script.call(),
        }
    }

    /// Takes the reply to the pending call.
    fn resume(self, reply: Reply) -> (next: Progress<Tail, Result<i32, i32>>)
        ensures
            next == self.after(reply),
    {
        match self {
            Tail::Fork { spawn, stage, prev } => match spawn.resume(reply) {
                Progress::Busy(spawn) => Progress::Busy(Tail::Fork { spawn, stage, prev }),
                Progress::Done(Ok(Side::Parent(pid))) => Progress::Busy(
                    Tail::Parent { script: Script::start(Wiring::Drop { pipe: prev }), pid },
                ),
                Progress::Done(Ok(Side::Child)) => Progress::Busy(
                    Tail::Child { script: Script::start(Wiring::Last { stage, prev }) },
                ),
                Progress::Done(Err(errno)) => Progress::Busy(
                    Tail::Failed { script: Script::start(Wiring::Drop { pipe: prev }), errno },
                ),
            },
            Tail::Parent { script, pid } => match script.resume(reply) {
                Progress::Busy(script) => Progress::Busy(Tail::Parent { script, pid }),
                Progress::Done(_) => Progress::Done(Ok(pid)),
            },
            Tail::Failed { script, errno } => match script.resume(reply) {
                Progress::Busy(script) => Progress::Busy(Tail::Failed { script, errno }),
                Progress::Done(_) => Progress::Done(Err(errno)),
            },
            Tail::Child { script } => match script.resume(reply) {
                Progress::Busy(script) => Progress::Busy(Tail::Child { script }),
                Progress::Done(_) => Progress::Busy(self),
            },
        }
    }
}

/// Starts the last stage of a pipeline, which reads from the pipe `prev` of
/// the stage before.
pub fn pipes_end(stage: usize, prev: Ends) -> (start: Progress<Tail, Result<i32, i32>>)
    ensures
        start == Tail::start(stage, prev),
{
    Progress::Busy(Tail::Fork { spawn: ForkChild, stage, prev })
}

/// A pipeline under way.
#[derive(Clone, Copy, Debug, PartialEq, Eq)]
pub enum Pipes {
    /// The stage `stage` of `stages`, which is not the last, is being set
    /// up.
    Link { link: Link, stage: usize, stages: usize },
    /// The last stage is being set up.
    Tail { tail: Tail },
    /// The shell waits for the last stage to end.
    Wait { wait: Wait },
}

impl Pipes {
    /// Goes on to the next stage once a stage is set up; an error ends the
    /// pipeline.
    pub open spec fn linked(
        link: Progress<Link, Result<Ends, i32>>,
        stage: usize,
        stages: usize,
    ) -> Progress<Pipes, Result<Status, i32>> {
        match link {
            Progress::Busy(link) => Progress::Busy(Pipes::Link { link, stage, stages }),
            Progress::Done(Ok(prev)) => if stage + 1 < stages {
                Progress::Busy(
                    Pipes::Link {
                        link: Link::Pipe { stage: (stage + 1) as usize, prev: Some(prev) },
                        stage: (stage + 1) as usize,
                        stages,
                    },
                )
            } else {
                Progress::Busy(
                    Pipes::Tail { tail: Tail::Fork { spawn: ForkChild, stage: stages, prev } },
                )
            },
            Progress::Done(Err(errno)) => Progress::Done(Err(errno)),
        }
    }

    /// Goes on to wait for the last stage once it is set up.
    pub open spec fn tailed(tail: Progress<Tail, Result<i32, i32>>) -> Progress<
        Pipes,
        Result<Status, i32>,
    > {
        match tail {
            Progress::Busy(tail) => Progress::Busy(Pipes::Tail { tail }),
            Progress::Done(Ok(pid)) => Progress::Busy(Pipes::Wait { wait: Wait { pid } }),
            Progress::Done(Err(errno)) => Progress::Done(Err(errno)),
        }
    }

    /// Ends with success once the last stage has ended by itself.
    pub open spec fn waited(wait: Progress<Wait, Result<Status, i32>>) -> Progress<
        Pipes,
        Result<Status, i32>,
    > {
        match wait {
            Progress::Busy(wait) => Progress::Busy(Pipes::Wait { wait }),
            Progress::Done(Ok(_)) => Progress::Done(Ok(Status(0))),
            Progress::Done(Err(errno)) => Progress::Done(Err(errno)),
        }
    }

    /// A pipeline of `stages` stages at its start. The stages are numbered
    /// from one.
    pub open spec fn start(stages: usize) -> Progress<Pipes, Result<Status, i32>>
        recommends
            stages >= 2,
    {
        Progress::Busy(
            Pipes::Link { link: Link::Pipe { stage: 1, prev: None }, stage: 1, stages },
        )
    }

    /// The shell waits only for the process that `Parent` named when the
    /// last stage was duplicated.
    pub proof fn lemma_waits_for_last(self, reply: Reply)
        requires
            !(self is Wait),
        ensures
            self.after(reply) matches Progress::Busy(Pipes::Wait { wait }) ==> self matches Pipes::Tail {
                tail: Tail::Parent { pid, .. },
            } && wait.pid == pid,
            !(self.pending() is Wait),
    {
    }

    /// At its start the pipeline has changed nothing.
    pub proof fn lemma_start(stages: usize, start: Table)
        requires
            has_streams(start),
        ensures
            Pipes::start(stages) matches Progress::Busy(first) && first.valid(start)
                && first.table(start) == start && !first.in_duplicate(),
    {
    }

    /// Whatever the system answers, when a pipeline has its result, the
    /// descriptor table of the shell is as it was before: of all the pipes
    /// that it created, no descriptor is open. This holds where every
    /// stage was set up, and where a pipe could not be created or the
    /// process could not be duplicated at any stage.
    pub proof fn lemma_restores(stages: usize, start: Table, replies: Seq<Reply>)
        requires
            has_streams(start),
            plausible(Pipes::start(stages), start, replies),
        ensures
            run(Pipes::start(stages), replies) is Done ==> run_table(
                Pipes::start(stages),
                start,
                replies,
            ) == start,
    {
        Pipes::lemma_start(stages, start);
        lemma_run_neutral(Pipes::start(stages)->Busy_0, start, replies);
    }
}

impl Machine for Pipes {
    type Output = Result<Status, i32>;

    /// The call that the pipeline waits for.
    open spec fn pending(&self) -> Call {
        match *self {
            Pipes::Link { link, .. } => link.pending(),
            Pipes::Tail { tail } => tail.pending(),
            Pipes::Wait { wait } => wait.pending(),
        }
    }

    /// The pipeline after `reply`.
    ///
    /// The stages are set up from the first to the last, each in a
    /// duplicate of the shell, each but the last with a new pipe that the
    /// next one reads from. Then the shell waits for the duplicate of the
    /// last stage, and for no other. The result is success where that
    /// duplicate ended by itself, whatever its exit status, and else the
    /// error of the wait or of the step that failed.
    open spec fn after(&self, reply: Reply) -> Progress<Pipes, Result<Status, i32>> {
        match *self {
            Pipes::Link { link, stage, stages } => Pipes::linked(link.after(reply), stage, stages),
            Pipes::Tail { tail } => Pipes::tailed(tail.after(reply)),
            Pipes::Wait { wait } => Pipes::waited(wait.after(reply)),
        }
    }

    /// The call to make now.
    fn call(&self) -> (call: Call)
        ensures
            call == self.pending(),
    {
        match self {
            Pipes::Link { link, .. } => link.call(),
            Pipes::Tail { tail } => tail.call(),
            Pipes::Wait { wait } => wait.call(),
        }
    }

    /// Takes the reply to the pending call.
    fn resume(self, reply: Reply) -> (next: Progress<Pipes, Result<Status, i32>>)
        ensures
            next == self.after(reply),
    {
        match self {
            Pipes::Link { link, stage, stages } => match link.resume(reply) {
                Progress::Busy(link) => Progress::Busy(Pipes::Link { link, stage, stages }),
                Progress::Done(Ok(prev)) => if stage < stages && stage + 1 < stages {
                    Progress::Busy(
                        Pipes::Link {
                            link: Link::Pipe { stage: stage + 1, prev: Some(prev) },
                            stage: stage + 1,
                            stages,
                        },
                    )
                } else {
                    Progress::Busy(
                        Pipes::Tail { tail: Tail::Fork { spawn: ForkChild, stage: stages, prev } },
                    )
                },
                Progress::Done(Err(errno)) => Progress::Done(Err(errno)),
            },
            Pipes::Tail { tail } => match tail.resume(reply) {
                Progress::Busy(tail) => Progress::Busy(Pipes::Tail { tail }),
                Progress::Done(Ok(pid)) => Progress::Busy(Pipes::Wait { wait: Wait { pid } }),
                Progress::Done(Err(errno)) => Progress::Done(Err(errno)),
            },
            Pipes::Wait { wait } => match wait.resume(reply) {
                Progress::Busy(wait) => Progress::Busy(Pipes::Wait { wait }),
                Progress::Done(Ok(_)) => Progress::Done(Ok(Status::success())),
                Progress::Done(Err(errno)) => Progress::Done(Err(errno)),
            },
        }
    }
}

impl Neutral for Pipes {
    /// The pipe between the stage that is set up and the one before is the
    /// only pipe that the shell holds.
    open spec fn valid(&self, start: Table) -> bool {
        &&& has_streams(start)
        &&& match *self {
            Pipes::Link { link, .. } => {
                &&& link.before() matches Some(prev) ==> pipe_new(start, prev)
                &&& link.valid(piped_if(start, link.before()))
            },
            Pipes::Tail { tail } => pipe_new(start, tail.before()) && tail.valid(
                piped(start, tail.before()),
            ),
            Pipes::Wait { .. } => true,
        }
    }

    open spec fn table(&self, start: Table) -> Table {
        match *self {
            Pipes::Link { link, .. } => link.table(piped_if(start, link.before())),
            Pipes::Tail { tail } => tail.table(piped(start, tail.before())),
            Pipes::Wait { .. } => start,
        }
    }

    open spec fn in_duplicate(&self) -> bool {
        match *self {
            Pipes::Link { link, .. } => link.in_duplicate(),
            Pipes::Tail { tail } => tail.in_duplicate(),
            Pipes::Wait { .. } => false,
        }
    }

    /// When the pipeline has its result, every descriptor of every pipe is
    /// closed in the shell, whether the pipeline ran or a step of it
    /// failed.
    proof fn lemma_step(&self, start: Table, reply: Reply) {
        match *self {
            Pipes::Link { link, stage, stages } => {
                let base = piped_if(start, link.before());
                link.lemma_step(base, reply);
                if let Some(prev) = link.before() {
                    lemma_drop_undoes_pipe(start, prev);
                }
                match link.after(reply) {
                    Progress::Busy(_) => {},
                    Progress::Done(Ok(next)) => {
                        assert(dropped_if(base, link.before()) == start);
                        assert(pipe_new(start, next));
                        assert(pipe_open(piped(start, next), next));
                    },
                    Progress::Done(Err(_)) => {},
                }
            },
            Pipes::Tail { tail } => {
                tail.lemma_step(piped(start, tail.before()), reply);
                lemma_drop_undoes_pipe(start, tail.before());
            },
            Pipes::Wait { .. } => {},
        }
    }

    proof fn lemma_duplicate_never_returns(&self, reply: Reply) {
        match *self {
            Pipes::Link { link, .. } => link.lemma_duplicate_never_returns(reply),
            Pipes::Tail { tail } => tail.lemma_duplicate_never_returns(reply),
            Pipes::Wait { .. } => {},
        }
    }
}

/// Starts the pipeline whose stages are the arguments behind the first,
/// which is the builtin's name: `Some` where there are at least two stages,
/// and `None` where there are fewer, which is no pipeline.
pub fn do_pipes(args: &Vec<&str>) -> (start: Option<Progress<Pipes, Result<Status, i32>>>)
    ensures
        start == if args@.len() >= 3 {
            Some(Pipes::start((args@.len() - 1) as usize))
        } else {
            None
        },
{
    if args.len() >= 3 {
        Some(
            Progress::Busy(
                Pipes::Link {
                    link: Link::Pipe { stage: 1, prev: None },
                    stage: 1,
                    stages: args.len() - 1,
                },
            ),
        )
    } else {
        None
    }
}

} // verus!
