//! Result codes of invocations and the per-session shell state.

use vstd::prelude::*;
use vstd::string::StringExecFns;
use crate::builtins::Builtins;

verus! {

/// The result code of a completed invocation; zero is success.
#[derive(Debug, Copy, Clone, PartialEq, Eq, Structural, PartialOrd, Ord, Hash)]
pub struct Status(pub i32);

impl Status {
    /// The status with the given result code.
    pub fn from_code(code: i32) -> (status: Status)
        ensures
            status == Status(code),
    {
        Status(code)
    }

    /// A copy of `status`.
    pub fn from(status: &Status) -> (copy: Status)
        ensures
            copy == *status,
    {
        Status::from_code(status.0)
    }

    /// The status of a successful invocation.
    pub fn success() -> (status: Status)
        ensures
            status == Status(0),
    {
        Status::from_code(0)
    }

    /// The result code.
    pub fn code(&self) -> (code: i32)
        ensures
            code == self.0,
    {
        self.0
    }
}

/// What a `State` holds, as plain values.
pub ghost struct StateView {
    pub name: Seq<char>,
    pub depth: u32,
    pub debug: bool,
    pub interactive: bool,
    pub running: bool,
    pub status: Status,
    pub lastpid: i32,
}

impl StateView {
    /// The state of a new top-level session.
    pub open spec fn initial(name: Seq<char>, interactive: bool) -> StateView {
        StateView {
            name,
            depth: 0,
            debug: false,
            interactive,
            running: true,
            status: Status(0),
            lastpid: 0,
        }
    }

    /// The state of a subshell of this session: one level deeper, with the
    /// session's name and a copy of its debug flag, and with running flag,
    /// status and last background process as in a new session.
    pub open spec fn spawned(self) -> StateView
        recommends
            self.depth < u32::MAX,
    {
        StateView {
            name: self.name,
            depth: (self.depth + 1) as u32,
            debug: self.debug,
            interactive: self.interactive,
            running: true,
            status: Status(0),
            lastpid: 0,
        }
    }

    /// This state once the subshell `child` has returned: the name is the
    /// one that the subshell left, and nothing else has changed.
    pub open spec fn rejoined(self, child: StateView) -> StateView {
        StateView { name: child.name, ..self }
    }

    /// This state under another name.
    pub open spec fn renamed(self, name: Seq<char>) -> StateView {
        StateView { name, ..self }
    }

    /// This state with the status of the last invocation.
    pub open spec fn with_status(self, code: i32) -> StateView {
        StateView { status: Status(code), ..self }
    }

    /// This state with the last background process.
    pub open spec fn with_lastpid(self, pid: i32) -> StateView {
        StateView { lastpid: pid, ..self }
    }

    /// This state once the session has been told to end.
    pub open spec fn terminated(self) -> StateView {
        StateView { running: false, ..self }
    }
}

/// The state of one session: of the shell itself, or of a subshell.
///
/// A subshell runs while the session that spawned it waits, so the name,
/// which they share, is handed to the subshell by `sub` and taken back by
/// `rejoin`.
pub struct State<'a> {
    /// The registry of the builtins, the same for every session.
    pub builtins: &'a Builtins<'a>,
    /// The name of the shell, shared with every subshell.
    pub name: String,
    /// How many sessions stand above this one.
    pub depth: u32,
    /// Whether the session writes what it does.
    pub debug: bool,
    /// Whether the shell reads from a terminal.
    pub interactive: bool,
    /// Whether the session goes on reading commands.
    pub running: bool,
    /// The status of the last invocation that completed.
    pub status: Status,
    /// The process of the last invocation in the background.
    pub lastpid: i32,
}

impl<'a> View for State<'a> {
    type V = StateView;

    open spec fn view(&self) -> StateView {
        StateView {
            name: self.name@,
            depth: self.depth,
            debug: self.debug,
            interactive: self.interactive,
            running: self.running,
            status: self.status,
            lastpid: self.lastpid,
        }
    }
}

impl<'a> State<'a> {
    /// The state of a new top-level session.
    pub fn new(builtins: &'a Builtins<'a>, name: &str, interactive: bool) -> (state: State<'a>)
        ensures
            state@ == StateView::initial(name@, interactive),
            state.builtins == builtins,
    {
        State {
            builtins,
            name: String::from_str(name),
            depth: 0,
            debug: false,
            interactive,
            running: true,
            status: Status(0),
            lastpid: 0,
        }
    }

    /// The state of a new subshell of this session.
    pub fn sub(&self) -> (child: State<'a>)
        requires
            self.depth < u32::MAX,
        ensures
            child@ == self@.spawned(),
            child.depth == self.depth + 1,
            child.builtins == self.builtins,
    {
        State {
            builtins: self.builtins,
            name: self.name.clone(),
            depth: self.depth + 1,
            debug: self.debug,
            interactive: self.interactive,
            running: true,
            status: Status(0),
            lastpid: 0,
        }
    }

    /// Takes the shared name back from the subshell `child`, which has
    /// returned, and gives the status that it ended with.
    pub fn rejoin(&mut self, child: State<'a>) -> (status: Status)
        ensures
            final(self)@ == old(self)@.rejoined(child@),
            final(self).builtins == old(self).builtins,
            status == child.status,
    {
        self.name = child.name;
        child.status
    }

    /// Tells the session to end: it reads no further command.
    pub fn terminate(&mut self)
        ensures
            final(self)@ == old(self)@.terminated(),
            final(self).builtins == old(self).builtins,
    {
        self.running = false;
    }

    /// Records the result code of the last invocation.
    pub fn set_status_code(&mut self, code: i32)
        ensures
            final(self)@ == old(self)@.with_status(code),
            final(self).builtins == old(self).builtins,
    {
        self.status = Status(code);
    }

    /// Records the status of the last invocation.
    pub fn set_status(&mut self, status: &Status)
        ensures
            final(self)@ == old(self)@.with_status(status.0),
            final(self).builtins == old(self).builtins,
    {
        self.set_status_code(status.0);
    }

    /// Changes the shell's name.
    pub fn set_name(&mut self, name: &str)
        ensures
            final(self)@ == old(self)@.renamed(name@),
            final(self).builtins == old(self).builtins,
    {
        self.name = String::from_str(name);
    }
}

/// A subshell is one level below the session that spawned it, and what it
/// does reaches that session through the shared name and the returned
/// status alone: whatever the subshell's state has become when it returns,
/// the session has the subshell's name, and its own depth, flags, status
/// and last background process as before.
pub proof fn lemma_subshell(parent: StateView, child: StateView)
    requires
        parent.depth < u32::MAX,
    ensures
        parent.spawned().depth == parent.depth + 1,
        parent.spawned().name == parent.name,
        parent.spawned().running && parent.spawned().status == Status(0),
        parent.rejoined(child).name == child.name,
        parent.rejoined(child) == parent.renamed(child.name),
        parent.rejoined(child).running == parent.running,
        parent.rejoined(child).status == parent.status,
        parent.rejoined(child).depth == parent.depth,
        parent.rejoined(child).debug == parent.debug,
        parent.rejoined(child).lastpid == parent.lastpid,
{
}

/// A name given inside a subshell is the name of the session that spawned
/// it as soon as the subshell has returned, whatever else the subshell did
/// to its own status and running flag.
pub proof fn lemma_rename_in_subshell(parent: StateView, name: Seq<char>, code: i32)
    requires
        parent.depth < u32::MAX,
    ensures
        ({
            let child = parent.spawned().renamed(name).with_status(code).terminated();
            parent.rejoined(child) == parent.renamed(name)
        }),
{
}

/// A top-level session has depth zero, so its subshells have depth one.
pub proof fn lemma_first_subshell(name: Seq<char>, interactive: bool)
    ensures
        StateView::initial(name, interactive).depth == 0,
        StateView::initial(name, interactive).spawned().depth == 1,
{
}

} // verus!
