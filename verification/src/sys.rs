//! What the engine asks of the operating system, and what it is told.
//!
//! The engine itself touches no descriptor and starts no process. Each of
//! its operations is a small machine: it names the next call to make, takes
//! the reply, and goes on until it has a result. Whoever drives a machine
//! makes the calls.

use vstd::prelude::*;
use crate::state::Status;

verus! {

/// A standard stream of the process.
#[derive(Clone, Copy, Debug, PartialEq, Eq)]
pub enum Stream {
    Stdin,
    Stdout,
}

impl Stream {
    /// The descriptor that the stream has in every process.
    pub open spec fn slot(self) -> i32 {
        match self {
            Stream::Stdin => 0i32,
            Stream::Stdout => 1i32,
        }
    }

    /// The descriptor that the stream has in every process.
    pub fn fd(&self) -> (fd: i32)
        ensures
            fd == self.slot(),
    {
        match self {
            Stream::Stdin => 0,
            Stream::Stdout => 1,
        }
    }
}

/// One call to make on behalf of the engine.
#[derive(Clone, Copy, Debug, PartialEq, Eq)]
pub enum Call {
    /// Open the command's redirect target for `stream`: the input target
    /// for reading only; the output target for writing only, created if it
    /// is missing, cut to length zero, readable and writable by its owner.
    /// Answered by `Fd` or `Failed`.
    Open { stream: Stream },
    /// Duplicate the descriptor `fd`. Answered by `Fd`.
    Dup { fd: i32 },
    /// Make the descriptor `to` refer to what `from` refers to. Answered by
    /// `Done`.
    Dup2 { from: i32, to: i32 },
    /// Close the descriptor `fd`. Answered by `Done`.
    Close { fd: i32 },
    /// Create a pipe. Answered by `Pipe` or `Failed`.
    Pipe,
    /// Duplicate the process. Answered by `Parent` in the process that
    /// asked, by `Child` in the duplicate, or by `Failed`.
    Fork,
    /// Block until the process `pid` has ended. Answered by `Exited`,
    /// `NotExited` or `Failed`.
    Wait { pid: i32 },
    /// Replace the program image by the program that the command names,
    /// with the command's arguments. Answered only where that fails, by
    /// `Failed`.
    Exec,
    /// Run the handler of the command's builtin on the command's arguments.
    /// Answered by `Returned` or `Failed`.
    Invoke,
    /// Evaluate the text of the pipeline's stage `stage` in this process.
    /// Answered by `Done`.
    Eval { stage: usize },
    /// Write the message of the system error `errno` to the diagnostic
    /// stream. Answered by `Done`.
    Report { errno: i32 },
    /// End the process with the exit status `code`. Never answered.
    Exit { code: i32 },
}

/// The answer to a call.
#[derive(Clone, Copy, Debug, PartialEq, Eq)]
pub enum Reply {
    /// The call was made.
    Done,
    /// The new descriptor.
    Fd { fd: i32 },
    /// The two ends of the new pipe.
    Pipe { read: i32, write: i32 },
    /// This is the process that asked; `pid` is its duplicate.
    Parent { pid: i32 },
    /// This is the duplicate.
    Child,
    /// The process ended by itself, with the exit status `code`.
    Exited { code: i32 },
    /// The process ended in another way; `errno` is the last system error
    /// of the caller.
    NotExited { errno: i32 },
    /// The handler's result.
    Returned { status: Status },
    /// The system refused the call with the error `errno`.
    Failed { errno: i32 },
}

/// Whether `reply` is an answer that `call` can get.
pub open spec fn answers(call: Call, reply: Reply) -> bool {
    match call {
        Call::Open { .. } => reply is Fd || reply is Failed,
        Call::Dup { .. } => reply is Fd,
        Call::Dup2 { .. } | Call::Close { .. } | Call::Eval { .. } | Call::Report { .. } => reply
            is Done,
        Call::Pipe => reply is Pipe || reply is Failed,
        Call::Fork => reply is Parent || reply is Child || reply is Failed,
        Call::Wait { .. } => reply is Exited || reply is NotExited || reply is Failed,
        Call::Exec => reply is Failed,
        Call::Invoke => reply is Returned || reply is Failed,
        Call::Exit { .. } => false,
    }
}

/// Whether `reply` is an answer that `call` can get.
pub fn answered(call: &Call, reply: &Reply) -> (b: bool)
    ensures
        b == answers(*call, *reply),
{
    match call {
        Call::Open { .. } => matches!(reply, Reply::Fd { .. } | Reply::Failed { .. }),
        Call::Dup { .. } => matches!(reply, Reply::Fd { .. }),
        Call::Dup2 { .. } | Call::Close { .. } | Call::Eval { .. } | Call::Report { .. } => matches!(
            reply,
            Reply::Done
        ),
        Call::Pipe => matches!(reply, Reply::Pipe { .. } | Reply::Failed { .. }),
        Call::Fork => matches!(reply, Reply::Parent { .. } | Reply::Child | Reply::Failed { .. }),
        Call::Wait { .. } => matches!(
            reply,
            Reply::Exited { .. } | Reply::NotExited { .. } | Reply::Failed { .. }
        ),
        Call::Exec => matches!(reply, Reply::Failed { .. }),
        Call::Invoke => matches!(reply, Reply::Returned { .. } | Reply::Failed { .. }),
        Call::Exit { .. } => false,
    }
}

/// Where an operation stands: it waits for the reply to a call, or it has
/// its result.
#[derive(Clone, Copy, Debug, PartialEq, Eq)]
pub enum Progress<M, T> {
    Busy(M),
    Done(T),
}

/// An operation of the engine, under way: it waits for the reply to a
/// call.
pub trait Machine: Sized {
    /// What the operation gives when it is done.
    type Output;

    /// The call that the operation waits for.
    spec fn pending(&self) -> Call;

    /// The operation after `reply`.
    spec fn after(&self, reply: Reply) -> Progress<Self, Self::Output>;

    /// The call to make now.
    fn call(&self) -> (call: Call)
        ensures
            call == self.pending(),
    ;

    /// Takes the reply to the pending call.
    fn resume(self, reply: Reply) -> (next: Progress<Self, Self::Output>)
        ensures
            next == self.after(reply),
    ;
}

} // verus!
