//! A model of the descriptor table of a process, against which the engine's
//! handling of descriptors is proved.

use vstd::prelude::*;
use crate::sys::{Call, Reply, Stream};

verus! {

/// What a descriptor refers to.
pub enum Target {
    /// What the descriptor `fd` referred to when the shell started.
    Initial { fd: i32 },
    /// The redirect target that was opened for `stream`.
    Opened { stream: Stream },
    /// The reading end of the pipe that was created with `fd` as the
    /// descriptor of that end.
    PipeRead { fd: i32 },
    /// The writing end of the pipe that was created with `fd` as the
    /// descriptor of that end.
    PipeWrite { fd: i32 },
}

/// The open descriptors of a process, each with what it refers to.
pub type Table = Map<i32, Target>;

/// Whether `reply` hands out only descriptors that `table` does not hold,
/// as the system does.
pub open spec fn fresh(table: Table, reply: Reply) -> bool {
    match reply {
        Reply::Fd { fd } => !table.dom().contains(fd),
        Reply::Pipe { read, write } => read != write && !table.dom().contains(read)
            && !table.dom().contains(write),
        _ => true,
    }
}

/// The table after `call` was made on `table` and answered by `reply`.
///
/// A new process starts with a copy of the table, and a failed call changes
/// nothing. A handler and the evaluation of a pipeline stage are taken to
/// leave the table as they found it.
pub open spec fn effect(table: Table, call: Call, reply: Reply) -> Table {
    match (call, reply) {
        (Call::Open { stream }, Reply::Fd { fd }) => table.insert(fd, Target::Opened { stream }),
        (Call::Dup { fd }, Reply::Fd { fd: new }) => table.insert(new, table[fd]),
        (Call::Dup2 { from, to }, Reply::Done) => table.insert(to, table[from]),
        (Call::Close { fd }, Reply::Done) => table.remove(fd),
        (Call::Pipe, Reply::Pipe { read, write }) => table.insert(
            read,
            Target::PipeRead { fd: read },
        ).insert(write, Target::PipeWrite { fd: write }),
        _ => table,
    }
}

/// Whether `table` holds both standard streams.
pub open spec fn has_streams(table: Table) -> bool {
    table.dom().contains(0i32) && table.dom().contains(1i32)
}

} // verus!
