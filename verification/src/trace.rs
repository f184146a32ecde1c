//! What holds of an operation over all the replies that it may get.

use vstd::prelude::*;
use crate::fds::{effect, fresh, Table};
use crate::sys::{answers, Machine, Progress, Reply};

verus! {

/// Where an operation stands after the replies `replies`, taken in order.
/// Replies behind the one that gives the result are not taken.
pub open spec fn run<M: Machine>(at: Progress<M, M::Output>, replies: Seq<Reply>) -> Progress<
    M,
    M::Output,
>
    decreases replies.len(),
{
    match at {
        Progress::Busy(machine) => if replies.len() > 0 {
            run(machine.after(replies[0]), replies.drop_first())
        } else {
            at
        },
        Progress::Done(_) => at,
    }
}

/// The descriptor table after the replies `replies`, taken in order by an
/// operation that stands at `at` on the table `table`.
pub open spec fn run_table<M: Machine>(
    at: Progress<M, M::Output>,
    table: Table,
    replies: Seq<Reply>,
) -> Table
    decreases replies.len(),
{
    match at {
        Progress::Busy(machine) => if replies.len() > 0 {
            run_table(
                machine.after(replies[0]),
                effect(table, machine.pending(), replies[0]),
                replies.drop_first(),
            )
        } else {
            table
        },
        Progress::Done(_) => table,
    }
}

/// Whether the shell can get the replies `replies`, in order, when its
/// operation stands at `at` on the table `table`: each answers the call
/// that is pending when it comes, and hands out only descriptors that are
/// not open then; none is `Child`, which only a duplicate gets.
pub open spec fn plausible<M: Machine>(
    at: Progress<M, M::Output>,
    table: Table,
    replies: Seq<Reply>,
) -> bool
    decreases replies.len(),
{
    match at {
        Progress::Busy(machine) => replies.len() > 0 ==> {
            &&& answers(machine.pending(), replies[0])
            &&& fresh(table, replies[0])
            &&& !(replies[0] is Child)
            &&& plausible(
                machine.after(replies[0]),
                effect(table, machine.pending(), replies[0]),
                replies.drop_first(),
            )
        },
        Progress::Done(_) => true,
    }
}

/// An operation that leaves the descriptors of the shell as it found them.
pub trait Neutral: Machine {
    /// Whether the operation can stand where it stands, having started on
    /// `start`.
    spec fn valid(&self, start: Table) -> bool;

    /// The table while the operation waits, having started on `start`.
    spec fn table(&self, start: Table) -> Table;

    /// Whether this is a duplicate of the shell.
    spec fn in_duplicate(&self) -> bool;

    /// In the shell, each reply takes the table where `table` says, and
    /// the reply that gives the result takes it back to `start`.
    proof fn lemma_step(&self, start: Table, reply: Reply)
        requires
            self.valid(start),
            !self.in_duplicate(),
            answers(self.pending(), reply),
            fresh(self.table(start), reply),
            !(reply is Child),
        ensures
            match self.after(reply) {
                Progress::Busy(next) => next.valid(start) && !next.in_duplicate() && next.table(
                    start,
                ) == effect(self.table(start), self.pending(), reply),
                Progress::Done(_) => start == effect(self.table(start), self.pending(), reply),
            },
    ;

    /// A duplicate has no result, and stays a duplicate, whatever it is
    /// told.
    proof fn lemma_duplicate_never_returns(&self, reply: Reply)
        requires
            self.in_duplicate(),
        ensures
            self.after(reply) matches Progress::Busy(next) && next.in_duplicate(),
    ;
}

/// Whatever the system answers, an operation of the shell that has its
/// result has left the descriptor table as it was when the operation
/// started: every descriptor that it opened or duplicated is closed, and
/// each standard stream refers to what it referred to. Until then the
/// table is what `table` says.
pub proof fn lemma_run_neutral<M: Neutral>(machine: M, start: Table, replies: Seq<Reply>)
    requires
        machine.valid(start),
        !machine.in_duplicate(),
        plausible(Progress::<M, M::Output>::Busy(machine), machine.table(start), replies),
    ensures
        match run(Progress::<M, M::Output>::Busy(machine), replies) {
            Progress::Busy(last) => last.valid(start) && !last.in_duplicate() && run_table(
                Progress::<M, M::Output>::Busy(machine),
                machine.table(start),
                replies,
            ) == last.table(start),
            Progress::Done(_) => run_table(
                Progress::<M, M::Output>::Busy(machine),
                machine.table(start),
                replies,
            ) == start,
        },
    decreases replies.len(),
{
    reveal_with_fuel(run, 2);
    reveal_with_fuel(run_table, 2);
    reveal_with_fuel(plausible, 2);
    if replies.len() > 0 {
        machine.lemma_step(start, replies[0]);
        match machine.after(replies[0]) {
            Progress::Busy(next) => {
                lemma_run_neutral(next, start, replies.drop_first());
            },
            Progress::Done(_) => {},
        }
    }
}

/// Whatever it is told, a duplicate of the shell never has a result: it
/// does not come back into the operation that made it.
pub proof fn lemma_run_duplicate<M: Neutral>(machine: M, replies: Seq<Reply>)
    requires
        machine.in_duplicate(),
    ensures
        run(Progress::<M, M::Output>::Busy(machine), replies) matches Progress::Busy(last)
            && last.in_duplicate(),
    decreases replies.len(),
{
    reveal_with_fuel(run, 2);
    if replies.len() > 0 {
        machine.lemma_duplicate_never_returns(replies[0]);
        if let Progress::Busy(next) = machine.after(replies[0]) {
            lemma_run_duplicate(next, replies.drop_first());
        }
    }
}

} // verus!
