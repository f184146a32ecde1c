//! Evaluating a line, and the rounds of a session: from the text of a
//! command to the run that it asks for, and from the result of the run to
//! the state of the session.

use vstd::prelude::*;
use vstd::string::StringExecFns;
use crate::builtins::{Builtin, Handler};
use crate::common::{Command, CommandView};
use crate::exec::{run_builtin, run_external, Ran, RunBuiltin, RunExternal};
use crate::fds::{has_streams, Table};
use crate::parser::{command_of, parse, tokens_of};
use crate::state::{State, StateView, Status};
use crate::sys::{Call, Machine, Progress, Reply};
use crate::trace::{lemma_run_neutral, plausible, run, run_table, Neutral};

verus! {

/// The evaluation of one command.
#[derive(Clone, Copy, Debug, PartialEq, Eq)]
pub enum Eval {
    /// A builtin runs.
    Builtin { builtin: RunBuiltin },
    /// An external program runs.
    External { external: RunExternal },
    /// The run failed with `errno`, which is to be reported.
    Report { errno: i32, lastpid: Option<i32> },
}

impl Eval {
    /// What follows a run: an error is reported.
    pub open spec fn ran(ran: Ran) -> Progress<Eval, Ran> {
        match ran.result {
            Ok(_) => Progress::Done(ran),
            Err(errno) => Progress::Busy(Eval::Report { errno, lastpid: ran.lastpid }),
        }
    }

    /// The builtin at its run, or what follows it.
    pub open spec fn from_builtin(run: Progress<RunBuiltin, Ran>) -> Progress<Eval, Ran> {
        match run {
            Progress::Busy(builtin) => Progress::Busy(Eval::Builtin { builtin }),
            Progress::Done(ran) => Eval::ran(ran),
        }
    }

    /// The external program at its run, or what follows it.
    pub open spec fn from_external(run: Progress<RunExternal, Ran>) -> Progress<Eval, Ran> {
        match run {
            Progress::Busy(external) => Progress::Busy(Eval::External { external }),
            Progress::Done(ran) => Eval::ran(ran),
        }
    }

    /// The evaluation of `cmd` at its start; `builtin` says whether the
    /// command's name is that of a builtin.
    pub open spec fn start(builtin: bool, cmd: CommandView) -> Progress<Eval, Ran> {
        if builtin {
            Eval::from_builtin(
                RunBuiltin::start(
                    cmd.background,
                    cmd.inredirect is Some,
                    cmd.outredirect is Some,
                ),
            )
        } else {
            Eval::from_external(
                RunExternal::start(
                    cmd.background,
                    cmd.inredirect is Some,
                    cmd.outredirect is Some,
                ),
            )
        }
    }

    /// An evaluation ends with an error only behind the report of that
    /// error.
    pub proof fn lemma_error_is_reported(self, reply: Reply)
        ensures
            self.after(reply) matches Progress::Done(ended) ==> (ended.result matches Err(errno)
                ==> self.pending() == (Call::Report { errno })),
    {
    }

    /// At its start the evaluation has changed nothing.
    pub proof fn lemma_start(builtin: bool, cmd: CommandView, start: Table)
        requires
            has_streams(start),
        ensures
            Eval::start(builtin, cmd) matches Progress::Busy(first) && first.valid(start)
                && first.table(start) == start && !first.in_duplicate(),
    {
        RunBuiltin::lemma_start(
            cmd.background,
            cmd.inredirect is Some,
            cmd.outredirect is Some,
            start,
        );
    }

    /// Whatever the system answers, when the evaluation of a command has
    /// its result, the descriptor table of the shell is as it was before:
    /// both standard streams are back, and no descriptor is left open. This
    /// holds where the command ran, where a redirect target could not be
    /// opened, where the handler failed, and where the process could not be
    /// duplicated.
    pub proof fn lemma_restores(builtin: bool, cmd: CommandView, start: Table, replies: Seq<Reply>)
        requires
            has_streams(start),
            plausible(Eval::start(builtin, cmd), start, replies),
        ensures
            run(Eval::start(builtin, cmd), replies) is Done ==> run_table(
                Eval::start(builtin, cmd),
                start,
                replies,
            ) == start,
    {
        Eval::lemma_start(builtin, cmd, start);
        lemma_run_neutral(Eval::start(builtin, cmd)->Busy_0, start, replies);
    }
}

impl Machine for Eval {
    type Output = Ran;

    /// The call that the evaluation waits for.
    open spec fn pending(&self) -> Call {
        match *self {
            Eval::Builtin { builtin } => builtin.pending(),
            Eval::External { external } => external.pending(),
            Eval::Report { errno, .. } => Call::Report { errno },
        }
    }

    /// The evaluation after `reply`: the command runs, and where the run
    /// ends with an error, the error is reported before the evaluation
    /// ends with it.
    open spec fn after(&self, reply: Reply) -> Progress<Eval, Ran> {
        match *self {
            Eval::Builtin { builtin } => Eval::from_builtin(builtin.after(reply)),
            Eval::External { external } => Eval::from_external(external.after(reply)),
            Eval::Report { errno, lastpid } => match reply {
                Reply::Done => Progress::Done(Ran { result: Err(errno), lastpid }),
                _ => Progress::Busy(*self),
            },
        }
    }

    /// The call to make now.
    fn call(&self) -> (call: Call)
        ensures
            call == self.pending(),
    {
        match self {
            Eval::Builtin { builtin } => builtin.call(),
            Eval::External { external } => external.call(),
            Eval::Report { errno, .. } => Call::Report { errno: *errno },
        }
    }

    /// Takes the reply to the pending call.
    fn resume(self, reply: Reply) -> (next: Progress<Eval, Ran>)
        ensures
            next == self.after(reply),
    {
        match self {
            Eval::Builtin { builtin } => builtin_ran(builtin.resume(reply)),
            Eval::External { external } => external_ran(external.resume(reply)),
            Eval::Report { errno, lastpid } => match reply {
                Reply::Done => Progress::Done(Ran { result: Err(errno), lastpid }),
                _ => Progress::Busy(self),
            },
        }
    }
}

impl Neutral for Eval {
    open spec fn valid(&self, start: Table) -> bool {
        &&& has_streams(start)
        &&& match *self {
            Eval::Builtin { builtin } => builtin.valid(start),
            _ => true,
        }
    }

    open spec fn table(&self, start: Table) -> Table {
        match *self {
            Eval::Builtin { builtin } => builtin.table(start),
            _ => start,
        }
    }

    open spec fn in_duplicate(&self) -> bool {
        match *self {
            Eval::Builtin { builtin } => builtin.in_duplicate(),
            Eval::External { external } => external.in_duplicate(),
            Eval::Report { .. } => false,
        }
    }

    /// No command, however it ends, costs the shell a descriptor or leaves
    /// a standard stream redirected.
    proof fn lemma_step(&self, start: Table, reply: Reply) {
        match *self {
            Eval::Builtin { builtin } => {
                builtin.lemma_step(start, reply);
            },
            Eval::External { external } => {
                external.lemma_parent_calls();
            },
            Eval::Report { .. } => {},
        }
    }

    proof fn lemma_duplicate_never_returns(&self, reply: Reply) {
    }
}

/// What follows a run.
fn run_ended(ended: Ran) -> (next: Progress<Eval, Ran>)
    ensures
        next == Eval::ran(ended),
{
    match ended.result {
        Ok(_) => Progress::Done(ended),
        Err(errno) => Progress::Busy(Eval::Report { errno, lastpid: ended.lastpid }),
    }
}

/// The builtin at its run, or what follows it.
fn builtin_ran(run: Progress<RunBuiltin, Ran>) -> (next: Progress<Eval, Ran>)
    ensures
        next == Eval::from_builtin(run),
{
    match run {
        Progress::Busy(builtin) => Progress::Busy(Eval::Builtin { builtin }),
        Progress::Done(ended) => run_ended(ended),
    }
}

/// The external program at its run, or what follows it.
fn external_ran(run: Progress<RunExternal, Ran>) -> (next: Progress<Eval, Ran>)
    ensures
        next == Eval::from_external(run),
{
    match run {
        Progress::Busy(external) => Progress::Busy(Eval::External { external }),
        Progress::Done(ended) => run_ended(ended),
    }
}

/// A command on its way to run: the command, the builtin that its name
/// stands for, if it is one, and the evaluation at its start.
pub struct Dispatch<'a, 'b> {
    pub command: Command<'a>,
    pub builtin: Option<&'b Builtin<'b>>,
    pub run: Progress<Eval, Ran>,
}

/// Reads the command of `cmdstr` and starts its evaluation.
///
/// A line without tokens is no command. A command whose name is that of a
/// builtin runs the builtin, and any other an external program.
pub fn eval<'a, 'b>(state: &State<'b>, cmdstr: &'a str) -> (dispatch: Option<Dispatch<'a, 'b>>)
    ensures
        dispatch is Some <==> tokens_of(cmdstr@).len() > 0,
        dispatch matches Some(d) ==> {
            &&& d.command@ == command_of(tokens_of(cmdstr@))
            &&& d.command.wf()
            &&& d.run == Eval::start(d.builtin is Some, d.command@)
            &&& match d.builtin {
                Some(builtin) => builtin.handler.name() == d.command@.args[0]
                    && builtin.standard(),
                None => forall|handler: Handler| handler.name() != d.command@.args[0],
            }
        },
{
    match parse(cmdstr) {
        Some(command) => {
            let builtin = state.builtins.find(command.args[0]);
            let run = match builtin {
                Some(_) => builtin_ran(run_builtin(&command)),
                None => external_ran(run_external(&command)),
            };
            Some(Dispatch { command, builtin, run })
        },
        None => None,
    }
}

impl StateView {
    /// This state once an invocation has ended with `ran`: the status is
    /// the invocation's status, or the code of the system error that
    /// stopped it, and the last background process is the one that the
    /// invocation left, if it left one.
    pub open spec fn recorded(self, ran: Ran) -> StateView {
        StateView {
            status: match ran.result {
                Ok(status) => status,
                Err(errno) => Status(errno),
            },
            lastpid: match ran.lastpid {
                Some(pid) => pid,
                None => self.lastpid,
            },
            ..self
        }
    }
}

impl<'a> State<'a> {
    /// Records how an invocation ended.
    pub fn record(&mut self, ran: &Ran)
        ensures
            final(self)@ == old(self)@.recorded(*ran),
            final(self).builtins == old(self).builtins,
    {
        match ran.result {
            Ok(status) => self.set_status(&status),
            Err(errno) => self.set_status_code(errno),
        }
        if let Some(pid) = ran.lastpid {
            self.lastpid = pid;
        }
    }
}

/// What a session read.
#[derive(Clone, Copy, Debug, PartialEq, Eq)]
pub enum Input {
    /// The input has ended.
    End,
    /// A line.
    Line,
    /// The system refused the read with the error `errno`.
    Failed { errno: i32 },
}

/// What a session does with what it read.
#[derive(Clone, Copy, Debug, PartialEq, Eq)]
pub enum Todo {
    /// Nothing.
    Nothing,
    /// The line is to be evaluated.
    Evaluate,
    /// The error `errno` is to be reported.
    Report { errno: i32 },
}

/// The prompt of an interactive session: the shell's name, `>` and a space.
/// Another session has none.
pub fn print_prompt(state: &State) -> (prompt: Option<String>)
    ensures
        prompt is Some <==> state.interactive,
        prompt matches Some(text) ==> text@ == state.name@ + seq!['>', ' '],
{
    if state.interactive {
        proof {
            reveal_strlit("> ");
        }
        let mut text = state.name.clone();
        text.append("> ");
        assert(text@ =~= state.name@ + seq!['>', ' ']);
        Some(text)
    } else {
        None
    }
}

/// Takes what the session read: the end of the input ends the session; a
/// line is to be evaluated; a failed read sets the status to the error's
/// code and is to be reported, and the session goes on.
pub fn read_eval(state: &mut State, input: Input) -> (todo: Todo)
    ensures
        final(state).builtins == old(state).builtins,
        match input {
            Input::End => todo == Todo::Nothing && final(state)@ == old(state)@.terminated(),
            Input::Line => todo == Todo::Evaluate && final(state)@ == old(state)@,
            Input::Failed { errno } => todo == (Todo::Report { errno }) && final(state)@ == old(
                state,
            )@.with_status(errno),
        },
{
    match input {
        Input::End => {
            state.terminate();
            Todo::Nothing
        },
        Input::Line => Todo::Evaluate,
        Input::Failed { errno } => {
            state.set_status_code(errno);
            Todo::Report { errno }
        },
    }
}

/// Whether the session goes on: `None` where it reads another command,
/// and the status that the session ends with where it has been told to
/// end.
pub fn read_eval_loop(state: &State) -> (end: Option<Status>)
    ensures
        end == if state.running {
            None
        } else {
            Some(state.status)
        },
{
    if state.running {
        None
    } else {
        Some(state.status)
    }
}

} // verus!
