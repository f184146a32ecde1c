//! What the builtins that act on the session decide. What they print is
//! left to the caller.

use vstd::prelude::*;
use crate::state::{State, Status};
use crate::text::{int_of, parse_i32};

verus! {

/// The status that `exit` ends the session with: its first argument, read
/// as an integer, and zero where there is none or it is no integer.
pub open spec fn exit_code(args: Seq<Seq<char>>) -> i32 {
    if args.len() > 1 {
        match int_of(args[1]) {
            Some(code) => code,
            None => 0i32,
        }
    } else {
        0i32
    }
}

/// The builtin `exit`: tells the session to end, and gives the status
/// that it ends with.
pub fn do_exit(state: &mut State, args: &Vec<&str>) -> (status: Status)
    ensures
        final(state)@ == old(state)@.terminated(),
        final(state).builtins == old(state).builtins,
        status == Status(exit_code(args.deep_view())),
{
    state.terminate();
    let code = if args.len() > 1 {
        match parse_i32(args[1]) {
            Some(code) => code,
            None => 0,
        }
    } else {
        0
    };
    Status::from_code(code)
}

/// The builtin `name`: with an argument, the shell's name becomes the
/// argument; without one, the name is given back, to be printed.
pub fn do_name(state: &mut State, args: &Vec<&str>) -> (shown: Option<String>)
    ensures
        final(state).builtins == old(state).builtins,
        final(state)@ == if args@.len() > 1 {
            old(state)@.renamed(args@[1]@)
        } else {
            old(state)@
        },
        shown is Some <==> args@.len() <= 1,
        shown matches Some(name) ==> name@ == old(state)@.name,
{
    if args.len() > 1 {
        state.set_name(args[1]);
        None
    } else {
        Some(state.name.clone())
    }
}

/// A subshell about to run: its state, and the command that it evaluates,
/// or none where it reads commands until its input ends.
pub struct Subshell<'a, 'b> {
    pub child: State<'a>,
    pub command: Option<&'b str>,
}

/// The builtin `subshell`: spawns the state of a subshell. With an
/// argument the subshell evaluates the argument as one command; without
/// one it runs a session of its own. When the subshell has returned,
/// `State::rejoin` gives the builtin's status.
pub fn do_subshell<'a, 'b>(state: &State<'a>, args: &Vec<&'b str>) -> (subshell: Subshell<'a, 'b>)
    requires
        state.depth < u32::MAX,
    ensures
        subshell.child@ == state@.spawned(),
        subshell.child.builtins == state.builtins,
        subshell.command == if args@.len() > 1 {
            Some(args@[1])
        } else {
            None
        },
{
    Subshell {
        child: state.sub(),
        command: if args.len() > 1 {
            Some(args[1])
        } else {
            None
        },
    }
}

} // verus!
