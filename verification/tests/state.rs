use frish::builtins::Builtins;
use frish::eval::{print_prompt, read_eval, read_eval_loop, Input, Todo};
use frish::handlers::{do_exit, do_name, do_subshell};
use frish::state::{State, Status};

#[test]
fn status_from_code_keeps_the_code() {
    assert_eq!(Status::from_code(3).code(), 3);
    assert_eq!(Status::from_code(-1).code(), -1);
    assert_eq!(Status::from_code(i32::MAX).code(), i32::MAX);
    assert_eq!(Status::from_code(127), Status(127));
}

#[test]
fn status_success_is_zero() {
    assert_eq!(Status::success().code(), 0);
    assert_eq!(Status::success(), Status::from_code(0));
}

#[test]
fn status_from_copies() {
    let status = Status::from_code(42);
    assert_eq!(Status::from(&status), status);
    assert_eq!(Status::from(&status).code(), 42);
}

#[test]
fn status_orders_by_code() {
    assert!(Status::from_code(1) < Status::from_code(2));
    assert!(Status::from_code(-5) < Status::success());
}

#[test]
fn new_state_is_a_running_top_level_session() {
    let builtins = Builtins::new();
    let state = State::new(&builtins, "frish", true);
    assert_eq!(state.name, "frish");
    assert_eq!(state.depth, 0);
    assert!(!state.debug);
    assert!(state.interactive);
    assert!(state.running);
    assert_eq!(state.status, Status::success());
    assert_eq!(state.lastpid, 0);
}

#[test]
fn sub_is_one_level_deeper() {
    let builtins = Builtins::new();
    let mut state = State::new(&builtins, "frish", false);
    state.debug = true;
    state.set_status_code(5);
    state.lastpid = 77;
    let child = state.sub();
    assert_eq!(child.depth, 1);
    assert_eq!(child.name, "frish");
    assert!(child.debug);
    assert!(!child.interactive);
    assert!(child.running);
    assert_eq!(child.status, Status::success());
    assert_eq!(child.lastpid, 0);
    let grandchild = child.sub();
    assert_eq!(grandchild.depth, 2);
    assert_eq!(state.depth, 0);
}

#[test]
fn subshell_shares_the_name_and_nothing_else() {
    let builtins = Builtins::new();
    let mut state = State::new(&builtins, "frish", true);
    state.set_status_code(5);
    state.lastpid = 77;
    let mut child = state.sub();
    child.set_name("inner");
    child.set_status_code(9);
    child.debug = true;
    child.lastpid = 123;
    child.terminate();
    let status = state.rejoin(child);
    assert_eq!(status, Status::from_code(9));
    assert_eq!(state.name, "inner");
    assert!(state.running);
    assert_eq!(state.status, Status::from_code(5));
    assert_eq!(state.depth, 0);
    assert!(!state.debug);
    assert_eq!(state.lastpid, 77);
}

#[test]
fn subshell_of_a_subshell_hands_the_name_up() {
    let builtins = Builtins::new();
    let mut state = State::new(&builtins, "frish", false);
    let mut child = state.sub();
    let mut grandchild = child.sub();
    grandchild.set_name("deep");
    child.rejoin(grandchild);
    assert_eq!(child.name, "deep");
    assert_eq!(state.name, "frish");
    state.rejoin(child);
    assert_eq!(state.name, "deep");
}

#[test]
fn terminate_is_final() {
    let builtins = Builtins::new();
    let mut state = State::new(&builtins, "frish", false);
    state.terminate();
    assert!(!state.running);
    state.set_status_code(1);
    state.set_name("other");
    state.terminate();
    assert!(!state.running);
}

#[test]
fn set_status_records_the_code() {
    let builtins = Builtins::new();
    let mut state = State::new(&builtins, "frish", false);
    state.set_status_code(17);
    assert_eq!(state.status.code(), 17);
    state.set_status(&Status::from_code(-3));
    assert_eq!(state.status.code(), -3);
    assert!(state.running);
}

#[test]
fn set_name_changes_the_name_only() {
    let builtins = Builtins::new();
    let mut state = State::new(&builtins, "frish", true);
    state.set_name("shell two");
    assert_eq!(state.name, "shell two");
    assert_eq!(state.depth, 0);
    assert!(state.running);
}

#[test]
fn prompt_shows_the_name_of_an_interactive_session() {
    let builtins = Builtins::new();
    let mut state = State::new(&builtins, "frish", true);
    assert_eq!(print_prompt(&state), Some(String::from("frish> ")));
    state.set_name("x");
    assert_eq!(print_prompt(&state), Some(String::from("x> ")));
    let state = State::new(&builtins, "frish", false);
    assert_eq!(print_prompt(&state), None);
}

#[test]
fn end_of_input_ends_the_session() {
    let builtins = Builtins::new();
    let mut state = State::new(&builtins, "frish", false);
    state.set_status_code(4);
    assert_eq!(read_eval_loop(&state), None);
    assert_eq!(read_eval(&mut state, Input::End), Todo::Nothing);
    assert!(!state.running);
    assert_eq!(read_eval_loop(&state), Some(Status::from_code(4)));
}

#[test]
fn a_line_is_evaluated() {
    let builtins = Builtins::new();
    let mut state = State::new(&builtins, "frish", false);
    assert_eq!(read_eval(&mut state, Input::Line), Todo::Evaluate);
    assert!(state.running);
    assert_eq!(state.status, Status::success());
}

#[test]
fn a_failed_read_sets_the_status_and_goes_on() {
    let builtins = Builtins::new();
    let mut state = State::new(&builtins, "frish", false);
    assert_eq!(read_eval(&mut state, Input::Failed { errno: 5 }), Todo::Report { errno: 5 });
    assert!(state.running);
    assert_eq!(state.status.code(), 5);
    assert_eq!(read_eval_loop(&state), None);
}

#[test]
fn exit_ends_the_session_with_its_argument() {
    let builtins = Builtins::new();
    let mut state = State::new(&builtins, "frish", false);
    assert_eq!(do_exit(&mut state, &vec!["exit", "3"]), Status::from_code(3));
    assert!(!state.running);
    let mut state = State::new(&builtins, "frish", false);
    assert_eq!(do_exit(&mut state, &vec!["exit"]), Status::success());
    assert!(!state.running);
    assert_eq!(do_exit(&mut state, &vec!["exit", "soon"]), Status::success());
    assert_eq!(do_exit(&mut state, &vec!["exit", "-2", "9"]), Status::from_code(-2));
    assert_eq!(do_exit(&mut state, &vec!["exit", "99999999999"]), Status::success());
}

#[test]
fn name_shows_or_changes_the_name() {
    let builtins = Builtins::new();
    let mut state = State::new(&builtins, "frish", false);
    assert_eq!(do_name(&mut state, &vec!["name"]), Some(String::from("frish")));
    assert_eq!(state.name, "frish");
    assert_eq!(do_name(&mut state, &vec!["name", "other", "more"]), None);
    assert_eq!(state.name, "other");
    assert_eq!(do_name(&mut state, &vec!["name"]), Some(String::from("other")));
}

#[test]
fn subshell_takes_one_command_or_reads_its_own() {
    let builtins = Builtins::new();
    let state = State::new(&builtins, "frish", true);
    let subshell = do_subshell(&state, &vec!["subshell", "name inner", "ignored"]);
    assert_eq!(subshell.command, Some("name inner"));
    assert_eq!(subshell.child.depth, 1);
    assert_eq!(subshell.child.name, "frish");
    let subshell = do_subshell(&state, &vec!["subshell"]);
    assert_eq!(subshell.command, None);
    assert_eq!(subshell.child.depth, 1);
    assert!(subshell.child.running);
}
