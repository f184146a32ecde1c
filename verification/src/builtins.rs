//! The builtin commands: what each is called, and the table in which a
//! command's name is looked up.

use vstd::prelude::*;
use crate::text::same_text;

verus! {

/// What a builtin does. The handlers themselves live with whoever drives
/// the engine: they all take the session state and the arguments, of
/// which the first is the command's name, and give a status or a system
/// error.
#[derive(Clone, Copy, Debug, PartialEq, Eq, Structural, Hash)]
pub enum Handler {
    /// Lists the builtins with their hints.
    Help,
    /// Prints the session's name, or changes it.
    Name,
    /// Prints the logging level, or changes it.
    Loglevel,
    /// Prints its arguments.
    Print,
    /// Prints its arguments and a newline.
    Echo,
    /// Changes the working directory.
    DirChange,
    /// Prints the working directory.
    DirWhere,
    /// Makes directories.
    DirMake,
    /// Removes directories.
    DirRemove,
    /// Lists a directory.
    DirList,
    /// Lists a directory with the size of each entry.
    DirInspect,
    /// Makes a hard link.
    LinkHard,
    /// Makes a symbolic link.
    LinkSoft,
    /// Prints the targets of symbolic links.
    LinkRead,
    /// Unlinks files.
    Unlink,
    /// Renames a file.
    Rename,
    /// Copies a file.
    Cpcat,
    /// Prints the process id of the shell.
    Pid,
    /// Prints the process id of the shell's parent.
    Ppid,
    /// Prints the status of the last command.
    Status,
    /// Ends the session.
    Exit,
    /// Prints the depth of the session.
    Depth,
    /// Runs a nested session.
    Subshell,
    /// Runs a pipeline.
    Pipes,
}

impl Handler {
    /// The name under which the builtin is registered.
    pub open spec fn name(self) -> Seq<char> {
        match self {
            Handler::Help => "help"@,
            Handler::Name => "name"@,
            Handler::Loglevel => "loglevel"@,
            Handler::Print => "print"@,
            Handler::Echo => "echo"@,
            Handler::DirChange => "dir.change"@,
            Handler::DirWhere => "dir.where"@,
            Handler::DirMake => "dir.make"@,
            Handler::DirRemove => "dir.remove"@,
            Handler::DirList => "dir.list"@,
            Handler::DirInspect => "dir.inspect"@,
            Handler::LinkHard => "link.hard"@,
            Handler::LinkSoft => "link.soft"@,
            Handler::LinkRead => "link.read"@,
            Handler::Unlink => "unlink"@,
            Handler::Rename => "rename"@,
            Handler::Cpcat => "cpcat"@,
            Handler::Pid => "pid"@,
            Handler::Ppid => "ppid"@,
            Handler::Status => "status"@,
            Handler::Exit => "exit"@,
            Handler::Depth => "depth"@,
            Handler::Subshell => "subshell"@,
            Handler::Pipes => "pipes"@,
        }
    }

    /// The builtin's help text.
    pub open spec fn help(self) -> Seq<char> {
        match self {
            Handler::Help => "Print short help for all builtin commands"@,
            Handler::Name => "Print or change the shell name"@,
            Handler::Loglevel => "Print or change logging level"@,
            Handler::Print => "Print its arguments"@,
            Handler::Echo => "Print its arguments and the newline"@,
            Handler::DirChange => "Change the current directory"@,
            Handler::DirWhere => "Print current working directory"@,
            Handler::DirMake => "Make directories"@,
            Handler::DirRemove => "Remove directories"@,
            Handler::DirList => "List directory"@,
            Handler::DirInspect => "Inspect directory"@,
            Handler::LinkHard => "Create hard link"@,
            Handler::LinkSoft => "Create symbolic/soft link"@,
            Handler::LinkRead => "Print symbolic link target"@,
            Handler::Unlink => "Unlink files"@,
            Handler::Rename => "Rename file"@,
            Handler::Cpcat => "Copy file"@,
            Handler::Pid => "Print PID of the current shell"@,
            Handler::Ppid => "Print PPID of the current shell"@,
            Handler::Status => "Print status of the last command"@,
            Handler::Exit => "Exit from the current shell"@,
            Handler::Depth => "Print the depth of the current subshell"@,
            Handler::Subshell => "Run a subshell with a command"@,
            Handler::Pipes => "Create a pipeline"@,
        }
    }

    /// The place of the builtin in the table.
    pub open spec fn index(self) -> int {
        match self {
            Handler::Help => 0,
            Handler::Name => 1,
            Handler::Loglevel => 2,
            Handler::Print => 3,
            Handler::Echo => 4,
            Handler::DirChange => 5,
            Handler::DirWhere => 6,
            Handler::DirMake => 7,
            Handler::DirRemove => 8,
            Handler::DirList => 9,
            Handler::DirInspect => 10,
            Handler::LinkHard => 11,
            Handler::LinkSoft => 12,
            Handler::LinkRead => 13,
            Handler::Unlink => 14,
            Handler::Rename => 15,
            Handler::Cpcat => 16,
            Handler::Pid => 17,
            Handler::Ppid => 18,
            Handler::Status => 19,
            Handler::Exit => 20,
            Handler::Depth => 21,
            Handler::Subshell => 22,
            Handler::Pipes => 23,
        }
    }

    /// The name under which the builtin is registered.
    pub fn command(&self) -> (command: &'static str)
        ensures
            command@ == self.name(),
    {
        match self {
            Handler::Help => "help",
            Handler::Name => "name",
            Handler::Loglevel => "loglevel",
            Handler::Print => "print",
            Handler::Echo => "echo",
            Handler::DirChange => "dir.change",
            Handler::DirWhere => "dir.where",
            Handler::DirMake => "dir.make",
            Handler::DirRemove => "dir.remove",
            Handler::DirList => "dir.list",
            Handler::DirInspect => "dir.inspect",
            Handler::LinkHard => "link.hard",
            Handler::LinkSoft => "link.soft",
            Handler::LinkRead => "link.read",
            Handler::Unlink => "unlink",
            Handler::Rename => "rename",
            Handler::Cpcat => "cpcat",
            Handler::Pid => "pid",
            Handler::Ppid => "ppid",
            Handler::Status => "status",
            Handler::Exit => "exit",
            Handler::Depth => "depth",
            Handler::Subshell => "subshell",
            Handler::Pipes => "pipes",
        }
    }

    /// The builtin's help text.
    pub fn hint(&self) -> (hint: &'static str)
        ensures
            hint@ == self.help(),
    {
        match self {
            Handler::Help => "Print short help for all builtin commands",
            Handler::Name => "Print or change the shell name",
            Handler::Loglevel => "Print or change logging level",
            Handler::Print => "Print its arguments",
            Handler::Echo => "Print its arguments and the newline",
            Handler::DirChange => "Change the current directory",
            Handler::DirWhere => "Print current working directory",
            Handler::DirMake => "Make directories",
            Handler::DirRemove => "Remove directories",
            Handler::DirList => "List directory",
            Handler::DirInspect => "Inspect directory",
            Handler::LinkHard => "Create hard link",
            Handler::LinkSoft => "Create symbolic/soft link",
            Handler::LinkRead => "Print symbolic link target",
            Handler::Unlink => "Unlink files",
            Handler::Rename => "Rename file",
            Handler::Cpcat => "Copy file",
            Handler::Pid => "Print PID of the current shell",
            Handler::Ppid => "Print PPID of the current shell",
            Handler::Status => "Print status of the last command",
            Handler::Exit => "Exit from the current shell",
            Handler::Depth => "Print the depth of the current subshell",
            Handler::Subshell => "Run a subshell with a command",
            Handler::Pipes => "Create a pipeline",
        }
    }
}

/// The handlers in the order of the table.
pub open spec fn handlers() -> Seq<Handler> {
    seq![
        Handler::Help,
        Handler::Name,
        Handler::Loglevel,
        Handler::Print,
        Handler::Echo,
        Handler::DirChange,
        Handler::DirWhere,
        Handler::DirMake,
        Handler::DirRemove,
        Handler::DirList,
        Handler::DirInspect,
        Handler::LinkHard,
        Handler::LinkSoft,
        Handler::LinkRead,
        Handler::Unlink,
        Handler::Rename,
        Handler::Cpcat,
        Handler::Pid,
        Handler::Ppid,
        Handler::Status,
        Handler::Exit,
        Handler::Depth,
        Handler::Subshell,
        Handler::Pipes,
    ]
}

/// Every handler stands in the table, at its index.
pub proof fn lemma_handlers_complete(handler: Handler)
    ensures
        0 <= handler.index() < handlers().len(),
        handlers()[handler.index()] == handler,
        handlers().len() == 24,
{
}

/// No two builtins share a name.
pub proof fn lemma_names_differ(a: Handler, b: Handler)
    requires
        a != b,
    ensures
        a.name() != b.name(),
{
    reveal_strlit("help");
    reveal_strlit("name");
    reveal_strlit("loglevel");
    reveal_strlit("print");
    reveal_strlit("echo");
    reveal_strlit("dir.change");
    reveal_strlit("dir.where");
    reveal_strlit("dir.make");
    reveal_strlit("dir.remove");
    reveal_strlit("dir.list");
    reveal_strlit("dir.inspect");
    reveal_strlit("link.hard");
    reveal_strlit("link.soft");
    reveal_strlit("link.read");
    reveal_strlit("unlink");
    reveal_strlit("rename");
    reveal_strlit("cpcat");
    reveal_strlit("pid");
    reveal_strlit("ppid");
    reveal_strlit("status");
    reveal_strlit("exit");
    reveal_strlit("depth");
    reveal_strlit("subshell");
    reveal_strlit("pipes");
    let x = a.name();
    let y = b.name();
    assert(x.len() != y.len() || (x.len() > 3 && x[3] != y[3]) || (x.len() > 5 && x[5] != y[5]));
}

/// A builtin command: its name, what it does, and its help text.
#[derive(Clone, Copy, Debug)]
pub struct Builtin<'a> {
    pub command: &'a str,
    pub handler: Handler,
    pub hint: &'a str,
}

impl<'a> Builtin<'a> {
    /// The builtin `command` with the given handler and help text.
    pub fn new(command: &'a str, handler: Handler, hint: &'a str) -> (builtin: Self)
        ensures
            builtin.command == command,
            builtin.handler == handler,
            builtin.hint == hint,
    {
        Builtin { command, handler, hint }
    }

    /// Whether the builtin goes by its handler's name and help text.
    pub open spec fn standard(&self) -> bool {
        self.command@ == self.handler.name() && self.hint@ == self.handler.help()
    }
}

/// The builtin of `handler`, under its own name.
fn builtin(handler: Handler) -> (builtin: Builtin<'static>)
    ensures
        builtin.handler == handler,
        builtin.standard(),
{
    Builtin::new(handler.command(), handler, handler.hint())
}

/// Whether `items` is the table of the builtins: each handler once, in the
/// order of `handlers`, under its own name.
pub open spec fn is_default_table(items: Seq<Builtin>) -> bool {
    &&& items.len() == handlers().len()
    &&& forall|i: int|
        0 <= i < items.len() ==> (#[trigger] items[i]).handler == handlers()[i]
            && items[i].standard()
}

/// The table of the builtins.
pub fn default_builtins() -> (items: Vec<Builtin<'static>>)
    ensures
        is_default_table(items@),
{
    let items = vec![
        builtin(Handler::Help),
        builtin(Handler::Name),
        builtin(Handler::Loglevel),
        builtin(Handler::Print),
        builtin(Handler::Echo),
        builtin(Handler::DirChange),
        builtin(Handler::DirWhere),
        builtin(Handler::DirMake),
        builtin(Handler::DirRemove),
        builtin(Handler::DirList),
        builtin(Handler::DirInspect),
        builtin(Handler::LinkHard),
        builtin(Handler::LinkSoft),
        builtin(Handler::LinkRead),
        builtin(Handler::Unlink),
        builtin(Handler::Rename),
        builtin(Handler::Cpcat),
        builtin(Handler::Pid),
        builtin(Handler::Ppid),
        builtin(Handler::Status),
        builtin(Handler::Exit),
        builtin(Handler::Depth),
        builtin(Handler::Subshell),
        builtin(Handler::Pipes),
    ];
    assert(items@.len() == 24);
    items
}

/// The registry of the builtins: built once, never changed, and looked up
/// by name.
#[derive(Debug)]
pub struct Builtins<'a> {
    items: Vec<Builtin<'a>>,
}

impl<'a> View for Builtins<'a> {
    type V = Seq<Builtin<'a>>;

    closed spec fn view(&self) -> Seq<Builtin<'a>> {
        self.items@
    }
}

impl<'a> Builtins<'a> {
    #[verifier::type_invariant]
    spec fn inv(&self) -> bool {
        is_default_table(self.items@)
    }

    /// The registry of all builtins.
    pub fn new() -> (builtins: Self)
        ensures
            is_default_table(builtins@),
    {
        Builtins { items: default_builtins() }
    }

    /// The builtins, in the order of the table.
    pub fn items(&self) -> (items: &Vec<Builtin<'a>>)
        ensures
            items@ == self@,
            is_default_table(items@),
    {
        proof {
            use_type_invariant(self);
        }
        &self.items
    }

    /// The builtin that goes by `name`, if there is one. No two have the
    /// same name, so there is at most one.
    pub fn find(&self, name: &str) -> (found: Option<&Builtin<'a>>)
        ensures
            is_default_table(self@),
            match found {
                Some(builtin) => builtin.handler.name() == name@ && builtin.standard()
                    && self@.contains(*builtin),
                None => forall|handler: Handler| handler.name() != name@,
            },
    {
        proof {
            use_type_invariant(self);
        }
        let mut i: usize = 0;
        while i < self.items.len()
            invariant
                i <= self.items@.len(),
                is_default_table(self.items@),
                forall|j: int| 0 <= j < i ==> self.items@[j].handler.name() != name@,
            decreases self.items@.len() - i,
        {
            if same_text(self.items[i].command, name) {
                return Some(&self.items[i]);
            }
            i += 1;
        }
        assert forall|handler: Handler| handler.name() != name@ by {
            lemma_handlers_complete(handler);
            assert(self.items@[handler.index()].handler == handler);
        }
        None
    }
}

} // verus!
