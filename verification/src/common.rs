//! The structured form of one command line.

use vstd::prelude::*;

verus! {

/// What a `Command` holds, as plain text.
pub ghost struct CommandView {
    pub args: Seq<Seq<char>>,
    pub background: bool,
    pub inredirect: Option<Seq<char>>,
    pub outredirect: Option<Seq<char>>,
}

/// One invocation: the argument tokens, of which the first names the
/// program or builtin, whether it runs in the background, and the paths that
/// standard input and standard output are redirected to, if any.
pub struct Command<'a> {
    pub args: Vec<&'a str>,
    pub background: bool,
    pub inredirect: Option<&'a str>,
    pub outredirect: Option<&'a str>,
}

/// The text of an optional string slice.
pub open spec fn text_of(s: Option<&str>) -> Option<Seq<char>> {
    match s {
        Some(s) => Some(s@),
        None => None,
    }
}

impl<'a> View for Command<'a> {
    type V = CommandView;

    open spec fn view(&self) -> CommandView {
        CommandView {
            args: self.args.deep_view(),
            background: self.background,
            inredirect: text_of(self.inredirect),
            outredirect: text_of(self.outredirect),
        }
    }
}

impl<'a> Command<'a> {
    /// A command names what it runs: it has at least one argument.
    pub open spec fn wf(&self) -> bool {
        self.args@.len() > 0
    }
}

} // verus!
