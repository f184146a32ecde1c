//! Redirection of the standard streams: putting a file in the place of a
//! stream while a command runs, and putting the stream back.

use vstd::prelude::*;
use crate::common::Command;
use crate::fds::{effect, fresh, has_streams, Table, Target};
use crate::sys::{answers, Call, Machine, Progress, Reply, Stream};
use crate::trace::{plausible, run, run_table};

verus! {

/// How a redirect target is opened.
#[derive(Clone, Copy, Debug, PartialEq, Eq)]
pub struct OpenHow {
    /// Whether the file is opened for reading, and not for writing.
    pub read: bool,
    /// Whether the file is created where it is missing.
    pub create: bool,
    /// Whether the file is cut to length zero.
    pub truncate: bool,
    /// The permission bits of a file that is created.
    pub mode: u32,
}

/// How the redirect target of `stream` is opened: the input target for
/// reading only; the output target for writing only, created where it is
/// missing, for its owner to read and write, and cut to length zero.
pub fn open_how(stream: Stream) -> (how: OpenHow)
    ensures
        how == match stream {
            Stream::Stdin => OpenHow { read: true, create: false, truncate: false, mode: 0 },
            Stream::Stdout => OpenHow { read: false, create: true, truncate: true, mode: 0o600 },
        },
{
    match stream {
        Stream::Stdin => OpenHow { read: true, create: false, truncate: false, mode: 0 },
        Stream::Stdout => OpenHow { read: false, create: true, truncate: true, mode: 0o600 },
    }
}

/// The redirect target that `cmd` names for `stream`, if it names one.
pub fn target<'a>(cmd: &Command<'a>, stream: Stream) -> (path: Option<&'a str>)
    ensures
        path == match stream {
            Stream::Stdin => cmd.inredirect,
            Stream::Stdout => cmd.outredirect,
        },
{
    match stream {
        Stream::Stdin => cmd.inredirect,
        Stream::Stdout => cmd.outredirect,
    }
}

/// A redirection under way. `fd` is the descriptor of the opened target,
/// `saved` the duplicate that keeps the stream's former target.
#[derive(Clone, Copy, Debug, PartialEq, Eq)]
pub enum Redirect {
    /// The target is to be opened.
    Open { stream: Stream },
    /// The stream is to be duplicated.
    Save { stream: Stream, fd: i32 },
    /// The target is to be put in the stream's place.
    Swap { stream: Stream, fd: i32, saved: i32 },
    /// The target's own descriptor is to be closed.
    Close { stream: Stream, fd: i32, saved: i32 },
}

/// The table after `stream` was redirected from `table` with the result
/// `saved`: where there is a duplicate, it refers to what the stream
/// referred to, and the stream refers to the opened target.
pub open spec fn redirected(table: Table, stream: Stream, saved: Option<i32>) -> Table {
    match saved {
        Some(saved) => table.insert(saved, table[stream.slot()]).insert(
            stream.slot(),
            Target::Opened { stream },
        ),
        None => table,
    }
}

/// The table after `stream` was put back from the duplicate `saved`: the
/// stream refers to what the duplicate referred to, and the duplicate is
/// closed.
pub open spec fn restored(table: Table, stream: Stream, saved: Option<i32>) -> Table {
    match saved {
        Some(saved) => table.insert(stream.slot(), table[saved]).remove(saved),
        None => table,
    }
}

/// Putting a stream back undoes its redirection.
pub proof fn lemma_restore_undoes_redirect(table: Table, stream: Stream, saved: Option<i32>)
    requires
        table.dom().contains(stream.slot()),
        saved matches Some(fd) ==> !table.dom().contains(fd),
    ensures
        restored(redirected(table, stream, saved), stream, saved) == table,
{
    assert(restored(redirected(table, stream, saved), stream, saved) =~= table);
}

impl Redirect {
    /// A redirection of `stream` at its start: nothing to do, with the
    /// result `Ok(None)`, where no target is given.
    pub open spec fn start(stream: Stream, wanted: bool) -> Progress<
        Redirect,
        Result<Option<i32>, i32>,
    > {
        if wanted {
            Progress::Busy(Redirect::Open { stream })
        } else {
            Progress::Done(Ok(None))
        }
    }

    /// The stream that is redirected.
    pub open spec fn stream(self) -> Stream {
        match self {
            Redirect::Open { stream } => stream,
            Redirect::Save { stream, .. } => stream,
            Redirect::Swap { stream, .. } => stream,
            Redirect::Close { stream, .. } => stream,
        }
    }

    /// Whether the redirection can stand where it stands, having started
    /// on `start`: the stream is open, and the descriptors that the
    /// redirection has got were new, and are not the stream.
    pub open spec fn valid(self, start: Table) -> bool {
        &&& start.dom().contains(self.stream().slot())
        &&& match self {
            Redirect::Open { .. } => true,
            Redirect::Save { fd, .. } => !start.dom().contains(fd),
            Redirect::Swap { fd, saved, .. } | Redirect::Close { fd, saved, .. } => {
                &&& !start.dom().contains(fd)
                &&& !start.dom().contains(saved)
                &&& fd != saved
            },
        }
    }

    /// The table while the redirection waits, having started on `start`.
    pub open spec fn table(self, start: Table) -> Table {
        match self {
            Redirect::Open { .. } => start,
            Redirect::Save { stream, fd } => start.insert(fd, Target::Opened { stream }),
            Redirect::Swap { stream, fd, saved } => start.insert(
                fd,
                Target::Opened { stream },
            ).insert(saved, start[stream.slot()]),
            Redirect::Close { stream, fd, saved } => redirected(start, stream, Some(saved)).insert(
                fd,
                Target::Opened { stream },
            ),
        }
    }

    /// Each reply takes the table where `table` and `redirected` say: a
    /// redirection that fails leaves the table as it found it, and one that
    /// succeeds leaves only the stream and its duplicate changed.
    pub proof fn lemma_step(self, start: Table, reply: Reply)
        requires
            self.valid(start),
            answers(self.pending(), reply),
            fresh(self.table(start), reply),
        ensures
            match self.after(reply) {
                Progress::Busy(next) => next.valid(start) && next.stream() == self.stream()
                    && next.table(start) == effect(self.table(start), self.pending(), reply),
                Progress::Done(Ok(saved)) => redirected(start, self.stream(), saved) == effect(
                    self.table(start),
                    self.pending(),
                    reply,
                ) && saved is Some && !start.dom().contains(saved->0),
                Progress::Done(Err(_)) => start == effect(
                    self.table(start),
                    self.pending(),
                    reply,
                ),
            },
    {
        let now = effect(self.table(start), self.pending(), reply);
        match self.after(reply) {
            Progress::Busy(next) => {
                assert(next.table(start) =~= now);
            },
            Progress::Done(Ok(saved)) => {
                assert(redirected(start, self.stream(), saved) =~= now);
            },
            Progress::Done(Err(_)) => {
                assert(start =~= now);
            },
        }
    }

}

impl Machine for Redirect {
    type Output = Result<Option<i32>, i32>;

    /// The call that the redirection waits for.
    open spec fn pending(&self) -> Call {
        match *self {
            Redirect::Open { stream } => Call::Open { stream },
            Redirect::Save { stream, .. } => Call::Dup { fd: stream.slot() },
            Redirect::Swap { stream, fd, .. } => Call::Dup2 { from: fd, to: stream.slot() },
            Redirect::Close { fd, .. } => Call::Close { fd },
        }
    }

    /// The redirection after `reply`. Where the target cannot be opened the
    /// result is the error, and nothing has changed. Else the stream is
    /// duplicated, the target takes its place and the target's own
    /// descriptor is closed; the result is the duplicate. A reply that does
    /// not answer the pending call changes nothing.
    open spec fn after(&self, reply: Reply) -> Progress<Redirect, Result<Option<i32>, i32>> {
        match (*self, reply) {
            (Redirect::Open { stream }, Reply::Fd { fd }) => Progress::Busy(
                Redirect::Save { stream, fd },
            ),
            (Redirect::Open { .. }, Reply::Failed { errno }) => Progress::Done(Err(errno)),
            (Redirect::Save { stream, fd }, Reply::Fd { fd: saved }) => Progress::Busy(
                Redirect::Swap { stream, fd, saved },
            ),
            (Redirect::Swap { stream, fd, saved }, Reply::Done) => Progress::Busy(
                Redirect::Close { stream, fd, saved },
            ),
            (Redirect::Close { saved, .. }, Reply::Done) => Progress::Done(Ok(Some(saved))),
            _ => Progress::Busy(*self),
        }
    }

    /// The call to make now.
    fn call(&self) -> (call: Call)
        ensures
            call == self.pending(),
    {
        match *self {
            Redirect::Open { stream } => Call::Open { stream },
            Redirect::Save { stream, .. } => Call::Dup { fd: stream.fd() },
            Redirect::Swap { stream, fd, .. } => Call::Dup2 { from: fd, to: stream.fd() },
            Redirect::Close { fd, .. } => Call::Close { fd },
        }
    }

    /// Takes the reply to the pending call.
    fn resume(self, reply: Reply) -> (next: Progress<Redirect, Result<Option<i32>, i32>>)
        ensures
            next == self.after(reply),
    {
        match self {
            Redirect::Open { stream } => match reply {
                Reply::Fd { fd } => Progress::Busy(Redirect::Save { stream, fd }),
                Reply::Failed { errno } => Progress::Done(Err(errno)),
                _ => Progress::Busy(self),
            },
            Redirect::Save { stream, fd } => match reply {
                Reply::Fd { fd: saved } => Progress::Busy(Redirect::Swap { stream, fd, saved }),
                _ => Progress::Busy(self),
            },
            Redirect::Swap { stream, fd, saved } => match reply {
                Reply::Done => Progress::Busy(Redirect::Close { stream, fd, saved }),
                _ => Progress::Busy(self),
            },
            Redirect::Close { saved, .. } => match reply {
                Reply::Done => Progress::Done(Ok(Some(saved))),
                _ => Progress::Busy(self),
            },
        }
    }
}

/// Starts to redirect standard input to `infile`, if one is given.
pub fn redirect_stdin(infile: Option<&str>) -> (start: Progress<Redirect, Result<Option<i32>, i32>>)
    ensures
        start == Redirect::start(Stream::Stdin, infile is Some),
{
    match infile {
        Some(_) => Progress::Busy(Redirect::Open { stream: Stream::Stdin }),
        None => Progress::Done(Ok(None)),
    }
}

/// Starts to redirect standard output to `outfile`, if one is given.
pub fn redirect_stdout(outfile: Option<&str>) -> (start: Progress<
    Redirect,
    Result<Option<i32>, i32>,
>)
    ensures
        start == Redirect::start(Stream::Stdout, outfile is Some),
{
    match outfile {
        Some(_) => Progress::Busy(Redirect::Open { stream: Stream::Stdout }),
        None => Progress::Done(Ok(None)),
    }
}

/// A stream on its way back to its former target, which `saved` keeps.
#[derive(Clone, Copy, Debug, PartialEq, Eq)]
pub enum Restore {
    /// The former target is to be put back.
    Swap { stream: Stream, saved: i32 },
    /// The duplicate is to be closed.
    Close { stream: Stream, saved: i32 },
}

impl Restore {
    /// The way back of `stream` at its start: nothing to do where nothing
    /// was saved.
    pub open spec fn start(stream: Stream, fdold: Option<i32>) -> Progress<Restore, ()> {
        match fdold {
            Some(saved) => Progress::Busy(Restore::Swap { stream, saved }),
            None => Progress::Done(()),
        }
    }

    /// Whether the way back can stand where it stands, having started on
    /// `start`: the duplicate is open, and is not a standard stream.
    pub open spec fn valid(self, start: Table) -> bool {
        match self {
            Restore::Swap { stream, saved } => start.dom().contains(saved) && saved
                != stream.slot(),
            Restore::Close { stream, saved } => start.dom().contains(saved) && saved
                != stream.slot(),
        }
    }

    /// The stream that is put back.
    pub open spec fn stream(self) -> Stream {
        match self {
            Restore::Swap { stream, .. } => stream,
            Restore::Close { stream, .. } => stream,
        }
    }

    /// The duplicate that keeps the former target.
    pub open spec fn saved(self) -> i32 {
        match self {
            Restore::Swap { saved, .. } => saved,
            Restore::Close { saved, .. } => saved,
        }
    }

    /// The table while the way back waits, having started on `start`.
    pub open spec fn table(self, start: Table) -> Table {
        match self {
            Restore::Swap { .. } => start,
            Restore::Close { stream, saved } => start.insert(stream.slot(), start[saved]),
        }
    }

    /// Each reply takes the table where `table` and `restored` say.
    pub proof fn lemma_step(self, start: Table, reply: Reply)
        requires
            self.valid(start),
            answers(self.pending(), reply),
        ensures
            match self.after(reply) {
                Progress::Busy(next) => next.valid(start) && next.stream() == self.stream()
                    && next.saved() == self.saved() && next.table(start) == effect(
                    self.table(start),
                    self.pending(),
                    reply,
                ),
                Progress::Done(_) => restored(start, self.stream(), Some(self.saved())) == effect(
                    self.table(start),
                    self.pending(),
                    reply,
                ),
            },
    {
        let now = effect(self.table(start), self.pending(), reply);
        match self.after(reply) {
            Progress::Busy(next) => {
                assert(next.table(start) =~= now);
            },
            Progress::Done(_) => {
                assert(restored(start, self.stream(), Some(self.saved())) =~= now);
            },
        }
    }

}

impl Machine for Restore {
    type Output = ();

    /// The call that the way back waits for.
    open spec fn pending(&self) -> Call {
        match *self {
            Restore::Swap { stream, saved } => Call::Dup2 { from: saved, to: stream.slot() },
            Restore::Close { saved, .. } => Call::Close { fd: saved },
        }
    }

    /// The way back after `reply`: the former target is put back, then the
    /// duplicate is closed. A reply that does not answer the pending call
    /// changes nothing.
    open spec fn after(&self, reply: Reply) -> Progress<Restore, ()> {
        match (*self, reply) {
            (Restore::Swap { stream, saved }, Reply::Done) => Progress::Busy(
                Restore::Close { stream, saved },
            ),
            (Restore::Close { .. }, Reply::Done) => Progress::Done(()),
            _ => Progress::Busy(*self),
        }
    }

    /// The call to make now.
    fn call(&self) -> (call: Call)
        ensures
            call == self.pending(),
    {
        match *self {
            Restore::Swap { stream, saved } => Call::Dup2 { from: saved, to: stream.fd() },
            Restore::Close { saved, .. } => Call::Close { fd: saved },
        }
    }

    /// Takes the reply to the pending call.
    fn resume(self, reply: Reply) -> (next: Progress<Restore, ()>)
        ensures
            next == self.after(reply),
    {
        match reply {
            Reply::Done => match self {
                Restore::Swap { stream, saved } => Progress::Busy(Restore::Close { stream, saved }),
                Restore::Close { .. } => Progress::Done(()),
            },
            _ => Progress::Busy(self),
        }
    }
}

/// Starts to put standard input back from the duplicate `fdold`, if there
/// is one.
pub fn restore_stdin(fdold: Option<i32>) -> (start: Progress<Restore, ()>)
    ensures
        start == Restore::start(Stream::Stdin, fdold),
{
    match fdold {
        Some(saved) => Progress::Busy(Restore::Swap { stream: Stream::Stdin, saved }),
        None => Progress::Done(()),
    }
}

/// Starts to put standard output back from the duplicate `fdold`, if there
/// is one.
pub fn restore_stdout(fdold: Option<i32>) -> (start: Progress<Restore, ()>)
    ensures
        start == Restore::start(Stream::Stdout, fdold),
{
    match fdold {
        Some(saved) => Progress::Busy(Restore::Swap { stream: Stream::Stdout, saved }),
        None => Progress::Done(()),
    }
}

/// The duplicates that keep the former targets of the redirected streams.
#[derive(Clone, Copy, Debug, PartialEq, Eq)]
pub struct Saved {
    pub stdin: Option<i32>,
    pub stdout: Option<i32>,
}

/// The table after both streams were redirected from `table` with the
/// result `saved`.
pub open spec fn applied(table: Table, saved: Saved) -> Table {
    redirected(redirected(table, Stream::Stdin, saved.stdin), Stream::Stdout, saved.stdout)
}

/// The table after both streams were put back from `saved`.
pub open spec fn released(table: Table, saved: Saved) -> Table {
    restored(restored(table, Stream::Stdin, saved.stdin), Stream::Stdout, saved.stdout)
}

/// Whether `saved` can come from redirecting the streams of `table`: its
/// descriptors are not in `table`, and are two where both are there.
pub open spec fn saves(table: Table, saved: Saved) -> bool {
    &&& has_streams(table)
    &&& saved.stdin matches Some(fd) ==> !table.dom().contains(fd)
    &&& saved.stdout matches Some(fd) ==> !table.dom().contains(fd) && saved.stdin != Some(fd)
}

/// Whether `table` holds the duplicates in `saved`: they are open, are two
/// where both are there, and none is a standard stream.
pub open spec fn holds(table: Table, saved: Saved) -> bool {
    &&& saved.stdin matches Some(fd) ==> table.dom().contains(fd) && fd != 0 && fd != 1
    &&& saved.stdout matches Some(fd) ==> table.dom().contains(fd) && fd != 0 && fd != 1
        && saved.stdin != Some(fd)
}

/// Releasing what was applied puts both streams back where they were, and
/// leaves no duplicate open.
pub proof fn lemma_release_undoes_apply(table: Table, saved: Saved)
    requires
        saves(table, saved),
    ensures
        holds(applied(table, saved), saved),
        has_streams(applied(table, saved)),
        released(applied(table, saved), saved) == table,
{
    assert(released(applied(table, saved), saved) =~= table);
}

/// The redirection of both streams under way: standard input first, then
/// standard output, each where the command names a target.
#[derive(Clone, Copy, Debug, PartialEq, Eq)]
pub enum Apply {
    /// Standard input is being redirected; `then` says whether standard
    /// output will be.
    Stdin { input: Redirect, then: bool },
    /// Standard output is being redirected; `stdin` keeps the former
    /// standard input.
    Stdout { stdin: Option<i32>, output: Redirect },
    /// The output target could not be opened, with the error `errno`, and
    /// standard input is being put back.
    Undo { undo: Restore, errno: i32 },
}

impl Apply {
    /// Goes on to standard output once standard input is done; an error
    /// ends the redirection.
    pub open spec fn from_stdin(
        input: Progress<Redirect, Result<Option<i32>, i32>>,
        output: bool,
    ) -> Progress<Apply, Result<Saved, i32>> {
        match input {
            Progress::Busy(input) => Progress::Busy(Apply::Stdin { input, then: output }),
            Progress::Done(Ok(stdin)) => Apply::from_stdout(
                stdin,
                Redirect::start(Stream::Stdout, output),
            ),
            Progress::Done(Err(errno)) => Progress::Done(Err(errno)),
        }
    }

    /// Ends with both duplicates once standard output is done; on an error
    /// standard input is put back first.
    pub open spec fn from_stdout(
        stdin: Option<i32>,
        output: Progress<Redirect, Result<Option<i32>, i32>>,
    ) -> Progress<Apply, Result<Saved, i32>> {
        match output {
            Progress::Busy(output) => Progress::Busy(Apply::Stdout { stdin, output }),
            Progress::Done(Ok(stdout)) => Progress::Done(Ok(Saved { stdin, stdout })),
            Progress::Done(Err(errno)) => Apply::from_undo(
                Restore::start(Stream::Stdin, stdin),
                errno,
            ),
        }
    }

    /// Ends with the error once standard input is back.
    pub open spec fn from_undo(undo: Progress<Restore, ()>, errno: i32) -> Progress<
        Apply,
        Result<Saved, i32>,
    > {
        match undo {
            Progress::Busy(undo) => Progress::Busy(Apply::Undo { undo, errno }),
            Progress::Done(_) => Progress::Done(Err(errno)),
        }
    }

    /// The redirection of both streams at its start; `input` and `output`
    /// say whether the command names a target for each.
    pub open spec fn start(input: bool, output: bool) -> Progress<Apply, Result<Saved, i32>> {
        Apply::from_stdin(Redirect::start(Stream::Stdin, input), output)
    }

    /// Whether the redirection can stand where it stands, having started
    /// on `start`.
    pub open spec fn valid(self, start: Table) -> bool {
        &&& has_streams(start)
        &&& match self {
            Apply::Stdin { input, .. } => input.stream() == Stream::Stdin && input.valid(start),
            Apply::Stdout { stdin, output } => {
                &&& output.stream() == Stream::Stdout
                &&& stdin matches Some(fd) ==> !start.dom().contains(fd)
                &&& output.valid(redirected(start, Stream::Stdin, stdin))
            },
            Apply::Undo { undo, .. } => undo.stream() == Stream::Stdin && !start.dom().contains(
                undo.saved(),
            ),
        }
    }

    /// The table while the redirection waits, having started on `start`.
    pub open spec fn table(self, start: Table) -> Table {
        match self {
            Apply::Stdin { input, .. } => input.table(start),
            Apply::Stdout { stdin, output } => output.table(
                redirected(start, Stream::Stdin, stdin),
            ),
            Apply::Undo { undo, .. } => undo.table(
                redirected(start, Stream::Stdin, Some(undo.saved())),
            ),
        }
    }

    /// At its start the redirection has changed nothing.
    pub proof fn lemma_start(input: bool, output: bool, start: Table)
        requires
            has_streams(start),
        ensures
            match Apply::start(input, output) {
                Progress::Busy(first) => first.valid(start) && first.table(start) == start,
                Progress::Done(Ok(saved)) => saved == (Saved { stdin: None, stdout: None }),
                Progress::Done(Err(_)) => false,
            },
    {
    }

    /// Each reply takes the table where `table` and `applied` say. When the
    /// redirection ends with an error, the table is as it was at the start:
    /// where the output target cannot be opened, standard input is back in
    /// its place and its duplicate is closed.
    pub proof fn lemma_step(self, start: Table, reply: Reply)
        requires
            self.valid(start),
            answers(self.pending(), reply),
            fresh(self.table(start), reply),
        ensures
            match self.after(reply) {
                Progress::Busy(next) => next.valid(start) && next.table(start) == effect(
                    self.table(start),
                    self.pending(),
                    reply,
                ),
                Progress::Done(Ok(saved)) => saves(start, saved) && applied(start, saved)
                    == effect(self.table(start), self.pending(), reply),
                Progress::Done(Err(_)) => start == effect(
                    self.table(start),
                    self.pending(),
                    reply,
                ),
            },
    {
        match self {
            Apply::Stdin { input, .. } => {
                input.lemma_step(start, reply);
            },
            Apply::Stdout { stdin, output } => {
                let base = redirected(start, Stream::Stdin, stdin);
                output.lemma_step(base, reply);
                if let Progress::Done(Err(_)) = output.after(reply) {
                    lemma_restore_undoes_redirect(start, Stream::Stdin, stdin);
                }
            },
            Apply::Undo { undo, errno } => {
                let base = redirected(start, Stream::Stdin, Some(undo.saved()));
                undo.lemma_step(base, reply);
                lemma_restore_undoes_redirect(start, Stream::Stdin, Some(undo.saved()));
            },
        }
    }


    /// From wherever the redirection stands, the replies take the table
    /// where `table`, `applied` and the start say.
    proof fn lemma_run_from(self, start: Table, replies: Seq<Reply>)
        requires
            self.valid(start),
            plausible(Progress::<Apply, Result<Saved, i32>>::Busy(self), self.table(start), replies),
        ensures
            match run(Progress::<Apply, Result<Saved, i32>>::Busy(self), replies) {
                Progress::Busy(last) => last.valid(start) && last.table(start) == run_table(
                    Progress::<Apply, Result<Saved, i32>>::Busy(self),
                    self.table(start),
                    replies,
                ),
                Progress::Done(Ok(saved)) => saves(start, saved) && applied(start, saved)
                    == run_table(
                    Progress::<Apply, Result<Saved, i32>>::Busy(self),
                    self.table(start),
                    replies,
                ),
                Progress::Done(Err(_)) => start == run_table(
                    Progress::<Apply, Result<Saved, i32>>::Busy(self),
                    self.table(start),
                    replies,
                ),
            },
        decreases replies.len(),
    {
        reveal_with_fuel(run, 2);
        reveal_with_fuel(run_table, 2);
        reveal_with_fuel(plausible, 2);
        if replies.len() > 0 {
            self.lemma_step(start, replies[0]);
            if let Progress::Busy(next) = self.after(replies[0]) {
                next.lemma_run_from(start, replies.drop_first());
            }
        }
    }

    /// Whatever the system answers, a redirection that ends with an error
    /// has left the descriptor table as it was: where the output target
    /// cannot be opened, standard input is back in its place and its
    /// duplicate is closed before the error is the result. One that
    /// succeeds has changed the two streams and added the two duplicates,
    /// and nothing else.
    pub proof fn lemma_applies(input: bool, output: bool, start: Table, replies: Seq<Reply>)
        requires
            has_streams(start),
            plausible(Apply::start(input, output), start, replies),
        ensures
            match run(Apply::start(input, output), replies) {
                Progress::Busy(_) => true,
                Progress::Done(Ok(saved)) => saves(start, saved) && applied(start, saved)
                    == run_table(Apply::start(input, output), start, replies),
                Progress::Done(Err(_)) => start == run_table(
                    Apply::start(input, output),
                    start,
                    replies,
                ),
            },
    {
        reveal_with_fuel(run, 1);
        reveal_with_fuel(run_table, 1);
        Apply::lemma_start(input, output, start);
        match Apply::start(input, output) {
            Progress::Busy(first) => {
                first.lemma_run_from(start, replies);
            },
            Progress::Done(Ok(saved)) => {
                assert(applied(start, saved) =~= start);
            },
            Progress::Done(Err(_)) => {},
        }
    }
}

impl Machine for Apply {
    type Output = Result<Saved, i32>;

    /// The call that the redirection waits for.
    open spec fn pending(&self) -> Call {
        match *self {
            Apply::Stdin { input, .. } => input.pending(),
            Apply::Stdout { output, .. } => output.pending(),
            Apply::Undo { undo, .. } => undo.pending(),
        }
    }

    /// The redirection after `reply`.
    open spec fn after(&self, reply: Reply) -> Progress<Apply, Result<Saved, i32>> {
        match *self {
            Apply::Stdin { input, then } => Apply::from_stdin(input.after(reply), then),
            Apply::Stdout { stdin, output } => Apply::from_stdout(stdin, output.after(reply)),
            Apply::Undo { undo, errno } => Apply::from_undo(undo.after(reply), errno),
        }
    }

    /// The call to make now.
    fn call(&self) -> (call: Call)
        ensures
            call == self.pending(),
    {
        match self {
            Apply::Stdin { input, .. } => input.call(),
            Apply::Stdout { output, .. } => output.call(),
            Apply::Undo { undo, .. } => undo.call(),
        }
    }

    /// Takes the reply to the pending call.
    fn resume(self, reply: Reply) -> (next: Progress<Apply, Result<Saved, i32>>)
        ensures
            next == self.after(reply),
    {
        match self {
            Apply::Stdin { input, then } => stdin_done(input.resume(reply), then),
            Apply::Stdout { stdin, output } => stdout_done(stdin, output.resume(reply)),
            Apply::Undo { undo, errno } => undo_done(undo.resume(reply), errno),
        }
    }
}

/// Goes on to standard output once standard input is done.
fn stdin_done(input: Progress<Redirect, Result<Option<i32>, i32>>, output: bool) -> (next: Progress<
    Apply,
    Result<Saved, i32>,
>)
    ensures
        next == Apply::from_stdin(input, output),
{
    match input {
        Progress::Busy(input) => Progress::Busy(Apply::Stdin { input, then: output }),
        Progress::Done(Ok(stdin)) => {
            let start = if output {
                Progress::Busy(Redirect::Open { stream: Stream::Stdout })
            } else {
                Progress::Done(Ok(None))
            };
            stdout_done(stdin, start)
        },
        Progress::Done(Err(errno)) => Progress::Done(Err(errno)),
    }
}

/// Ends with both duplicates once standard output is done, or starts to
/// put standard input back.
fn stdout_done(stdin: Option<i32>, output: Progress<Redirect, Result<Option<i32>, i32>>) -> (next:
    Progress<Apply, Result<Saved, i32>>)
    ensures
        next == Apply::from_stdout(stdin, output),
{
    match output {
        Progress::Busy(output) => Progress::Busy(Apply::Stdout { stdin, output }),
        Progress::Done(Ok(stdout)) => Progress::Done(Ok(Saved { stdin, stdout })),
        Progress::Done(Err(errno)) => undo_done(restore_stdin(stdin), errno),
    }
}

/// Ends with the error once standard input is back.
fn undo_done(undo: Progress<Restore, ()>, errno: i32) -> (next: Progress<Apply, Result<Saved, i32>>)
    ensures
        next == Apply::from_undo(undo, errno),
{
    match undo {
        Progress::Busy(undo) => Progress::Busy(Apply::Undo { undo, errno }),
        Progress::Done(_) => Progress::Done(Err(errno)),
    }
}

/// Starts to redirect standard input to `input` and standard output to
/// `output`, each where it is given.
pub fn apply(input: Option<&str>, output: Option<&str>) -> (start: Progress<
    Apply,
    Result<Saved, i32>,
>)
    ensures
        start == Apply::start(input is Some, output is Some),
{
    stdin_done(redirect_stdin(input), output.is_some())
}

/// Starts to redirect the streams for which the command names a target.
pub fn apply_targets(input: bool, output: bool) -> (start: Progress<Apply, Result<Saved, i32>>)
    ensures
        start == Apply::start(input, output),
{
    let first = if input {
        Progress::Busy(Redirect::Open { stream: Stream::Stdin })
    } else {
        Progress::Done(Ok(None))
    };
    stdin_done(first, output)
}

/// Both streams on their way back: standard input first, then standard
/// output.
#[derive(Clone, Copy, Debug, PartialEq, Eq)]
pub enum Release {
    /// Standard input is being put back; `stdout` keeps the former
    /// standard output.
    Stdin { undo: Restore, stdout: Option<i32> },
    /// Standard output is being put back; standard input was put back from
    /// `stdin`.
    Stdout { stdin: Option<i32>, undo: Restore },
}

impl Release {
    /// Goes on to standard output once standard input is back.
    pub open spec fn from_stdin(
        stdin: Option<i32>,
        undo: Progress<Restore, ()>,
        stdout: Option<i32>,
    ) -> Progress<Release, ()> {
        match undo {
            Progress::Busy(undo) => Progress::Busy(Release::Stdin { undo, stdout }),
            Progress::Done(_) => Release::from_stdout(
                stdin,
                Restore::start(Stream::Stdout, stdout),
            ),
        }
    }

    /// Ends once standard output is back.
    pub open spec fn from_stdout(stdin: Option<i32>, undo: Progress<Restore, ()>) -> Progress<
        Release,
        (),
    > {
        match undo {
            Progress::Busy(undo) => Progress::Busy(Release::Stdout { stdin, undo }),
            Progress::Done(_) => Progress::Done(()),
        }
    }

    /// The way back of both streams at its start.
    pub open spec fn start(saved: Saved) -> Progress<Release, ()> {
        Release::from_stdin(saved.stdin, Restore::start(Stream::Stdin, saved.stdin), saved.stdout)
    }

    /// The duplicates that the way back started from.
    pub open spec fn saved(self) -> Saved {
        match self {
            Release::Stdin { undo, stdout } => Saved { stdin: Some(undo.saved()), stdout },
            Release::Stdout { stdin, undo } => Saved { stdin, stdout: Some(undo.saved()) },
        }
    }

    /// Whether the way back can stand where it stands, having started on
    /// `start`.
    pub open spec fn valid(self, start: Table) -> bool {
        &&& holds(start, self.saved())
        &&& match self {
            Release::Stdin { undo, .. } => undo.stream() == Stream::Stdin,
            Release::Stdout { undo, .. } => undo.stream() == Stream::Stdout,
        }
    }

    /// The table while the way back waits, having started on `start`.
    pub open spec fn table(self, start: Table) -> Table {
        match self {
            Release::Stdin { undo, .. } => undo.table(start),
            Release::Stdout { stdin, undo } => undo.table(restored(start, Stream::Stdin, stdin)),
        }
    }

    /// At its start the way back has changed nothing.
    pub proof fn lemma_start(saved: Saved, start: Table)
        requires
            holds(start, saved),
        ensures
            match Release::start(saved) {
                Progress::Busy(first) => first.valid(start) && first.saved() == saved
                    && first.table(start) == start,
                Progress::Done(_) => released(start, saved) == start,
            },
    {
    }

    /// Each reply takes the table where `table` and `released` say.
    pub proof fn lemma_step(self, start: Table, reply: Reply)
        requires
            self.valid(start),
            answers(self.pending(), reply),
        ensures
            match self.after(reply) {
                Progress::Busy(next) => next.valid(start) && next.saved() == self.saved()
                    && next.table(start) == effect(self.table(start), self.pending(), reply),
                Progress::Done(_) => released(start, self.saved()) == effect(
                    self.table(start),
                    self.pending(),
                    reply,
                ),
            },
    {
        match self {
            Release::Stdin { undo, stdout } => {
                undo.lemma_step(start, reply);
            },
            Release::Stdout { stdin, undo } => {
                undo.lemma_step(restored(start, Stream::Stdin, stdin), reply);
            },
        }
    }


    /// From wherever the way back stands, the replies take the table where
    /// `table` and `released` say.
    proof fn lemma_run_from(self, start: Table, replies: Seq<Reply>)
        requires
            self.valid(start),
            plausible(Progress::<Release, ()>::Busy(self), self.table(start), replies),
        ensures
            match run(Progress::<Release, ()>::Busy(self), replies) {
                Progress::Busy(last) => last.valid(start) && last.saved() == self.saved()
                    && last.table(start) == run_table(
                    Progress::<Release, ()>::Busy(self),
                    self.table(start),
                    replies,
                ),
                Progress::Done(_) => released(start, self.saved()) == run_table(
                    Progress::<Release, ()>::Busy(self),
                    self.table(start),
                    replies,
                ),
            },
        decreases replies.len(),
    {
        reveal_with_fuel(run, 2);
        reveal_with_fuel(run_table, 2);
        reveal_with_fuel(plausible, 2);
        if replies.len() > 0 {
            self.lemma_step(start, replies[0]);
            if let Progress::Busy(next) = self.after(replies[0]) {
                next.lemma_run_from(start, replies.drop_first());
            }
        }
    }

    /// Whatever the system answers, when both streams are back the table
    /// is what `released` says: each stream refers to what its duplicate
    /// referred to, and the duplicates are closed.
    pub proof fn lemma_releases(saved: Saved, start: Table, replies: Seq<Reply>)
        requires
            holds(start, saved),
            plausible(Release::start(saved), start, replies),
        ensures
            run(Release::start(saved), replies) is Done ==> released(start, saved) == run_table(
                Release::start(saved),
                start,
                replies,
            ),
    {
        reveal_with_fuel(run, 1);
        reveal_with_fuel(run_table, 1);
        Release::lemma_start(saved, start);
        if let Progress::Busy(first) = Release::start(saved) {
            first.lemma_run_from(start, replies);
        }
    }
}

/// Redirecting both streams and then putting them back leaves the
/// descriptor table as it was, whatever the system answers on the way:
/// each standard stream refers to what it referred to before, and no
/// duplicate is left open.
pub proof fn lemma_apply_then_release(
    input: bool,
    output: bool,
    start: Table,
    replies: Seq<Reply>,
    more: Seq<Reply>,
)
    requires
        has_streams(start),
        plausible(Apply::start(input, output), start, replies),
        run(Apply::start(input, output), replies) matches Progress::Done(Ok(saved)) && plausible(
            Release::start(saved),
            run_table(Apply::start(input, output), start, replies),
            more,
        ) && run(Release::start(saved), more) is Done,
    ensures
        run(Apply::start(input, output), replies) matches Progress::Done(Ok(saved)) && run_table(
            Release::start(saved),
            run_table(Apply::start(input, output), start, replies),
            more,
        ) == start,
{
    Apply::lemma_applies(input, output, start, replies);
    let saved = run(Apply::start(input, output), replies)->Done_0->Ok_0;
    lemma_release_undoes_apply(start, saved);
    Release::lemma_releases(saved, applied(start, saved), more);
}

impl Machine for Release {
    type Output = ();

    /// The call that the way back waits for.
    open spec fn pending(&self) -> Call {
        match *self {
            Release::Stdin { undo, .. } => undo.pending(),
            Release::Stdout { undo, .. } => undo.pending(),
        }
    }

    /// The way back after `reply`.
    open spec fn after(&self, reply: Reply) -> Progress<Release, ()> {
        match *self {
            Release::Stdin { undo, stdout } => Release::from_stdin(
                Some(undo.saved()),
                undo.after(reply),
                stdout,
            ),
            Release::Stdout { stdin, undo } => Release::from_stdout(stdin, undo.after(reply)),
        }
    }

    /// The call to make now.
    fn call(&self) -> (call: Call)
        ensures
            call == self.pending(),
    {
        match self {
            Release::Stdin { undo, .. } => undo.call(),
            Release::Stdout { undo, .. } => undo.call(),
        }
    }

    /// Takes the reply to the pending call.
    fn resume(self, reply: Reply) -> (next: Progress<Release, ()>)
        ensures
            next == self.after(reply),
    {
        match self {
            Release::Stdin { undo, stdout } => {
                let stdin = match undo {
                    Restore::Swap { saved, .. } => saved,
                    Restore::Close { saved, .. } => saved,
                };
                stdin_back(Some(stdin), undo.resume(reply), stdout)
            },
            Release::Stdout { stdin, undo } => stdout_back(stdin, undo.resume(reply)),
        }
    }
}

/// Goes on to standard output once standard input is back.
fn stdin_back(stdin: Option<i32>, undo: Progress<Restore, ()>, stdout: Option<i32>) -> (next:
    Progress<Release, ()>)
    ensures
        next == Release::from_stdin(stdin, undo, stdout),
{
    match undo {
        Progress::Busy(undo) => Progress::Busy(Release::Stdin { undo, stdout }),
        Progress::Done(_) => stdout_back(stdin, restore_stdout(stdout)),
    }
}

/// Ends once standard output is back.
fn stdout_back(stdin: Option<i32>, undo: Progress<Restore, ()>) -> (next: Progress<Release, ()>)
    ensures
        next == Release::from_stdout(stdin, undo),
{
    match undo {
        Progress::Busy(undo) => Progress::Busy(Release::Stdout { stdin, undo }),
        Progress::Done(_) => Progress::Done(()),
    }
}

/// Starts to put both streams back from the duplicates in `saved`.
pub fn release(saved: Saved) -> (start: Progress<Release, ()>)
    ensures
        start == Release::start(saved),
{
    stdin_back(saved.stdin, restore_stdin(saved.stdin), saved.stdout)
}

} // verus!
