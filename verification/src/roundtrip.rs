//! Writing a command back as a line, and the proof that reading the line
//! gives the command again.

use vstd::prelude::*;
use vstd::string::StringExecFns;
use crate::common::{Command, CommandView};
use crate::parser::{
    ampersand, chars_of, command_of, is_quote, is_whitespace, lemma_quote_end_bounds,
    lemma_word_end_bounds, marked, parse_spec, quote, quote_end, tokens_from, tokens_of,
    whitespace, word_end,
};

verus! {

/// No character of `t` is whitespace.
pub open spec fn space_free(t: Seq<char>) -> bool {
    forall|i: int| 0 <= i < t.len() ==> !whitespace(#[trigger] t[i])
}

/// No character of `t` is a quote.
pub open spec fn quote_free(t: Seq<char>) -> bool {
    forall|i: int| 0 <= i < t.len() ==> !quote(#[trigger] t[i])
}

/// Whether the tokenizer reads `t`, written as it is, as one token: `t` is
/// not empty, holds no whitespace and does not start with a quote.
pub open spec fn bare(t: Seq<char>) -> bool {
    t.len() > 0 && !quote(t[0]) && space_free(t)
}

/// How a token is written in a line: as it is where that reads back as one
/// token, else between single quotes.
pub open spec fn written(t: Seq<char>) -> Seq<char> {
    if bare(t) {
        t
    } else {
        seq!['\''] + t + seq!['\'']
    }
}

/// The tokens written one after the other, with one space between
/// neighbours.
pub open spec fn joined(tokens: Seq<Seq<char>>) -> Seq<char>
    decreases tokens.len(),
{
    if tokens.len() == 0 {
        Seq::empty()
    } else if tokens.len() == 1 {
        written(tokens[0])
    } else {
        written(tokens[0]) + seq![' '] + joined(tokens.drop_first())
    }
}

/// Where a word ends does not depend on what stands before it.
proof fn lemma_word_end_shift(p: Seq<char>, r: Seq<char>, k: int)
    requires
        0 <= k <= r.len(),
    ensures
        word_end(p + r, p.len() + k) == p.len() + word_end(r, k),
    decreases r.len() - k,
{
    if k < r.len() {
        assert((p + r)[p.len() + k] == r[k]);
        if !whitespace(r[k]) {
            lemma_word_end_shift(p, r, k + 1);
        }
    }
}

/// Where a quoted token ends does not depend on what stands before it.
proof fn lemma_quote_end_shift(p: Seq<char>, r: Seq<char>, k: int, q: char)
    requires
        0 <= k <= r.len(),
    ensures
        quote_end(p + r, p.len() + k, q) == p.len() + quote_end(r, k, q),
    decreases r.len() - k,
{
    if k < r.len() {
        assert((p + r)[p.len() + k] == r[k]);
        if r[k] != q {
            lemma_quote_end_shift(p, r, k + 1, q);
        }
    }
}

/// The tokens from an index on do not depend on what stands before it.
pub proof fn lemma_tokens_shift(p: Seq<char>, r: Seq<char>, k: int)
    requires
        0 <= k,
    ensures
        tokens_from(p + r, p.len() + k) == tokens_from(r, k),
    decreases r.len() + 1 - k,
{
    let s = p + r;
    let n = p.len() as int;
    if k < r.len() {
        assert(s[n + k] == r[k]);
        if whitespace(r[k]) {
            lemma_tokens_shift(p, r, k + 1);
        } else if quote(r[k]) {
            let close = quote_end(r, k + 1, r[k]);
            lemma_quote_end_bounds(r, k + 1, r[k]);
            lemma_quote_end_shift(p, r, k + 1, r[k]);
            assert(s.subrange(n + k + 1, n + close) =~= r.subrange(k + 1, close));
            lemma_tokens_shift(p, r, close + 1);
        } else {
            let end = word_end(r, k);
            lemma_word_end_bounds(r, k);
            lemma_word_end_shift(p, r, k);
            assert(s.subrange(n + k, n + end) =~= r.subrange(k, end));
            lemma_tokens_shift(p, r, end);
        }
    }
}

/// A stretch without whitespace that whitespace or the end of the line
/// follows is one word.
proof fn lemma_word_end_exact(s: Seq<char>, from: int, end: int)
    requires
        0 <= from <= end <= s.len(),
        forall|j: int| from <= j < end ==> !whitespace(#[trigger] s[j]),
        end == s.len() || whitespace(s[end]),
    ensures
        word_end(s, from) == end,
    decreases end - from,
{
    if from < end {
        lemma_word_end_exact(s, from + 1, end);
    }
}

/// A stretch without the quote `q` that `q` or the end of the line follows
/// is the text of one quoted token.
proof fn lemma_quote_end_exact(s: Seq<char>, from: int, end: int, q: char)
    requires
        0 <= from <= end <= s.len(),
        forall|j: int| from <= j < end ==> #[trigger] s[j] != q,
        end == s.len() || s[end] == q,
    ensures
        quote_end(s, from, q) == end,
    decreases end - from,
{
    if from < end {
        lemma_quote_end_exact(s, from + 1, end, q);
    }
}

/// Whether `t` reads back from how it is written: it is bare, or holds no
/// single quote.
pub open spec fn writable(t: Seq<char>) -> bool {
    bare(t) || forall|i: int| 0 <= i < t.len() ==> #[trigger] t[i] != '\''
}

/// A written token reads back as itself, and what follows it is read as if
/// it stood alone.
proof fn lemma_first_token(t: Seq<char>, tail: Seq<char>)
    requires
        writable(t),
        tail.len() == 0 || whitespace(tail[0]),
    ensures
        tokens_from(written(t) + tail, 0) == seq![t] + tokens_from(tail, 0),
{
    let s = written(t) + tail;
    if bare(t) {
        assert forall|j: int| 0 <= j < t.len() implies !whitespace(#[trigger] s[j]) by {
            assert(s[j] == t[j]);
        }
        if tail.len() > 0 {
            assert(s[t.len() as int] == tail[0]);
        }
        lemma_word_end_exact(s, 0, t.len() as int);
        assert(s[0] == t[0]);
        assert(s.subrange(0, t.len() as int) =~= t);
        lemma_tokens_shift(t, tail, 0);
    } else {
        let q = '\'';
        let n = t.len() as int;
        assert(s[0] == q);
        assert forall|j: int| 1 <= j < n + 1 implies #[trigger] s[j] != q by {
            assert(s[j] == t[j - 1]);
        }
        assert(s[n + 1] == q);
        lemma_quote_end_exact(s, 1, n + 1, q);
        assert(s.subrange(1, n + 1) =~= t);
        lemma_tokens_shift(written(t), tail, 0);
        assert(written(t).len() == n + 2);
    }
}

/// Reading what `joined` wrote gives the tokens back.
pub proof fn lemma_joined_tokens(tokens: Seq<Seq<char>>)
    requires
        forall|i: int| 0 <= i < tokens.len() ==> writable(#[trigger] tokens[i]),
    ensures
        tokens_of(joined(tokens)) == tokens,
    decreases tokens.len(),
{
    if tokens.len() == 0 {
        assert(tokens_of(joined(tokens)) =~= tokens);
    } else if tokens.len() == 1 {
        let t = tokens[0];
        lemma_first_token(t, Seq::empty());
        assert(written(t) + Seq::<char>::empty() =~= written(t));
        assert(seq![t] + tokens_from(Seq::<char>::empty(), 0) =~= tokens);
    } else {
        let t = tokens[0];
        let rest = tokens.drop_first();
        let tail = seq![' '] + joined(rest);
        assert(tail[0] == ' ');
        lemma_first_token(t, tail);
        assert(joined(tokens) =~= written(t) + tail);
        lemma_tokens_shift(seq![' '], joined(rest), 0);
        assert forall|i: int| 0 <= i < rest.len() implies writable(#[trigger] rest[i]) by {
            assert(rest[i] == tokens[i + 1]);
        }
        lemma_joined_tokens(rest);
        assert(seq![t] + rest =~= tokens);
    }
}

/// Whether the parser takes `t` for an argument wherever it stands: `t` is
/// no lone `&` and starts with neither `<` nor `>`.
pub open spec fn plain(t: Seq<char>) -> bool {
    !ampersand(t) && !marked(t, '<') && !marked(t, '>')
}

/// The tokens that stand for `cmd`: its arguments, then the input target
/// behind `<`, the output target behind `>`, and `&`, each where `cmd` has
/// it.
pub open spec fn tokens_for(cmd: CommandView) -> Seq<Seq<char>> {
    cmd.args + (match cmd.inredirect {
        Some(path) => seq![seq!['<'] + path],
        None => Seq::empty(),
    }) + (match cmd.outredirect {
        Some(path) => seq![seq!['>'] + path],
        None => Seq::empty(),
    }) + (if cmd.background {
        seq![seq!['&']]
    } else {
        Seq::empty()
    })
}

/// The line that stands for `cmd`.
pub open spec fn line_of(cmd: CommandView) -> Seq<char> {
    joined(tokens_for(cmd))
}

/// The tokens that stand for a command stand for no other.
proof fn lemma_command_of_tokens(cmd: CommandView)
    requires
        cmd.args.len() > 0,
        plain(cmd.args.last()),
    ensures
        tokens_for(cmd).len() > 0,
        command_of(tokens_for(cmd)) == cmd,
{
    let input: Seq<Seq<char>> = match cmd.inredirect {
        Some(path) => seq![seq!['<'] + path],
        None => Seq::empty(),
    };
    let output: Seq<Seq<char>> = match cmd.outredirect {
        Some(path) => seq![seq!['>'] + path],
        None => Seq::empty(),
    };
    let tokens = tokens_for(cmd);
    let t1 = cmd.args + input + output;
    let t2 = cmd.args + input;
    assert(t2.last() == if cmd.inredirect is Some {
        input[0]
    } else {
        cmd.args.last()
    });
    assert(t1.last() == if cmd.outredirect is Some {
        output[0]
    } else {
        t2.last()
    });
    if cmd.background {
        assert(tokens.drop_last() =~= t1);
    } else {
        assert(tokens =~= t1);
    }
    if cmd.outredirect is Some {
        assert(t1.drop_last() =~= t2);
        assert(t1.last().skip(1) =~= cmd.outredirect->0);
    } else {
        assert(t1 =~= t2);
    }
    if cmd.inredirect is Some {
        assert(t2.drop_last() =~= cmd.args);
        assert(t2.last().skip(1) =~= cmd.inredirect->0);
    } else {
        assert(t2 =~= cmd.args);
    }
}

/// Writing a command as a line and reading the line gives the command
/// again: its arguments, its background flag and both redirect targets.
/// This holds of every command with at least one argument whose arguments
/// and targets hold no quote and whose arguments are plain.
pub proof fn lemma_round_trip(cmd: CommandView)
    requires
        cmd.args.len() > 0,
        forall|i: int|
            0 <= i < cmd.args.len() ==> quote_free(#[trigger] cmd.args[i]) && plain(cmd.args[i]),
        cmd.inredirect matches Some(path) ==> quote_free(path),
        cmd.outredirect matches Some(path) ==> quote_free(path),
    ensures
        parse_spec(line_of(cmd)) == Some(cmd),
{
    let tokens = tokens_for(cmd);
    assert forall|i: int| 0 <= i < tokens.len() implies writable(#[trigger] tokens[i]) by {
        let t = tokens[i];
        if i < cmd.args.len() {
            assert(t == cmd.args[i]);
            assert forall|j: int| 0 <= j < t.len() implies #[trigger] t[j] != '\'' by {
                assert(!quote(t[j]));
            }
        } else {
            assert forall|j: int| 0 <= j < t.len() implies #[trigger] t[j] != '\'' by {
                if j > 0 && t[0] != '&' {
                    let path = t.skip(1);
                    assert(t[j] == path[j - 1]);
                    assert(cmd.inredirect == Some(path) || cmd.outredirect == Some(path)) by {
                        if cmd.inredirect is Some && i == cmd.args.len() {
                            assert(path =~= cmd.inredirect->0);
                        } else {
                            assert(path =~= cmd.outredirect->0);
                        }
                    }
                    assert(!quote(path[j - 1]));
                }
            }
        }
    }
    lemma_joined_tokens(tokens);
    assert(plain(cmd.args.last()));
    lemma_command_of_tokens(cmd);
}

/// What `joined` writes for one more token.
proof fn lemma_joined_push(tokens: Seq<Seq<char>>, t: Seq<char>)
    ensures
        joined(tokens.push(t)) == if tokens.len() == 0 {
            written(t)
        } else {
            joined(tokens) + seq![' '] + written(t)
        },
    decreases tokens.len(),
{
    let all = tokens.push(t);
    if tokens.len() > 0 {
        let rest = tokens.drop_first();
        assert(all.drop_first() =~= rest.push(t));
        assert(all[0] == tokens[0]);
        lemma_joined_push(rest, t);
        if rest.len() == 0 {
            assert(joined(all) =~= joined(tokens) + seq![' '] + written(t));
        } else {
            assert(joined(all) =~= joined(tokens) + seq![' '] + written(t));
        }
    } else {
        assert(all[0] == t);
    }
}

/// Whether the tokenizer reads `token`, written as it is, as one token.
fn is_bare(token: &str) -> (b: bool)
    ensures
        b == bare(token@),
{
    let chars = chars_of(token);
    if chars.len() == 0 || is_quote(chars[0]) {
        return false;
    }
    let mut i: usize = 0;
    while i < chars.len()
        invariant
            chars@ == token@,
            i <= chars@.len(),
            forall|j: int| 0 <= j < i ==> !whitespace(#[trigger] chars@[j]),
        decreases chars@.len() - i,
    {
        if is_whitespace(chars[i]) {
            return false;
        }
        i += 1;
    }
    true
}

/// Writes `token` at the end of `line`, behind a space unless it is the
/// first.
fn add_token(line: &mut String, token: &str, first: bool, Ghost(tokens): Ghost<Seq<Seq<char>>>)
    requires
        old(line)@ == joined(tokens),
        first == (tokens.len() == 0),
    ensures
        final(line)@ == joined(tokens.push(token@)),
{
    proof {
        reveal_strlit(" ");
        reveal_strlit("'");
        lemma_joined_push(tokens, token@);
    }
    let ghost start = line@;
    if !first {
        line.append(" ");
        assert(line@ =~= start + seq![' ']);
    }
    let ghost lead = line@;
    if is_bare(token) {
        line.append(token);
    } else {
        line.append("'");
        line.append(token);
        line.append("'");
        assert(line@ =~= lead + (seq!['\''] + token@ + seq!['\'']));
    }
    assert(line@ == lead + written(token@));
    assert(first ==> lead + written(token@) =~= written(token@));
}

impl<'a> Command<'a> {
    /// The line that stands for this command: its arguments, then the input
    /// target behind `<`, the output target behind `>`, and `&`, each where
    /// the command has it, with one space between neighbours. A token that
    /// would not read back as it is stands between single quotes.
    pub fn to_line(&self) -> (line: String)
        ensures
            line@ == line_of(self@),
    {
        proof {
            reveal_strlit("<");
            reveal_strlit(">");
            reveal_strlit("&");
        }
        let mut line = String::new();
        let ghost mut tokens: Seq<Seq<char>> = Seq::empty();
        let mut first = true;
        let mut i: usize = 0;
        while i < self.args.len()
            invariant
                i <= self.args@.len(),
                first == (i == 0),
                line@ == joined(tokens),
                tokens == self@.args.subrange(0, i as int),
            decreases self.args@.len() - i,
        {
            add_token(&mut line, self.args[i], first, Ghost(tokens));
            first = false;
            proof {
                assert(tokens.push(self.args@[i as int]@) =~= self@.args.subrange(0, i + 1));
                tokens = tokens.push(self.args@[i as int]@);
            }
            i += 1;
        }
        assert(tokens =~= self@.args);
        if let Some(path) = self.inredirect {
            let mut token = String::from_str("<");
            token.append(path);
            add_token(&mut line, token.as_str(), first, Ghost(tokens));
            first = false;
            proof {
                assert(token@ =~= seq!['<'] + path@);
                tokens = tokens.push(token@);
            }
        }
        if let Some(path) = self.outredirect {
            let mut token = String::from_str(">");
            token.append(path);
            add_token(&mut line, token.as_str(), first, Ghost(tokens));
            first = false;
            proof {
                assert(token@ =~= seq!['>'] + path@);
                tokens = tokens.push(token@);
            }
        }
        if self.background {
            add_token(&mut line, "&", first, Ghost(tokens));
            proof {
                assert("&"@ =~= seq!['&']);
                tokens = tokens.push("&"@);
            }
        }
        assert(tokens =~= tokens_for(self@));
        line
    }
}

} // verus!
