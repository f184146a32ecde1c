//! Splitting a line into tokens and reading a command from them.

use vstd::prelude::*;
use crate::common::{Command, CommandView};
use vstd::std_specs::iter::IteratorSpec;

verus! {

/// The characters that separate tokens: those with the Unicode property
/// White_Space.
pub open spec fn whitespace(c: char) -> bool {
    let u = c as u32;
    ||| 0x09 <= u <= 0x0D
    ||| u == 0x20
    ||| u == 0x85
    ||| u == 0xA0
    ||| u == 0x1680
    ||| 0x2000 <= u <= 0x200A
    ||| u == 0x2028
    ||| u == 0x2029
    ||| u == 0x202F
    ||| u == 0x205F
    ||| u == 0x3000
}

/// The two characters that open a quoted token.
pub open spec fn quote(c: char) -> bool {
    c == '"' || c == '\''
}

/// The first index at or after `from` at which `s` holds whitespace, or the
/// length of `s` where it holds none.
pub open spec fn word_end(s: Seq<char>, from: int) -> int
    decreases s.len() - from,
{
    if from >= s.len() {
        s.len() as int
    } else if whitespace(s[from]) {
        from
    } else {
        word_end(s, from + 1)
    }
}

/// The first index at or after `from` at which `s` holds the character `q`,
/// or the length of `s` where it holds none.
pub open spec fn quote_end(s: Seq<char>, from: int, q: char) -> int
    decreases s.len() - from,
{
    if from >= s.len() {
        s.len() as int
    } else if s[from] == q {
        from
    } else {
        quote_end(s, from + 1, q)
    }
}

/// `word_end` lies between `from` and the end of `s`.
pub proof fn lemma_word_end_bounds(s: Seq<char>, from: int)
    requires
        0 <= from <= s.len(),
    ensures
        from <= word_end(s, from) <= s.len(),
        from < s.len() && !whitespace(s[from]) ==> from < word_end(s, from),
    decreases s.len() - from,
{
    if from < s.len() && !whitespace(s[from]) {
        lemma_word_end_bounds(s, from + 1);
    }
}

/// `quote_end` lies between `from` and the end of `s`.
pub proof fn lemma_quote_end_bounds(s: Seq<char>, from: int, q: char)
    requires
        0 <= from <= s.len(),
    ensures
        from <= quote_end(s, from, q) <= s.len(),
    decreases s.len() - from,
{
    if from < s.len() && s[from] != q {
        lemma_quote_end_bounds(s, from + 1, q);
    }
}

/// The tokens of `s` that start at or after index `i`.
///
/// Whitespace separates tokens. A quote character opens a token that runs
/// up to the next occurrence of the same character, or to the end of the
/// line where there is none; neither quote belongs to the token. Any other
/// character opens a token that runs up to the next whitespace.
pub open spec fn tokens_from(s: Seq<char>, i: int) -> Seq<Seq<char>>
    decreases s.len() + 1 - i,
{
    if i < 0 || i >= s.len() {
        Seq::empty()
    } else if whitespace(s[i]) {
        tokens_from(s, i + 1)
    } else if quote(s[i]) {
        let close = quote_end(s, i + 1, s[i]);
        proof {
            lemma_quote_end_bounds(s, i + 1, s[i]);
        }
        seq![s.subrange(i + 1, close)] + tokens_from(s, close + 1)
    } else {
        let end = word_end(s, i);
        proof {
            lemma_word_end_bounds(s, i);
        }
        seq![s.subrange(i, end)] + tokens_from(s, end)
    }
}

/// The tokens of a line.
pub open spec fn tokens_of(s: Seq<char>) -> Seq<Seq<char>> {
    tokens_from(s, 0)
}

/// Whether `c` separates tokens.
pub fn is_whitespace(c: char) -> (b: bool)
    ensures
        b == whitespace(c),
{
    let u: u32 = c as u32;
    (0x09 <= u && u <= 0x0D) || u == 0x20 || u == 0x85 || u == 0xA0 || u == 0x1680 || (0x2000 <= u
        && u <= 0x200A) || u == 0x2028 || u == 0x2029 || u == 0x202F || u == 0x205F || u == 0x3000
}

/// The characters of `line`, in order.
pub(crate) fn chars_of(line: &str) -> (chars: Vec<char>)
    ensures
        chars@ == line@,
{
    let mut chars: Vec<char> = Vec::new();
    let mut it = line.chars();
    loop
        invariant
            it.obeys_prophetic_iter_laws(),
            it.decrease() is Some,
            chars@ + it.remaining() == line@,
        ensures
            chars@ == line@,
        decreases it.decrease()->0,
    {
        match it.next() {
            Some(c) => {
                chars.push(c);
            },
            None => {
                assert(chars@ + it.remaining() =~= chars@);
                break ;
            },
        }
    }
    chars
}

/// Whether `c` opens a quoted token.
pub fn is_quote(c: char) -> (b: bool)
    ensures
        b == quote(c),
{
    c == '"' || c == '\''
}

/// The index at which the word that holds index `from` ends.
fn find_word_end(chars: &Vec<char>, from: usize) -> (end: usize)
    requires
        from <= chars@.len(),
    ensures
        end == word_end(chars@, from as int),
        from <= end <= chars@.len(),
{
    let mut end: usize = from;
    while end < chars.len() && !is_whitespace(chars[end])
        invariant
            from <= end <= chars@.len(),
            word_end(chars@, end as int) == word_end(chars@, from as int),
        decreases chars@.len() - end,
    {
        end += 1;
    }
    end
}

/// The index of the quote `q` that closes a token whose text starts at
/// `from`.
fn find_quote_end(chars: &Vec<char>, from: usize, q: char) -> (end: usize)
    requires
        from <= chars@.len(),
    ensures
        end == quote_end(chars@, from as int, q),
        from <= end <= chars@.len(),
{
    let mut end: usize = from;
    while end < chars.len() && chars[end] != q
        invariant
            from <= end <= chars@.len(),
            quote_end(chars@, end as int, q) == quote_end(chars@, from as int, q),
        decreases chars@.len() - end,
    {
        end += 1;
    }
    end
}

/// Splits `line` into its tokens, each a slice of `line`.
///
/// Blank input has no tokens. A quote that is never closed takes the rest
/// of the line as its token.
pub fn tokenize(line: &str) -> (tokens: Vec<&str>)
    ensures
        tokens.deep_view() == tokens_of(line@),
{
    let chars = chars_of(line);
    let n = chars.len();
    let mut tokens: Vec<&str> = Vec::new();
    let mut pos: usize = 0;
    assert(tokens.deep_view() + tokens_from(line@, 0) =~= tokens_of(line@));
    while pos < n
        invariant
            chars@ == line@,
            n == chars@.len(),
            pos <= n,
            tokens.deep_view() + tokens_from(line@, pos as int) == tokens_of(line@),
        decreases n - pos,
    {
        let c = chars[pos];
        if is_whitespace(c) {
            pos += 1;
        } else {
            let ghost before = tokens.deep_view();
            let ghost rest = tokens_from(line@, pos as int);
            if is_quote(c) {
                let end = find_quote_end(&chars, pos + 1, c);
                let token = line.substring_char(pos + 1, end);
                tokens.push(token);
                pos = if end < n {
                    end + 1
                } else {
                    end
                };
                assert(tokens_from(line@, end + 1) == tokens_from(line@, pos as int));
                assert(tokens.deep_view() =~= before.push(token@));
                assert(before.push(token@) + tokens_from(line@, pos as int) =~= before + rest);
            } else {
                let end = find_word_end(&chars, pos);
                let token = line.substring_char(pos, end);
                tokens.push(token);
                pos = end;
                assert(tokens.deep_view() =~= before.push(token@));
                assert(before.push(token@) + tokens_from(line@, pos as int) =~= before + rest);
            }
        }
    }
    assert(tokens.deep_view() + tokens_from(line@, pos as int) =~= tokens.deep_view());
    tokens
}

/// Whether the token `t` starts with the marker `m`.
pub open spec fn marked(t: Seq<char>, m: char) -> bool {
    t.len() > 0 && t[0] == m
}

/// Whether the token `t` is a lone `&`.
pub open spec fn ampersand(t: Seq<char>) -> bool {
    t.len() == 1 && t[0] == '&'
}

/// The command that a non-empty sequence of tokens stands for.
///
/// The grammar is `arg0 [arg1 ...] [<input] [>output] [&]`. The tokens are
/// read from the last one backward: a lone `&` asks for the background; then
/// a token that starts with `>` names the output, then one that starts with
/// `<` names the input; the target is the token without its first character.
/// Each marker is looked for once, in that order, and only behind at least
/// one other token, so that `arg0` is always there. A marker anywhere else is
/// an argument like any other.
pub open spec fn command_of(tokens: Seq<Seq<char>>) -> CommandView
    recommends
        tokens.len() > 0,
{
    let background = tokens.len() > 1 && ampersand(tokens.last());
    let t1 = if background {
        tokens.drop_last()
    } else {
        tokens
    };
    let output = t1.len() > 1 && marked(t1.last(), '>');
    let t2 = if output {
        t1.drop_last()
    } else {
        t1
    };
    let input = t2.len() > 1 && marked(t2.last(), '<');
    let t3 = if input {
        t2.drop_last()
    } else {
        t2
    };
    CommandView {
        args: t3,
        background,
        inredirect: if input {
            Some(t2.last().skip(1))
        } else {
            None
        },
        outredirect: if output {
            Some(t1.last().skip(1))
        } else {
            None
        },
    }
}

/// The command that a line stands for, if it holds any token.
pub open spec fn parse_spec(line: Seq<char>) -> Option<CommandView> {
    let tokens = tokens_of(line);
    if tokens.len() == 0 {
        None
    } else {
        Some(command_of(tokens))
    }
}

/// Whether `token` starts with the marker `m`.
fn has_marker(token: &str, m: char) -> (b: bool)
    ensures
        b == marked(token@, m),
{
    !token.is_empty() && token.get_char(0) == m
}

/// Whether `token` is a lone `&`.
fn is_ampersand(token: &str) -> (b: bool)
    ensures
        b == ampersand(token@),
{
    token.unicode_len() == 1 && token.get_char(0) == '&'
}

/// The token without its first character.
fn target<'a>(token: &'a str) -> (rest: &'a str)
    requires
        token@.len() > 0,
    ensures
        rest@ == token@.skip(1),
{
    token.substring_char(1, token.unicode_len())
}

/// Reads a command from `line`: `None` for a line without tokens, else the
/// command that its tokens stand for.
pub fn parse(line: &str) -> (command: Option<Command>)
    ensures
        command is Some <==> tokens_of(line@).len() > 0,
        command matches Some(cmd) ==> cmd@ == command_of(tokens_of(line@)) && cmd.wf(),
{
    let mut tokens = tokenize(line);
    if tokens.len() == 0 {
        None
    } else {
        let ghost all = tokens.deep_view();
        let mut last: usize = tokens.len() - 1;
        let back = last > 0 && is_ampersand(tokens[last]);
        if back {
            last -= 1;
        }
        let ghost t1 = all.subrange(0, last + 1);
        let out = if last > 0 && has_marker(tokens[last], '>') {
            last -= 1;
            Some(target(tokens[last + 1]))
        } else {
            None
        };
        let ghost t2 = all.subrange(0, last + 1);
        let inr = if last > 0 && has_marker(tokens[last], '<') {
            last -= 1;
            Some(target(tokens[last + 1]))
        } else {
            None
        };
        tokens.truncate(last + 1);
        let cmd = Command { args: tokens, background: back, inredirect: inr, outredirect: out };
        proof {
            let view = command_of(all);
            assert(t1 =~= if back {
                all.drop_last()
            } else {
                all
            });
            assert(t2 =~= if out is Some {
                t1.drop_last()
            } else {
                t1
            });
            assert(cmd.args.deep_view() =~= view.args);
            assert(cmd@ == view);
        }
        Some(cmd)
    }
}

} // verus!
