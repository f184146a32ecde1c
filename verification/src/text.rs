//! Reading string slices by their characters: comparing two, and reading
//! a number.

use vstd::prelude::*;
use vstd::std_specs::iter::IteratorSpec;
use crate::parser::chars_of;

verus! {

/// Whether `a` and `b` hold the same characters.
pub fn same_text(a: &str, b: &str) -> (same: bool)
    ensures
        same == (a@ == b@),
{
    let mut left = a.chars();
    let mut right = b.chars();
    let mut same = true;
    let ghost mut seen: Seq<char> = Seq::empty();
    assert(seen + a@ =~= a@ && seen + b@ =~= b@);
    loop
        invariant_except_break
            left.obeys_prophetic_iter_laws(),
            right.obeys_prophetic_iter_laws(),
            left.decrease() is Some,
            seen + left.remaining() == a@,
            seen + right.remaining() == b@,
        ensures
            same == (a@ == b@),
        decreases left.decrease()->0,
    {
        let ghost left_rest = left.remaining();
        let ghost right_rest = right.remaining();
        let x = left.next();
        let y = right.next();
        match (x, y) {
            (Some(c), Some(d)) => {
                if c != d {
                    assert(a@[seen.len() as int] == c && b@[seen.len() as int] == d);
                    same = false;
                    break ;
                }
                proof {
                    assert(seen.push(c) + left.remaining() =~= seen + left_rest);
                    assert(seen.push(c) + right.remaining() =~= seen + right_rest);
                    seen = seen.push(c);
                }
            },
            (None, None) => {
                same = true;
                break ;
            },
            _ => {
                assert(a@.len() != b@.len());
                same = false;
                break ;
            },
        }
    }
    same
}

/// Whether `c` is a decimal digit.
pub open spec fn digit(c: char) -> bool {
    '0' <= c <= '9'
}

/// The number that the decimal digits `s` write; zero for none.
pub open spec fn number(s: Seq<char>) -> int
    decreases s.len(),
{
    if s.len() == 0 {
        0
    } else {
        number(s.drop_last()) * 10 + (s.last() as int - '0' as int)
    }
}

/// Whether `s` holds decimal digits only.
pub open spec fn all_digits(s: Seq<char>) -> bool {
    forall|i: int| 0 <= i < s.len() ==> digit(#[trigger] s[i])
}

/// Whether `s` starts with a sign.
pub open spec fn signed(s: Seq<char>) -> bool {
    s.len() > 0 && (s[0] == '-' || s[0] == '+')
}

/// What follows the sign of `s`, if it has one.
pub open spec fn unsigned(s: Seq<char>) -> Seq<char> {
    if signed(s) {
        s.skip(1)
    } else {
        s
    }
}

/// The integer that `s` writes: an optional sign, `+` or `-`, and then at
/// least one decimal digit and nothing else. `None` where `s` is not of
/// that form, or the integer is not an `i32`.
pub open spec fn int_of(s: Seq<char>) -> Option<i32> {
    let digits = unsigned(s);
    let value = if signed(s) && s[0] == '-' {
        -number(digits)
    } else {
        number(digits)
    };
    if digits.len() > 0 && all_digits(digits) && i32::MIN <= value <= i32::MAX {
        Some(value as i32)
    } else {
        None
    }
}

/// A number does not get smaller when digits follow.
proof fn lemma_number_grows(s: Seq<char>, k: int)
    requires
        0 <= k <= s.len(),
        all_digits(s),
    ensures
        0 <= number(s.take(k)) <= number(s),
    decreases s.len() - k,
{
    if k == s.len() {
        assert(s.take(k) =~= s);
        lemma_number_sign(s);
    } else {
        lemma_number_grows(s, k + 1);
        assert(s.take(k + 1).drop_last() =~= s.take(k));
        lemma_number_sign(s.take(k));
    }
}

/// A number is not negative.
proof fn lemma_number_sign(s: Seq<char>)
    requires
        all_digits(s),
    ensures
        0 <= number(s),
    decreases s.len(),
{
    if s.len() > 0 {
        lemma_number_sign(s.drop_last());
    }
}

/// Reads `text` as an integer.
pub fn parse_i32(text: &str) -> (value: Option<i32>)
    ensures
        value == int_of(text@),
{
    let chars = chars_of(text);
    let n = chars.len();
    if n == 0 {
        return None;
    }
    let negative = chars[0] == '-';
    let first: usize = if negative || chars[0] == '+' {
        1
    } else {
        0
    };
    if first == n {
        return None;
    }
    let ghost digits = unsigned(text@);
    let mut acc: i64 = 0;
    let mut i: usize = first;
    while i < n
        invariant
            first <= i <= n,
            0 < n == chars@.len(),
            chars@ == text@,
            first == if signed(text@) {
                1int
            } else {
                0int
            },
            negative == (text@[0] == '-'),
            digits == unsigned(text@),
            all_digits(digits.take(i - first)),
            acc == number(digits.take(i - first)),
            0 <= acc <= 0x8000_0000,
        decreases n - i,
    {
        let c = chars[i];
        assert(digits[i - first] == c);
        if c < '0' || c > '9' {
            assert(!digit(digits[i - first]));
            return None;
        }
        let d: i64 = (c as u32 - '0' as u32) as i64;
        proof {
            let taken = digits.take(i - first + 1);
            assert(taken.drop_last() =~= digits.take(i - first));
            assert(taken.last() == c);
            assert forall|j: int| 0 <= j < taken.len() implies digit(#[trigger] taken[j]) by {
                if j < i - first {
                    assert(taken[j] == digits.take(i - first)[j]);
                }
            }
        }
        acc = acc * 10 + d;
        if acc > 0x8000_0000 {
            proof {
                if all_digits(digits) {
                    lemma_number_grows(digits, i - first + 1);
                }
            }
            return None;
        }
        i += 1;
    }
    assert(digits.take(i - first) =~= digits);
    if negative {
        Some((-acc) as i32)
    } else if acc > 0x7fff_ffff {
        None
    } else {
        Some(acc as i32)
    }
}

} // verus!
