//! Port numbers as they are written on the command line.

use vstd::prelude::*;
use vstd::string::*;

verus! {

/// Ports below this number are privileged: binding one takes elevated rights.
pub const FIRST_UNPRIVILEGED_PORT: i32 = 1024;

/// Whether `c` is one of the decimal digits `0` to `9`.
pub open spec fn is_digit(c: char) -> bool {
    '0' <= c <= '9'
}

/// The number that the decimal digit `c` stands for.
pub open spec fn digit_value(c: char) -> int {
    c as int - '0' as int
}

/// Whether `s` holds decimal digits only.
pub open spec fn all_digits(s: Seq<char>) -> bool {
    forall|i: int| 0 <= i < s.len() ==> is_digit(#[trigger] s[i])
}

/// The number that the decimal digits `s` write, most significant first.
pub open spec fn digits_value(s: Seq<char>) -> int
    decreases s.len(),
{
    if s.len() == 0 {
        0
    } else {
        digits_value(s.drop_last()) * 10 + digit_value(s.last())
    }
}

/// The digits of a signed decimal numeral: `s` without a leading `+` or `-`.
pub open spec fn numeral_digits(s: Seq<char>) -> Seq<char> {
    if s.len() > 0 && (s[0] == '-' || s[0] == '+') {
        s.drop_first()
    } else {
        s
    }
}

/// The integer that `s` writes in decimal: an optional sign `+` or `-`, then
/// one digit or more and nothing else. `None` for every other text.
pub open spec fn numeral_value(s: Seq<char>) -> Option<int> {
    let digits = numeral_digits(s);
    if digits.len() == 0 || !all_digits(digits) {
        None
    } else if s[0] == '-' {
        Some(-digits_value(digits))
    } else {
        Some(digits_value(digits))
    }
}

/// The port that `s` names: the integer it writes in decimal, where that is a
/// 32-bit signed integer.
pub open spec fn port_number(s: Seq<char>) -> Option<int> {
    match numeral_value(s) {
        Some(v) => if i32::MIN <= v <= i32::MAX {
            Some(v)
        } else {
            None
        },
        None => None,
    }
}

/// Whether `s` names a port at all.
pub open spec fn is_port(s: Seq<char>) -> bool {
    port_number(s) is Some
}

/// Whether `s` names a privileged port.
pub open spec fn is_low_port(s: Seq<char>) -> bool {
    port_number(s) matches Some(v) && v < FIRST_UNPRIVILEGED_PORT
}

/// The value of digits is not negative, and one more digit at the end
/// multiplies it by ten and adds the digit.
pub proof fn lemma_digits_value_step(s: Seq<char>, k: int)
    requires
        0 <= k < s.len(),
        all_digits(s),
    ensures
        0 <= digits_value(s.subrange(0, k)),
        digits_value(s.subrange(0, k + 1)) == digits_value(s.subrange(0, k)) * 10 + digit_value(
            s[k],
        ),
    decreases k,
{
    let longer = s.subrange(0, k + 1);
    assert(longer.drop_last() =~= s.subrange(0, k));
    assert(longer.last() == s[k]);
    if k > 0 {
        lemma_digits_value_step(s, k - 1);
        assert(is_digit(s[k - 1]));
    } else {
        assert(s.subrange(0, 0).len() == 0);
    }
}

/// Digits are worth at least as much as any of their prefixes.
pub proof fn lemma_digits_value_grows(s: Seq<char>, k: int)
    requires
        0 <= k <= s.len(),
        all_digits(s),
    ensures
        0 <= digits_value(s.subrange(0, k)) <= digits_value(s),
    decreases s.len() - k,
{
    if k == s.len() {
        assert(s.subrange(0, k) =~= s);
        if k > 0 {
            lemma_digits_value_step(s, k - 1);
            assert(is_digit(s[k - 1]));
        }
    } else {
        lemma_digits_value_step(s, k);
        assert(is_digit(s[k]));
        lemma_digits_value_grows(s, k + 1);
    }
}

/// Reads `s` as a port number; `None` where it names none.
pub fn parse_port(s: &str) -> (r: Option<i32>)
    ensures
        match r {
            Some(v) => port_number(s@) == Some(v as int),
            None => port_number(s@) is None,
        },
{
    let n: usize = s.unicode_len();
    if n == 0 {
        return None;
    }
    let first: char = s.get_char(0);
    let negative: bool = first == '-';
    let start: usize = if first == '-' || first == '+' {
        1
    } else {
        0
    };
    let ghost digits = numeral_digits(s@);
    assert(digits =~= s@.subrange(start as int, n as int));
    let mut acc: i64 = 0;
    let mut i: usize = start;
    while i < n
        invariant
            start <= i <= n,
            n == s@.len(),
            digits == numeral_digits(s@),
            digits == s@.subrange(start as int, n as int),
            all_digits(digits.subrange(0, i - start)),
            acc == digits_value(digits.subrange(0, i - start)),
            0 <= acc <= 0x8000_0000,
        decreases n - i,
    {
        let c: char = s.get_char(i);
        if !('0' <= c && c <= '9') {
            assert(!is_digit(digits[i - start]));
            return None;
        }
        let d: i64 = (c as u32 - '0' as u32) as i64;
        let next: i64 = acc * 10 + d;
        proof {
            let seen = digits.subrange(0, i - start + 1);
            assert forall|j: int| 0 <= j < seen.len() implies is_digit(#[trigger] seen[j]) by {
                if j < i - start {
                    assert(seen[j] == digits.subrange(0, i - start)[j]);
                }
            }
            assert(seen.drop_last() =~= digits.subrange(0, i - start));
            assert(next == digits_value(seen));
            if next > 0x8000_0000 && all_digits(digits) {
                lemma_digits_value_grows(digits, i - start + 1);
            }
        }
        if next > 0x8000_0000 {
            return None;
        }
        acc = next;
        i += 1;
    }
    assert(digits.subrange(0, n - start) =~= digits);
    if start == n {
        None
    } else if negative {
        Some((-acc) as i32)
    } else if acc > 0x7fff_ffff {
        None
    } else {
        Some(acc as i32)
    }
}

} // verus!
