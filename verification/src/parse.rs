//! A verified decimal reader for configuration values.
//!
//! The default baseline id arrives as the string value of a config row and
//! must parse as a signed 64-bit integer. [`parse_i64`] accepts exactly what
//! Rust's own integer parsing accepts: an optional leading `+` or `-`
//! followed by one or more ASCII digits, with the value in range.

use vstd::prelude::*;
use vstd::string::StrSliceExecFns;

verus! {

/// An ASCII decimal digit, `'0'` through `'9'`.
pub open spec fn is_ascii_digit(c: char) -> bool {
    48 <= c as int <= 57
}

/// The numeric value of an ASCII decimal digit.
pub open spec fn digit_val(c: char) -> int {
    c as int - 48
}

/// Every character of `s` is an ASCII decimal digit.
pub open spec fn all_digits(s: Seq<char>) -> bool {
    forall|i: int| 0 <= i < s.len() ==> is_ascii_digit(#[trigger] s[i])
}

/// The value of a digit sequence read in base ten.
pub open spec fn digits_val(s: Seq<char>) -> int
    decreases s.len(),
{
    if s.len() == 0 {
        0
    } else {
        digits_val(s.drop_last()) * 10 + digit_val(s.last())
    }
}

/// What parsing `s` as an `i64` yields: `None` when `s` is empty, has no
/// digit after its sign, holds a non-digit, or encodes a value out of range.
pub open spec fn spec_parse_i64(s: Seq<char>) -> Option<i64> {
    let negative = s.len() > 0 && s[0] == '-';
    let digits = if s.len() > 0 && (s[0] == '-' || s[0] == '+') {
        s.drop_first()
    } else {
        s
    };
    if digits.len() == 0 || !all_digits(digits) {
        None
    } else {
        let v = if negative {
            -digits_val(digits)
        } else {
            digits_val(digits)
        };
        if i64::MIN <= v <= i64::MAX {
            Some(v as i64)
        } else {
            None
        }
    }
}

/// A digit sequence has a nonnegative value.
proof fn lemma_digits_val_nonneg(s: Seq<char>)
    requires
        all_digits(s),
    ensures
        digits_val(s) >= 0,
    decreases s.len(),
{
    if s.len() > 0 {
        lemma_digits_val_nonneg(s.drop_last());
    }
}

/// Reading more digits can only grow the value.
proof fn lemma_digits_val_prefix(s: Seq<char>, k: int)
    requires
        all_digits(s),
        0 <= k <= s.len(),
    ensures
        digits_val(s.take(k)) <= digits_val(s),
    decreases s.len(),
{
    if k == s.len() {
        assert(s.take(k) =~= s);
    } else {
        assert(s.drop_last().take(k) =~= s.take(k));
        lemma_digits_val_prefix(s.drop_last(), k);
        lemma_digits_val_nonneg(s.drop_last());
    }
}

/// Parse `s` as a signed 64-bit decimal integer, exactly as Rust's own
/// integer parsing does.
pub fn parse_i64(s: &str) -> (r: Option<i64>)
    ensures
        r == spec_parse_i64(s@),
{
    let len = s.unicode_len();
    let mut negative = false;
    let mut start: usize = 0;
    if len > 0 {
        let c0 = s.get_char(0);
        if c0 == '-' {
            negative = true;
            start = 1;
        } else if c0 == '+' {
            start = 1;
        }
    }
    let ghost digits: Seq<char> = s@.subrange(start as int, len as int);
    proof {
        if s@.len() > 0 && (s@[0] == '-' || s@[0] == '+') {
            assert(digits =~= s@.drop_first());
        } else {
            assert(digits =~= s@);
        }
    }
    if start >= len {
        return None;
    }
    let mut i = start;
    // `acc` accumulates the negated value so that i64::MIN stays reachable.
    let mut acc: i64 = 0;
    while i < len
        invariant
            start <= i <= len,
            len == s@.len(),
            start == 0 || start == 1,
            negative == (s@.len() > 0 && s@[0] == '-'),
            (start == 1) == (s@.len() > 0 && (s@[0] == '-' || s@[0] == '+')),
            digits == s@.subrange(start as int, len as int),
            digits.len() > 0,
            all_digits(s@.subrange(start as int, i as int)),
            acc == -digits_val(s@.subrange(start as int, i as int)),
            acc <= 0,
        decreases len - i,
    {
        let c = s.get_char(i);
        let ghost prefix = s@.subrange(start as int, i as int);
        let ghost prefix_next = s@.subrange(start as int, i as int + 1);
        proof {
            assert(prefix_next.drop_last() =~= prefix);
            assert(prefix_next.last() == c);
        }
        let cv = c as u32;
        if cv < 48 || cv > 57 {
            proof {
                let spec_digits = if s@.len() > 0 && (s@[0] == '-' || s@[0] == '+') {
                    s@.drop_first()
                } else {
                    s@
                };
                assert(spec_digits =~= digits);
                assert(digits[i - start] == c);
                assert(!all_digits(digits));
                assert(spec_parse_i64(s@) is None);
            }
            return None;
        }
        let d = (cv - 48) as i64;
        let ghost value_next = digits_val(prefix_next);
        proof {
            lemma_digits_val_nonneg(prefix);
        }
        let overflowed: bool = match acc.checked_mul(10) {
            Some(acc10) => match acc10.checked_sub(d) {
                Some(next) => {
                    acc = next;
                    false
                },
                None => true,
            },
            None => true,
        };
        if overflowed {
            proof {
                let spec_digits = if s@.len() > 0 && (s@[0] == '-' || s@[0] == '+') {
                    s@.drop_first()
                } else {
                    s@
                };
                assert(spec_digits =~= digits);
                assert(value_next > i64::MAX as int + 1);
                if all_digits(digits) {
                    assert(prefix_next =~= digits.take(i as int + 1 - start));
                    lemma_digits_val_prefix(digits, i as int + 1 - start);
                    assert(digits_val(digits) > i64::MAX as int + 1);
                    assert(spec_parse_i64(s@) is None);
                } else {
                    assert(spec_parse_i64(s@) is None);
                }
            }
            return None;
        }
        i = i + 1;
    }
    proof {
        let spec_digits = if s@.len() > 0 && (s@[0] == '-' || s@[0] == '+') {
            s@.drop_first()
        } else {
            s@
        };
        assert(spec_digits =~= digits);
        assert(s@.subrange(start as int, len as int) =~= digits);
        lemma_digits_val_nonneg(digits);
    }
    if negative {
        Some(acc)
    } else {
        match 0i64.checked_sub(acc) {
            Some(v) => Some(v),
            None => None,
        }
    }
}

} // verus!

