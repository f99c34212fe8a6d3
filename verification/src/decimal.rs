//! Decimal integer literals, as they stand in the fields of a song line.
//!
//! A literal is an optional sign followed by one or more ASCII digits and
//! nothing else. An unsigned literal may carry `+` but not `-`. Leading zeros
//! are allowed. A literal whose value does not fit the target type is
//! rejected.

use vstd::prelude::*;

verus! {

pub const PLUS: u8 = 43;

pub const MINUS: u8 = 45;

pub const ZERO: u8 = 48;

pub const NINE: u8 = 57;

/// Whether `b` is one of the ASCII digits `0` to `9`.
pub open spec fn is_digit(b: u8) -> bool {
    ZERO <= b <= NINE
}

/// The value of one digit; a byte that is no digit counts as zero.
pub open spec fn digit_value(b: u8) -> nat {
    if is_digit(b) {
        (b - ZERO) as nat
    } else {
        0
    }
}

/// Whether every byte of `s` is a digit. Holds of the empty string.
pub open spec fn all_digits(s: Seq<u8>) -> bool {
    forall|i: int| 0 <= i < s.len() ==> is_digit(#[trigger] s[i])
}

/// The number that the digits of `s` denote, most significant digit first.
pub open spec fn value(s: Seq<u8>) -> nat
    decreases s.len(),
{
    if s.len() == 0 {
        0
    } else {
        value(s.drop_last()) * 10 + digit_value(s.last())
    }
}

/// The value of a literal without a sign: one or more digits.
pub open spec fn magnitude(s: Seq<u8>) -> Option<nat> {
    if s.len() > 0 && all_digits(s) {
        Some(value(s))
    } else {
        None
    }
}

/// The value of an unsigned literal: an optional `+`, then one or more digits.
pub open spec fn unsigned(s: Seq<u8>) -> Option<nat> {
    if s.len() > 0 && s[0] == PLUS {
        magnitude(s.skip(1))
    } else {
        magnitude(s)
    }
}

/// The value of a signed literal: an optional `+` or `-`, then one or more
/// digits.
pub open spec fn signed(s: Seq<u8>) -> Option<int> {
    if s.len() > 0 && s[0] == MINUS {
        match magnitude(s.skip(1)) {
            Some(m) => Some(-(m as int)),
            None => None,
        }
    } else {
        match unsigned(s) {
            Some(m) => Some(m as int),
            None => None,
        }
    }
}

/// What `s` denotes as a `u64`, if it is an unsigned literal in range.
pub open spec fn u64_of(s: Seq<u8>) -> Option<u64> {
    match unsigned(s) {
        Some(v) => if v <= u64::MAX {
            Some(v as u64)
        } else {
            None
        },
        None => None,
    }
}

/// What `s` denotes as an `i32`, if it is a signed literal in range.
pub open spec fn i32_of(s: Seq<u8>) -> Option<i32> {
    match signed(s) {
        Some(v) => if i32::MIN <= v <= i32::MAX {
            Some(v as i32)
        } else {
            None
        },
        None => None,
    }
}

/// What `s` denotes, if it is a run of digits whose value is at most `limit`.
pub open spec fn magnitude_within(s: Seq<u8>, limit: nat) -> Option<u64> {
    match magnitude(s) {
        Some(v) => if v <= limit {
            Some(v as u64)
        } else {
            None
        },
        None => None,
    }
}

/// A string of digits denotes at least as much as any of its prefixes.
pub proof fn lemma_value_grows(s: Seq<u8>, k: int)
    requires
        0 <= k <= s.len(),
    ensures
        value(s.take(k)) <= value(s),
    decreases s.len(),
{
    if k == s.len() {
        assert(s.take(k) =~= s);
    } else {
        lemma_value_grows(s.drop_last(), k);
        assert(s.drop_last().take(k) =~= s.take(k));
    }
}

/// Appending one byte multiplies the value by ten and adds the digit.
pub proof fn lemma_value_step(s: Seq<u8>, k: int)
    requires
        0 <= k < s.len(),
    ensures
        value(s.take(k + 1)) == value(s.take(k)) * 10 + digit_value(s[k]),
{
    assert(s.take(k + 1).drop_last() =~= s.take(k));
}

/// Reads the digits of `s` from `start` to its end.
fn parse_magnitude(s: &[u8], start: usize, limit: u64) -> (r: Option<u64>)
    requires
        start <= s@.len(),
    ensures
        r == magnitude_within(s@.skip(start as int), limit as nat),
{
    let ghost t = s@.skip(start as int);
    if start == s.len() {
        return None;
    }
    let mut acc: u64 = 0;
    let mut i: usize = start;
    while i < s.len()
        invariant
            start <= i <= s@.len(),
            t == s@.skip(start as int),
            all_digits(t.take(i - start)),
            acc == value(t.take(i - start)),
            acc <= limit,
        decreases s@.len() - i,
    {
        let b: u8 = s[i];
        if b < ZERO || b > NINE {
            assert(!is_digit(t[i - start]));
            return None;
        }
        let next: u128 = (acc as u128) * 10 + ((b - ZERO) as u128);
        proof {
            lemma_value_step(t, i - start);
        }
        if next > limit as u128 {
            proof {
                lemma_value_grows(t, i - start + 1);
            }
            return None;
        }
        acc = next as u64;
        i = i + 1;
    }
    assert(t.take(i - start) =~= t);
    Some(acc)
}

/// Parses an unsigned decimal literal.
///
/// Returns the number exactly when `s` is an optional `+` followed by one or
/// more digits whose value fits a `u64`, and `None` for every other input.
pub fn parse_u64(s: &[u8]) -> (r: Option<u64>)
    ensures
        r == u64_of(s@),
{
    let start: usize = if s.len() > 0 && s[0] == PLUS {
        1
    } else {
        0
    };
    assert(s@.skip(0) =~= s@);
    parse_magnitude(s, start, u64::MAX)
}

/// Parses a signed decimal literal.
///
/// Returns the number exactly when `s` is an optional `+` or `-` followed by
/// one or more digits whose value fits an `i32`, and `None` for every other
/// input.
pub fn parse_i32(s: &[u8]) -> (r: Option<i32>)
    ensures
        r == i32_of(s@),
{
    assert(s@.skip(0) =~= s@);
    if s.len() > 0 && s[0] == MINUS {
        match parse_magnitude(s, 1, 2147483648) {
            Some(m) => Some((-(m as i64)) as i32),
            None => None,
        }
    } else {
        let start: usize = if s.len() > 0 && s[0] == PLUS {
            1
        } else {
            0
        };
        match parse_magnitude(s, start, 2147483647) {
            Some(m) => Some(m as i32),
            None => None,
        }
    }
}

} // verus!
