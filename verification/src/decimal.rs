//! Decimal integers as header fields carry them: an optional sign, then
//! digits and nothing else.

use vstd::prelude::*;

verus! {

/// The byte of the digit `0`.
pub const ZERO_DIGIT: u8 = 0x30;

/// The byte of the digit `9`.
pub const NINE_DIGIT: u8 = 0x39;

/// The byte of the sign `+`.
pub const PLUS_SIGN: u8 = 0x2b;

/// The byte of the sign `-`.
pub const MINUS_SIGN: u8 = 0x2d;

/// Whether the byte is one of the ten ASCII digits.
pub open spec fn is_digit(b: u8) -> bool {
    ZERO_DIGIT <= b <= NINE_DIGIT
}

/// Whether every byte is a digit.
pub open spec fn all_digits(s: Seq<u8>) -> bool {
    forall|i: int| 0 <= i < s.len() ==> is_digit(#[trigger] s[i])
}

/// The number that a run of digits writes, most significant digit first.
pub open spec fn digits_value(s: Seq<u8>) -> nat
    decreases s.len(),
{
    if s.len() == 0 {
        0
    } else {
        digits_value(s.drop_last()) * 10 + (s.last() - ZERO_DIGIT) as nat
    }
}

/// The number that `s` writes, where `s` is one digit or more and the number
/// is no greater than `limit`.
pub open spec fn spec_magnitude(s: Seq<u8>, limit: nat) -> Option<nat> {
    if s.len() > 0 && all_digits(s) && digits_value(s) <= limit {
        Some(digits_value(s))
    } else {
        None
    }
}

/// What is left of `s` once a leading `+` is taken off.
pub open spec fn without_plus(s: Seq<u8>) -> Seq<u8> {
    if s.len() > 0 && s[0] == PLUS_SIGN {
        s.skip(1)
    } else {
        s
    }
}

/// The `u32` that `s` writes: an optional `+`, then digits only, at least
/// one, of a number that fits. Anything else writes none.
pub open spec fn spec_parse_u32(s: Seq<u8>) -> Option<u32> {
    match spec_magnitude(without_plus(s), u32::MAX as nat) {
        Some(n) => Some(n as u32),
        None => None,
    }
}

/// The `i64` that `s` writes: an optional `+` or `-`, then digits only, at
/// least one, of a number that fits. Anything else writes none.
pub open spec fn spec_parse_i64(s: Seq<u8>) -> Option<i64> {
    if s.len() > 0 && s[0] == MINUS_SIGN {
        match spec_magnitude(s.skip(1), (i64::MAX as nat) + 1) {
            Some(n) => Some((-(n as int)) as i64),
            None => None,
        }
    } else {
        match spec_magnitude(without_plus(s), i64::MAX as nat) {
            Some(n) => Some(n as i64),
            None => None,
        }
    }
}

/// Digits added to the right never make the number smaller.
pub proof fn lemma_digits_value_grows(s: Seq<u8>, k: int)
    requires
        0 <= k <= s.len(),
    ensures
        digits_value(s.take(k)) <= digits_value(s),
    decreases s.len(),
{
    if k == s.len() {
        assert(s.take(k) =~= s);
    } else {
        assert(s.drop_last().take(k) =~= s.take(k));
        lemma_digits_value_grows(s.drop_last(), k);
    }
}

/// Reads the digits from `start` to the end of `bytes` as a number no
/// greater than `limit`.
fn magnitude(bytes: &[u8], start: usize, limit: u64) -> (r: Option<u64>)
    requires
        start <= bytes.len(),
    ensures
        match spec_magnitude(bytes@.skip(start as int), limit as nat) {
            Some(n) => r == Some(n as u64),
            None => r is None,
        },
{
    let ghost digits = bytes@.skip(start as int);
    if start == bytes.len() {
        return None;
    }
    let mut value: u64 = 0;
    let mut i: usize = start;
    while i < bytes.len()
        invariant
            start <= i <= bytes.len(),
            digits == bytes@.skip(start as int),
            all_digits(digits.take(i - start)),
            value == digits_value(digits.take(i - start)),
            value <= limit,
        decreases bytes.len() - i,
    {
        let b: u8 = bytes[i];
        assert(digits[i - start] == b);
        if b < ZERO_DIGIT || b > NINE_DIGIT {
            return None;
        }
        let next: u128 = value as u128 * 10 + (b - ZERO_DIGIT) as u128;
        proof {
            let longer = digits.take(i - start + 1);
            assert(longer.drop_last() =~= digits.take(i - start));
            assert(longer.last() == b);
            assert(next == digits_value(longer));
            lemma_digits_value_grows(digits, i - start + 1);
        }
        if next > limit as u128 {
            return None;
        }
        value = next as u64;
        i = i + 1;
    }
    proof {
        assert(digits.take(i - start) =~= digits);
    }
    Some(value)
}

/// Reads a header field as a `u32`.
pub fn parse_u32(bytes: &[u8]) -> (r: Option<u32>)
    ensures
        r == spec_parse_u32(bytes@),
{
    let start: usize = if bytes.len() > 0 && bytes[0] == PLUS_SIGN {
        1
    } else {
        0
    };
    proof {
        assert(bytes@.skip(0) =~= bytes@);
    }
    match magnitude(bytes, start, 0xffff_ffff) {
        Some(n) => Some(n as u32),
        None => None,
    }
}

/// Reads a header field as an `i64`.
pub fn parse_i64(bytes: &[u8]) -> (r: Option<i64>)
    ensures
        r == spec_parse_i64(bytes@),
{
    proof {
        assert(bytes@.skip(0) =~= bytes@);
    }
    if bytes.len() > 0 && bytes[0] == MINUS_SIGN {
        match magnitude(bytes, 1, 0x8000_0000_0000_0000) {
            Some(n) => if n == 0x8000_0000_0000_0000 {
                Some(i64::MIN)
            } else {
                Some(-(n as i64))
            },
            None => None,
        }
    } else {
        let start: usize = if bytes.len() > 0 && bytes[0] == PLUS_SIGN {
            1
        } else {
            0
        };
        match magnitude(bytes, start, 0x7fff_ffff_ffff_ffff) {
            Some(n) => Some(n as i64),
            None => None,
        }
    }
}

} // verus!
