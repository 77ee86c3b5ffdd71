use vstd::prelude::*;

use crate::poller::FetchError;

verus! {

/// Whether `b` is an ASCII decimal digit.
pub open spec fn is_digit(b: u8) -> bool {
    48 <= b && b <= 57
}

/// Whether every byte of `s` in `[a, b)` is a digit.
pub open spec fn digits_in(s: Seq<u8>, a: int, b: int) -> bool {
    forall|t: int| a <= t < b ==> is_digit(#[trigger] s[t])
}

/// The decimal value of the first `n` bytes of `s`, read as digits.
pub open spec fn prefix_value(s: Seq<u8>, n: nat) -> nat
    decreases n,
{
    if n == 0 {
        0
    } else {
        prefix_value(s, (n - 1) as nat) * 10 + (s[n - 1] - 48) as nat
    }
}

/// Whether `s` starts with exactly `k` digits.
pub open spec fn is_whole_len(s: Seq<u8>, k: int) -> bool {
    &&& 0 <= k <= s.len()
    &&& digits_in(s, 0, k)
    &&& k == s.len() || !is_digit(s[k])
}

/// The number of digits that `s` starts with.
pub open spec fn whole_len(s: Seq<u8>) -> int {
    choose|k: int| is_whole_len(s, k)
}

/// Whether `s` is the text of a non-negative decimal number: one or more digits, optionally
/// followed by a point and one or more digits. A sign, blanks or any other byte make it
/// malformed.
pub open spec fn is_decimal_text(s: Seq<u8>) -> bool {
    let k = whole_len(s);
    &&& k > 0
    &&& k == s.len() || (s[k] == 46 && k + 1 < s.len() && digits_in(s, k + 1, s.len() as int))
}

/// The telemetry value that the text `s` gives: its whole part, with the fraction dropped,
/// when `s` is a decimal number whose whole part fits in 32 bits; otherwise a malformed value.
pub open spec fn value_of_text(s: Seq<u8>) -> Result<u32, FetchError> {
    let v = prefix_value(s, whole_len(s) as nat);
    if is_decimal_text(s) && v <= u32::MAX {
        Ok(v as u32)
    } else {
        Err(FetchError::Malformed)
    }
}

fn is_digit_byte(b: u8) -> (r: bool)
    ensures
        r == is_digit(b),
{
    48 <= b && b <= 57
}

/// Reads a telemetry value as the remote service writes it. Negative, fractional-only or
/// otherwise unreadable text, and values beyond 32 bits, are a malformed fetch.
pub fn parse_value(text: &[u8]) -> (r: Result<u32, FetchError>)
    ensures
        r == value_of_text(text@),
{
    let len = text.len();
    let mut i: usize = 0;
    let mut acc: u64 = 0;
    let mut too_large = false;
    while i < len && is_digit_byte(text[i])
        invariant
            len == text@.len(),
            0 <= i <= len,
            digits_in(text@, 0, i as int),
            !too_large ==> acc == prefix_value(text@, i as nat) && acc <= u32::MAX,
            too_large ==> prefix_value(text@, i as nat) > u32::MAX,
        decreases len - i,
    {
        let d = (text[i] - 48) as u64;
        if !too_large {
            let v = acc * 10 + d;
            if v > u32::MAX as u64 {
                too_large = true;
            } else {
                acc = v;
            }
        }
        i = i + 1;
    }
    proof {
        let s = text@;
        assert(is_whole_len(s, i as int));
        assert forall|k: int| is_whole_len(s, k) implies k == i by {
            if k < i {
                assert(is_digit(s[k]));
            } else if k > i {
                assert(is_digit(s[i as int]));
            }
        }
        assert(whole_len(s) == i);
    }
    if i == 0 {
        return Err(FetchError::Malformed);
    }
    if i < len {
        if text[i] != 46 || i + 1 >= len {
            return Err(FetchError::Malformed);
        }
        let mut j: usize = i + 1;
        while j < len
            invariant
                len == text@.len(),
                i + 1 <= j <= len,
                whole_len(text@) == i,
                digits_in(text@, i + 1, j as int),
            decreases len - j,
        {
            if !is_digit_byte(text[j]) {
                assert(!is_digit(text@[j as int]));
                return Err(FetchError::Malformed);
            }
            j = j + 1;
        }
    }
    if too_large {
        Err(FetchError::Malformed)
    } else {
        Ok(acc as u32)
    }
}

} // verus!
