use vstd::prelude::*;

use crate::decode::chars_of;

verus! {

pub open spec fn is_digit(c: char) -> bool {
    '0' <= c && c <= '9'
}

/// `s` is one or more decimal digits.
pub open spec fn all_digits(s: Seq<char>) -> bool {
    s.len() > 0 && forall|i: int| 0 <= i < s.len() ==> is_digit(#[trigger] s[i])
}

/// The number that the decimal digits `s` write.
pub open spec fn digits_value(s: Seq<char>) -> int
    decreases s.len(),
{
    if s.len() == 0 {
        0
    } else {
        digits_value(s.drop_last()) * 10 + (s.last() as int - '0' as int)
    }
}

/// The integer that `s` writes: an optional `+` or `-` and then decimal digits.
pub open spec fn int_value(s: Seq<char>) -> Option<int> {
    if s.len() > 0 && s[0] == '-' && all_digits(s.drop_first()) {
        Some(-digits_value(s.drop_first()))
    } else if s.len() > 0 && s[0] == '+' && all_digits(s.drop_first()) {
        Some(digits_value(s.drop_first()))
    } else if all_digits(s) {
        Some(digits_value(s))
    } else {
        None
    }
}

/// The `i64` that `s` writes, or `None` when it writes no integer or one out of range.
pub open spec fn i64_value(s: Seq<char>) -> Option<i64> {
    match int_value(s) {
        Some(v) => if i64::MIN <= v <= i64::MAX {
            Some(v as i64)
        } else {
            None
        },
        None => None,
    }
}

proof fn lemma_digits_value_grows(s: Seq<char>, i: int, j: int)
    requires
        0 <= i <= j <= s.len(),
        forall|k: int| 0 <= k < s.len() ==> is_digit(#[trigger] s[k]),
    ensures
        0 <= digits_value(s.take(i)) <= digits_value(s.take(j)),
    decreases j - i,
{
    if i < j {
        lemma_digits_value_grows(s, i, j - 1);
        assert(s.take(j).drop_last() == s.take(j - 1));
    } else {
        lemma_digits_nonneg(s.take(i));
    }
}

proof fn lemma_digits_nonneg(s: Seq<char>)
    requires
        forall|k: int| 0 <= k < s.len() ==> is_digit(#[trigger] s[k]),
    ensures
        digits_value(s) >= 0,
    decreases s.len(),
{
    if s.len() > 0 {
        lemma_digits_nonneg(s.drop_last());
    }
}

const MAGNITUDE_LIMIT: u64 = 9223372036854775808;

/// The value of the decimal digits of `s` from `start`, when they are all digits and the
/// value is at most 2^63.
fn digits_magnitude(s: &Vec<char>, start: usize) -> (r: Option<u64>)
    requires
        start <= s@.len(),
    ensures
        r is Some <==> all_digits(s@.skip(start as int)) && digits_value(s@.skip(start as int))
            <= MAGNITUDE_LIMIT,
        r matches Some(v) ==> v as int == digits_value(s@.skip(start as int)),
{
    let ghost d = s@.skip(start as int);
    if start == s.len() {
        return None;
    }
    let mut acc: u64 = 0;
    let mut i: usize = start;
    while i < s.len()
        invariant
            start <= i <= s@.len(),
            d == s@.skip(start as int),
            forall|k: int| 0 <= k < i - start ==> is_digit(#[trigger] d[k]),
            acc as int == digits_value(d.take(i - start)),
            acc <= MAGNITUDE_LIMIT,
        decreases s@.len() - i,
    {
        let c = s[i];
        assert(c == d[i - start]);
        if !('0' <= c && c <= '9') {
            return None;
        }
        assert(d.take(i - start + 1).drop_last() == d.take(i - start));
        if acc > 922337203685477580 {
            proof {
                if all_digits(d) {
                    lemma_digits_value_grows(d, i - start + 1, d.len() as int);
                    assert(d.take(d.len() as int) == d);
                }
            }
            return None;
        }
        let digit = (c as u32 - '0' as u32) as u64;
        acc = acc * 10 + digit;
        if acc > MAGNITUDE_LIMIT {
            proof {
                if all_digits(d) {
                    lemma_digits_value_grows(d, i - start + 1, d.len() as int);
                    assert(d.take(d.len() as int) == d);
                }
            }
            return None;
        }
        i += 1;
    }
    assert(d.take(d.len() as int) == d);
    Some(acc)
}

/// Parses a decimal integer with an optional sign, as `str::parse::<i64>` does.
pub fn parse_i64(text: &str) -> (r: Option<i64>)
    ensures
        r == i64_value(text@),
{
    let s = chars_of(text);
    if s.len() > 0 && (s[0] == '-' || s[0] == '+') {
        let negative = s[0] == '-';
        assert(s@.skip(1) == text@.drop_first());
        match digits_magnitude(&s, 1) {
            Some(m) => {
                if negative {
                    if m == MAGNITUDE_LIMIT {
                        Some(i64::MIN)
                    } else {
                        Some(-(m as i64))
                    }
                } else if m == MAGNITUDE_LIMIT {
                    None
                } else {
                    Some(m as i64)
                }
            },
            None => {
                proof {
                    if all_digits(text@.drop_first()) {
                        lemma_digits_nonneg(text@.drop_first());
                    }
                }
                None
            },
        }
    } else {
        assert(s@.skip(0) == text@);
        match digits_magnitude(&s, 0) {
            Some(m) => {
                if m == MAGNITUDE_LIMIT {
                    None
                } else {
                    Some(m as i64)
                }
            },
            None => {
                proof {
                    if all_digits(text@) {
                        lemma_digits_nonneg(text@);
                    }
                }
                None
            },
        }
    }
}

} // verus!
