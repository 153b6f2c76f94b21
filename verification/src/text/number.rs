//! Decimal numbers as text: writing them and reading them back.

use vstd::prelude::*;
use crate::text::{all_digits, decimal, digit_char, digits_value, is_digit, parse_i64, push_char,
    signed_decimal};

verus! {

/// The character of the digit `d`.
pub fn digit_to_char(d: u8) -> (c: char)
    requires
        d <= 9,
    ensures
        c == digit_char(d as int),
        is_digit(c),
        c as u32 - '0' as u32 == d,
{
    let c = match d {
        0 => '0',
        1 => '1',
        2 => '2',
        3 => '3',
        4 => '4',
        5 => '5',
        6 => '6',
        7 => '7',
        8 => '8',
        _ => '9',
    };
    c
}

/// Appends the decimal digits of `n` to `out`.
pub fn push_decimal(out: &mut String, n: u64)
    ensures
        final(out)@ == old(out)@ + decimal(n as nat),
    decreases n,
{
    if n >= 10 {
        push_decimal(out, n / 10);
    }
    push_char(out, digit_to_char((n % 10) as u8));
    assert(out@ =~= old(out)@ + decimal(n as nat));
}

/// Appends the decimal text of `v` to `out`, with a minus sign where `v` is negative.
pub fn push_signed_decimal(out: &mut String, v: i64)
    ensures
        final(out)@ == old(out)@ + signed_decimal(v as int),
{
    if v < 0 {
        push_char(out, '-');
        let magnitude: u64 = ((-(v + 1)) as u64) + 1;
        push_decimal(out, magnitude);
        assert(out@ =~= old(out)@ + signed_decimal(v as int));
    } else {
        push_decimal(out, v as u64);
    }
}

/// The value of the digit `c`, if it is one.
pub fn char_to_digit(c: char) -> (d: Option<u8>)
    ensures
        d is Some <==> is_digit(c),
        d is Some ==> d->0 == c as u32 - '0' as u32 && d->0 <= 9,
{
    let n: u32 = c as u32;
    if 48 <= n && n <= 57 {
        Some((n - 48) as u8)
    } else {
        None
    }
}

/// The value of a row of digits never shrinks when digits are added behind it.
pub proof fn lemma_digits_value_grows(s: Seq<char>, k: int)
    requires
        0 <= k <= s.len(),
        all_digits(s),
    ensures
        digits_value(s.take(k)) <= digits_value(s),
    decreases s.len() - k,
{
    if k == s.len() {
        assert(s.take(k) =~= s);
    } else {
        lemma_digits_value_grows(s, k + 1);
        assert(s.take(k + 1).drop_last() =~= s.take(k));
        assert(is_digit(s[k]));
        assert(s.take(k + 1).last() == s[k]);
    }
}

/// Reads `chars[from..to]` as a signed 64-bit integer in decimal: an optional sign, then
/// digits alone, and a value that fits.
#[verifier::loop_isolation(false)]
pub fn parse_i64_at(chars: &Vec<char>, from: usize, to: usize) -> (r: Option<i64>)
    requires
        from <= to <= chars.len(),
    ensures
        r == parse_i64(chars@.subrange(from as int, to as int)),
{
    let ghost s = chars@.subrange(from as int, to as int);
    if from == to {
        return None;
    }
    let negative = chars[from] == '-';
    let signed = negative || chars[from] == '+';
    let start: usize = if signed {
        from + 1
    } else {
        from
    };
    let ghost digits = chars@.subrange(start as int, to as int);
    proof {
        assert(s[0] == chars@[from as int]);
        if signed {
            assert(digits =~= s.drop_first());
        } else {
            assert(digits =~= s);
        }
    }
    if start == to {
        return None;
    }
    // The digits are gathered below zero where a minus sign leads, so that the least value
    // of the type is reached without overflow.
    let mut acc: i64 = 0;
    let mut i: usize = start;
    while i < to
        invariant
            start <= i <= to <= chars.len(),
            digits == chars@.subrange(start as int, to as int),
            all_digits(digits.take(i - start)),
            negative ==> acc as int == -(digits_value(digits.take(i - start)) as int),
            !negative ==> acc as int == digits_value(digits.take(i - start)) as int,
        decreases to - i,
    {
        let ghost k = i - start;
        proof {
            assert(digits.take(k + 1).drop_last() =~= digits.take(k));
            assert(digits.take(k + 1).last() == chars@[i as int]);
        }
        match char_to_digit(chars[i]) {
            None => {
                proof {
                    assert(digits[k] == chars@[i as int]);
                    assert(!all_digits(digits));
                }
                return None;
            },
            Some(d) => {
                proof {
                    assert forall|j: int| 0 <= j < k + 1 implies is_digit(
                        #[trigger] digits.take(k + 1)[j],
                    ) by {
                        if j < k {
                            assert(digits.take(k)[j] == digits.take(k + 1)[j]);
                        }
                    }
                }
                let next = if negative {
                    match acc.checked_mul(10) {
                        Some(m) => m.checked_sub(d as i64),
                        None => None,
                    }
                } else {
                    match acc.checked_mul(10) {
                        Some(m) => m.checked_add(d as i64),
                        None => None,
                    }
                };
                match next {
                    Some(v) => {
                        acc = v;
                    },
                    None => {
                        // The digits read so far already leave the range, and so does
                        // whatever follows them.
                        let mut j: usize = i + 1;
                        while j < to
                            invariant
                                i < j <= to <= chars.len(),
                                start <= i,
                                digits == chars@.subrange(start as int, to as int),
                                all_digits(digits.take(j - start)),
                            decreases to - j,
                        {
                            if char_to_digit(chars[j]).is_none() {
                                proof {
                                    assert(digits[j - start] == chars@[j as int]);
                                    assert(!all_digits(digits));
                                }
                                return None;
                            }
                            proof {
                                let m = j - start;
                                assert forall|q: int| 0 <= q < m + 1 implies is_digit(
                                    #[trigger] digits.take(m + 1)[q],
                                ) by {
                                    if q < m {
                                        assert(digits.take(m)[q] == digits.take(m + 1)[q]);
                                    } else {
                                        assert(digits.take(m + 1)[q] == chars@[j as int]);
                                    }
                                }
                            }
                            j += 1;
                        }
                        proof {
                            assert(digits.take(to - start) =~= digits);
                            lemma_digits_value_grows(digits, k + 1);
                            let v = digits_value(digits.take(k + 1)) as int;
                            assert(v == digits_value(digits.take(k)) * 10 + d);
                            if negative {
                                assert(-v < i64::MIN);
                            } else {
                                assert(v > i64::MAX);
                            }
                        }
                        return None;
                    },
                }
            },
        }
        i += 1;
    }
    proof {
        assert(digits.take(to - start) =~= digits);
    }
    Some(acc)
}

} // verus!
