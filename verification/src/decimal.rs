//! Decimal numerals: parsing a `u64` out of a byte string, and rendering a
//! `u64` as a character string.
//!
//! Parsing follows the grammar of the standard library's integer parser for
//! unsigned values: an optional leading plus sign, then one or more digits,
//! rejected when the value does not fit.

use crate::hex::{hex_digit_char, push_hex_digit};
use vstd::prelude::*;

verus! {

/// Whether a byte is a decimal digit.
pub open spec fn is_digit(b: u8) -> bool {
    ('0' as u8) <= b <= ('9' as u8)
}

/// The value of a decimal digit byte.
pub open spec fn digit_val(b: u8) -> int {
    b - ('0' as u8)
}

/// Whether every byte of a string is a decimal digit.
pub open spec fn all_digits(s: Seq<u8>) -> bool {
    forall|i: int| 0 <= i < s.len() ==> is_digit(#[trigger] s[i])
}

/// The number a digit string stands for, most significant digit first.
pub open spec fn digits_value(s: Seq<u8>) -> int
    decreases s.len(),
{
    if s.len() == 0 {
        0
    } else {
        digits_value(s.drop_last()) * 10 + digit_val(s.last())
    }
}

/// What a byte string parses to as a `u64`: an optional `+`, one or more
/// digits, and a value that fits.
pub open spec fn parse_u64(s: Seq<u8>) -> Option<u64> {
    let t = if s.len() >= 1 && s[0] == ('+' as u8) {
        s.skip(1)
    } else {
        s
    };
    if t.len() == 0 || !all_digits(t) || digits_value(t) > u64::MAX {
        None
    } else {
        Some(digits_value(t) as u64)
    }
}

proof fn lemma_digits_value_nonneg(s: Seq<u8>)
    requires
        all_digits(s),
    ensures
        digits_value(s) >= 0,
    decreases s.len(),
{
    if s.len() > 0 {
        assert(all_digits(s.drop_last()));
        lemma_digits_value_nonneg(s.drop_last());
    }
}

proof fn lemma_digits_value_take_succ(s: Seq<u8>, i: int)
    requires
        0 <= i < s.len(),
    ensures
        digits_value(s.take(i + 1)) == digits_value(s.take(i)) * 10 + digit_val(s[i]),
{
    assert(s.take(i + 1).drop_last() =~= s.take(i));
    assert(s.take(i + 1).last() == s[i]);
}

proof fn lemma_digits_value_grows(s: Seq<u8>, i: int)
    requires
        all_digits(s),
        0 <= i <= s.len(),
    ensures
        digits_value(s.take(i)) <= digits_value(s),
    decreases s.len() - i,
{
    if i < s.len() {
        assert(all_digits(s.take(i)));
        lemma_digits_value_nonneg(s.take(i));
        lemma_digits_value_take_succ(s, i);
        lemma_digits_value_grows(s, i + 1);
    } else {
        assert(s.take(i) =~= s);
    }
}

/// Parse a `u64` out of a byte string; `None` when the string is not a
/// numeral or its value does not fit.
pub fn parse_u64_bytes(s: &[u8]) -> (r: Option<u64>)
    ensures
        r == parse_u64(s@),
{
    let n = s.len();
    let start: usize = if n >= 1 && s[0] == ('+' as u8) {
        1
    } else {
        0
    };
    let ghost t: Seq<u8> = s@.skip(start as int);
    proof {
        if start == 0 {
            assert(t =~= s@);
        }
        assert(t == if s@.len() >= 1 && s@[0] == ('+' as u8) {
            s@.skip(1)
        } else {
            s@
        });
    }
    if start >= n {
        return None;
    }
    let mut acc: u64 = 0;
    let mut i: usize = start;
    while i < n
        invariant
            n == s@.len(),
            start <= i <= n,
            start <= 1,
            t == s@.skip(start as int),
            start == 1 <==> s@.len() >= 1 && s@[0] == ('+' as u8),
            start == 0 ==> t == s@,
            forall|j: int| 0 <= j < i - start ==> is_digit(#[trigger] t[j]),
            acc == digits_value(t.take(i - start)),
        decreases n - i,
    {
        let b = s[i];
        proof {
            assert(t[i - start] == b);
        }
        if !(('0' as u8) <= b && b <= ('9' as u8)) {
            proof {
                assert(!is_digit(t[i - start]));
                assert(!all_digits(t));
            }
            return None;
        }
        let d = (b - ('0' as u8)) as u64;
        proof {
            lemma_digits_value_take_succ(t, i - start);
            assert(digits_value(t.take(i - start + 1)) == acc * 10 + d);
        }
        if acc > (u64::MAX - d) / 10 {
            // The next digit would push the value past `u64::MAX`.
            proof {
                assert(acc >= (u64::MAX - d) / 10 + 1);
                assert(acc * 10 >= ((u64::MAX - d) / 10 + 1) * 10) by (nonlinear_arith)
                    requires
                        acc >= (u64::MAX - d) / 10 + 1,
                ;
                assert(((u64::MAX - d) / 10) * 10 + 10 > u64::MAX - d);
                assert(digits_value(t.take(i - start + 1)) > u64::MAX);
                if all_digits(t) {
                    lemma_digits_value_grows(t, i - start + 1);
                }
            }
            return None;
        }
        acc = acc * 10 + d;
        i = i + 1;
    }
    proof {
        assert(t.take(i - start) =~= t);
    }
    Some(acc)
}

/// The decimal rendering of a non-negative number, most significant digit
/// first and without a sign.
pub open spec fn dec_str_of(n: int) -> Seq<char>
    recommends
        n >= 0,
    decreases n,
{
    if n < 10 {
        seq![hex_digit_char(if 0 <= n { n as u8 } else { 0 })]
    } else {
        dec_str_of(n / 10).push(hex_digit_char((n % 10) as u8))
    }
}

fn push_dec(n: u64, out: &mut String)
    ensures
        final(out)@ == old(out)@ + dec_str_of(n as int),
    decreases n,
{
    if n < 10 {
        push_hex_digit(out, n as u8);
        proof {
            assert(out@ =~= old(out)@ + dec_str_of(n as int));
        }
    } else {
        push_dec(n / 10, out);
        push_hex_digit(out, (n % 10) as u8);
        proof {
            assert(out@ =~= old(out)@ + dec_str_of(n as int));
        }
    }
}

/// Render a number in decimal.
pub fn u64_dec_string(n: u64) -> (r: String)
    ensures
        r@ == dec_str_of(n as int),
{
    let mut out = String::new();
    push_dec(n, &mut out);
    proof {
        assert(out@ =~= dec_str_of(n as int));
    }
    out
}

} // verus!
