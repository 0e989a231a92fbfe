//! The missed-block alert threshold: how many misses (`numerator`) within a
//! trailing window of blocks (`denominator`) trigger an alert.
//!
//! Parsed from text as either `"N"` (numerator and denominator both `N`) or
//! `"N/M"`. Any positive pair is accepted; the parser does not require
//! `denominator >= numerator`.

use crate::decimal::parse_u64;
use crate::decimal::parse_u64_bytes;
use vstd::prelude::*;
use vstd::utf8::encode_utf8;

verus! {

/// Error from parsing a threshold out of text.
#[derive(Clone, Copy, Debug, PartialEq, Eq, Structural)]
pub enum ThresholdError {
    /// The text was neither `"N"` nor `"N/M"` with values that fit.
    IllegalFormat,
}

/// Alert when at least `numerator` misses fall within the trailing
/// `denominator` blocks.
#[derive(Clone, Copy, Debug, PartialEq, Eq, Structural)]
pub struct MissedBlockThreshold {
    pub numerator: u64,
    pub denominator: u64,
}

/// What a byte string parses to as a threshold: the part before the first
/// `/` and the part between the first and second `/` as numerator and
/// denominator, or the whole string as both.
pub open spec fn parse_threshold(sb: Seq<u8>) -> Option<(u64, u64)> {
    match sb.index_of_first('/' as u8) {
        Some(k) => {
            let rest = sb.skip(k + 1);
            let den_part = match rest.index_of_first('/' as u8) {
                Some(m) => rest.take(m),
                None => rest,
            };
            match parse_u64(sb.take(k)) {
                Some(nu) => match parse_u64(den_part) {
                    Some(de) => Some((nu, de)),
                    None => None,
                },
                None => None,
            }
        },
        None => match parse_u64(sb) {
            Some(v) => Some((v, v)),
            None => None,
        },
    }
}

/// The index of the first occurrence of a byte, if any.
fn find_byte(s: &[u8], b: u8) -> (r: Option<usize>)
    ensures
        match s@.index_of_first(b) {
            Some(k) => (r matches Some(i) && i == k),
            None => r is None,
        },
{
    proof {
        s@.index_of_first_ensures(b);
    }
    let n = s.len();
    let mut i: usize = 0;
    while i < n
        invariant
            n == s@.len(),
            i <= n,
            forall|j: int| 0 <= j < i ==> s@[j] != b,
        decreases n - i,
    {
        if s[i] == b {
            proof {
                s@.index_of_first_ensures(b);
            }
            return Some(i);
        }
        i = i + 1;
    }
    proof {
        s@.index_of_first_ensures(b);
    }
    None
}

impl MissedBlockThreshold {
    /// Parse a threshold out of text, read as UTF-8 bytes: `"N"` or
    /// `"N/M"`; text after a second `/` is ignored.
    pub fn try_from(value: String) -> (r: Result<MissedBlockThreshold, ThresholdError>)
        ensures
            parse_threshold(encode_utf8(value@)) matches Some(p) ==> (r matches Ok(t)
                && t.numerator == p.0 && t.denominator == p.1),
            parse_threshold(encode_utf8(value@)) is None ==> r == Err::<
                MissedBlockThreshold,
                ThresholdError,
            >(ThresholdError::IllegalFormat),
    {
        let text = value.as_str().as_bytes();
        let n = text.len();
        proof {
            text@.index_of_first_ensures('/' as u8);
        }
        match find_byte(text, '/' as u8) {
            Some(k) => {
                let numerator = match parse_u64_bytes(&text[0..k]) {
                    Some(v) => v,
                    None => {
                        proof {
                            assert(text@.subrange(0, k as int) =~= text@.take(k as int));
                        }
                        return Err(ThresholdError::IllegalFormat);
                    },
                };
                proof {
                    assert(text@.subrange(0, k as int) =~= text@.take(k as int));
                }
                let rest = &text[k + 1..n];
                proof {
                    assert(rest@ =~= text@.skip(k + 1));
                }
                proof {
                    rest@.index_of_first_ensures('/' as u8);
                }
                let end = match find_byte(rest, '/' as u8) {
                    Some(m) => m,
                    None => rest.len(),
                };
                let denominator = match parse_u64_bytes(&rest[0..end]) {
                    Some(v) => v,
                    None => {
                        proof {
                            assert(rest@.subrange(0, end as int) =~= rest@.take(end as int));
                            assert(rest@.take(rest@.len() as int) =~= rest@);
                        }
                        return Err(ThresholdError::IllegalFormat);
                    },
                };
                proof {
                    assert(rest@.subrange(0, end as int) =~= rest@.take(end as int));
                    assert(rest@.take(rest@.len() as int) =~= rest@);
                }
                Ok(MissedBlockThreshold { numerator, denominator })
            },
            None => match parse_u64_bytes(text) {
                Some(v) => Ok(MissedBlockThreshold { numerator: v, denominator: v }),
                None => Err(ThresholdError::IllegalFormat),
            },
        }
    }
}

impl Default for MissedBlockThreshold {
    /// alert on any missed block
    fn default() -> (r: Self)
        ensures
            r.numerator == 1,
            r.denominator == 1,
    {
        MissedBlockThreshold { numerator: 1, denominator: 1 }
    }
}

} // verus!
