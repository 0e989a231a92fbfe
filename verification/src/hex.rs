//! Hexadecimal encoding and decoding of byte strings.
//!
//! Encoding renders each byte as two upper-case digits; decoding accepts a
//! byte string of hex digits in a single case (upper or lower) and of even
//! length, as the address parser expects.

use vstd::prelude::*;

verus! {

/// The upper-case hex digit for a value below 16.
pub open spec fn hex_digit_char(v: u8) -> char {
    if v == 0 {
        '0'
    } else if v == 1 {
        '1'
    } else if v == 2 {
        '2'
    } else if v == 3 {
        '3'
    } else if v == 4 {
        '4'
    } else if v == 5 {
        '5'
    } else if v == 6 {
        '6'
    } else if v == 7 {
        '7'
    } else if v == 8 {
        '8'
    } else if v == 9 {
        '9'
    } else if v == 10 {
        'A'
    } else if v == 11 {
        'B'
    } else if v == 12 {
        'C'
    } else if v == 13 {
        'D'
    } else if v == 14 {
        'E'
    } else {
        'F'
    }
}

/// The upper-case hex rendering of a byte string: two digits per byte,
/// high nibble first.
pub open spec fn hex_upper_of(bytes: Seq<u8>) -> Seq<char> {
    Seq::new(
        (2 * bytes.len()) as nat,
        |i: int|
            if i % 2 == 0 {
                hex_digit_char(bytes[i / 2] / 16)
            } else {
                hex_digit_char(bytes[i / 2] % 16)
            },
    )
}

/// Whether a byte is a hex digit of the given case (digits are always
/// accepted; letters must match the case).
pub open spec fn hex_nibble_ok(b: u8, upper: bool) -> bool {
    ('0' as u8) <= b <= ('9' as u8) || if upper {
        ('A' as u8) <= b <= ('F' as u8)
    } else {
        ('a' as u8) <= b <= ('f' as u8)
    }
}

/// The value of a hex digit byte of either case.
pub open spec fn hex_nibble_val(b: u8) -> u8 {
    if ('0' as u8) <= b <= ('9' as u8) {
        (b - ('0' as u8)) as u8
    } else if ('A' as u8) <= b <= ('F' as u8) {
        (b - ('A' as u8) + 10) as u8
    } else if ('a' as u8) <= b <= ('f' as u8) {
        (b - ('a' as u8) + 10) as u8
    } else {
        0
    }
}

/// Whether a byte string decodes as hex of the given case: even length and
/// every byte a digit of that case.
pub open spec fn hex_decode_ok(s: Seq<u8>, upper: bool) -> bool {
    s.len() % 2 == 0 && forall|i: int| 0 <= i < s.len() ==> hex_nibble_ok(#[trigger] s[i], upper)
}

/// The bytes a hex string stands for, one per digit pair.
pub open spec fn hex_decode_bytes(s: Seq<u8>) -> Seq<u8> {
    Seq::new((s.len() / 2) as nat, |i: int| (hex_nibble_val(s[2 * i]) * 16 + hex_nibble_val(s[2 * i + 1])) as u8)
}

/// Append one upper-case hex digit to a string.
pub(crate) fn push_hex_digit(s: &mut String, v: u8)
    requires
        v < 16,
    ensures
        final(s)@ == old(s)@.push(hex_digit_char(v)),
{
    let digit: &str = match v {
        0 => "0",
        1 => "1",
        2 => "2",
        3 => "3",
        4 => "4",
        5 => "5",
        6 => "6",
        7 => "7",
        8 => "8",
        9 => "9",
        10 => "A",
        11 => "B",
        12 => "C",
        13 => "D",
        14 => "E",
        _ => "F",
    };
    proof {
        reveal_strlit("0");
        reveal_strlit("1");
        reveal_strlit("2");
        reveal_strlit("3");
        reveal_strlit("4");
        reveal_strlit("5");
        reveal_strlit("6");
        reveal_strlit("7");
        reveal_strlit("8");
        reveal_strlit("9");
        reveal_strlit("A");
        reveal_strlit("B");
        reveal_strlit("C");
        reveal_strlit("D");
        reveal_strlit("E");
        reveal_strlit("F");
        assert(digit@ =~= seq![hex_digit_char(v)]);
    }
    s.append(digit);
    proof {
        assert(s@ =~= old(s)@.push(hex_digit_char(v)));
    }
}

/// Render a byte string as upper-case hex, two digits per byte.
pub fn hex_upper_string(bytes: &[u8]) -> (r: String)
    ensures
        r@ == hex_upper_of(bytes@),
{
    let mut r = String::new();
    let mut i: usize = 0;
    while i < bytes.len()
        invariant
            i <= bytes@.len(),
            r@ =~= hex_upper_of(bytes@.take(i as int)),
        decreases bytes@.len() - i,
    {
        let b = bytes[i];
        push_hex_digit(&mut r, b / 16);
        push_hex_digit(&mut r, b % 16);
        proof {
            assert(r@ =~= hex_upper_of(bytes@.take(i + 1)));
        }
        i = i + 1;
    }
    proof {
        assert(bytes@.take(bytes@.len() as int) =~= bytes@);
    }
    r
}

/// The value of one hex digit byte of the given case, if it is one.
fn nibble_val(b: u8, upper: bool) -> (r: Option<u8>)
    ensures
        r is Some <==> hex_nibble_ok(b, upper),
        r matches Some(v) ==> v == hex_nibble_val(b) && v < 16,
{
    if ('0' as u8) <= b && b <= ('9' as u8) {
        Some(b - ('0' as u8))
    } else if upper && ('A' as u8) <= b && b <= ('F' as u8) {
        Some(b - ('A' as u8) + 10)
    } else if !upper && ('a' as u8) <= b && b <= ('f' as u8) {
        Some(b - ('a' as u8) + 10)
    } else {
        None
    }
}

/// Decode a byte string of hex digits in the given case; `None` when the
/// length is odd or a byte is no digit of that case.
pub fn hex_decode(s: &[u8], upper: bool) -> (r: Option<Vec<u8>>)
    ensures
        r is Some <==> hex_decode_ok(s@, upper),
        r matches Some(v) ==> v@ == hex_decode_bytes(s@),
{
    let n = s.len();
    if n % 2 != 0 {
        return None;
    }
    let mut out: Vec<u8> = Vec::new();
    let mut i: usize = 0;
    let pairs = n / 2;
    while i < pairs
        invariant
            n == s@.len(),
            pairs == s@.len() / 2,
            s@.len() % 2 == 0,
            2 * pairs == s@.len(),
            i <= pairs,
            out@ =~= hex_decode_bytes(s@).take(i as int),
            forall|j: int| 0 <= j < 2 * i ==> hex_nibble_ok(#[trigger] s@[j], upper),
        decreases pairs - i,
    {
        proof {
            assert(2 * i + 2 <= s@.len());
        }
        let hi = match nibble_val(s[2 * i], upper) {
            Some(v) => v,
            None => {
                return None;
            },
        };
        let lo = match nibble_val(s[2 * i + 1], upper) {
            Some(v) => v,
            None => {
                return None;
            },
        };
        out.push(hi * 16 + lo);
        proof {
            assert(out@ =~= hex_decode_bytes(s@).take(i + 1));
        }
        i = i + 1;
    }
    proof {
        assert(out@ =~= hex_decode_bytes(s@));
    }
    Some(out)
}

} // verus!
