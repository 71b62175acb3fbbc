//! Hexadecimal text decoding for fixed-width fields (topics, addresses,
//! key material). A field is an optional `0x`/`0X` prefix followed by
//! exactly two hex digits per byte.

use vstd::prelude::*;
use vstd::slice::slice_subrange;

verus! {

/// The byte is an ASCII hexadecimal digit ('0'..'9', 'a'..'f', 'A'..'F').
pub open spec fn is_hex_digit(b: u8) -> bool {
    (48u8 <= b && b <= 57u8) || (97u8 <= b && b <= 102u8) || (65u8 <= b && b <= 70u8)
}

/// Numeric value of an ASCII hexadecimal digit.
pub open spec fn hex_digit_val(b: u8) -> nat {
    if 48u8 <= b && b <= 57u8 {
        (b - 48u8) as nat
    } else if 97u8 <= b && b <= 102u8 {
        (b - 97u8 + 10) as nat
    } else if 65u8 <= b && b <= 70u8 {
        (b - 65u8 + 10) as nat
    } else {
        0
    }
}

/// The text with a leading `0x` or `0X` removed, if one is present
/// (48 is '0', 120 is 'x', 88 is 'X').
pub open spec fn strip_hex_prefix(s: Seq<u8>) -> Seq<u8> {
    if s.len() >= 2 && s[0] == 48u8 && (s[1] == 120u8 || s[1] == 88u8) {
        s.skip(2)
    } else {
        s
    }
}

/// The text encodes exactly `n` bytes: after the optional prefix it holds
/// `2 * n` hex digits and nothing else.
pub open spec fn valid_fixed_hex(s: Seq<u8>, n: nat) -> bool {
    let d = strip_hex_prefix(s);
    &&& d.len() == 2 * n
    &&& forall|i: int| 0 <= i < d.len() ==> is_hex_digit(#[trigger] d[i])
}

/// The bytes denoted by an even-length digit string, two digits per byte,
/// high digit first.
pub open spec fn hex_bytes(d: Seq<u8>) -> Seq<u8> {
    Seq::new(d.len() / 2, |i: int| (hex_digit_val(d[2 * i]) * 16 + hex_digit_val(d[2 * i + 1])) as u8)
}

/// Value of one digit, or `None` where the byte is no hex digit.
fn hex_digit_value(b: u8) -> (r: Option<u8>)
    ensures
        r is Some <==> is_hex_digit(b),
        is_hex_digit(b) ==> r == Some(hex_digit_val(b) as u8),
{
    if 48u8 <= b && b <= 57u8 {
        Some(b - 48u8)
    } else if 97u8 <= b && b <= 102u8 {
        Some(b - 97u8 + 10)
    } else if 65u8 <= b && b <= 70u8 {
        Some(b - 65u8 + 10)
    } else {
        None
    }
}

/// Decodes a fixed-width hex field of exactly `n` bytes. Returns `None`
/// exactly where the text, after the optional `0x` prefix, is not `2 * n`
/// hex digits.
pub fn parse_fixed_hex(s: &[u8], n: usize) -> (r: Option<Vec<u8>>)
    ensures
        r is Some <==> valid_fixed_hex(s@, n as nat),
        r matches Some(v) ==> v@ == hex_bytes(strip_hex_prefix(s@)) && v@.len() == n,
{
    let d: &[u8] = if s.len() >= 2 && s[0] == 48u8 && (s[1] == 120u8 || s[1] == 88u8) {
        slice_subrange(s, 2, s.len())
    } else {
        s
    };
    assert(d@ =~= strip_hex_prefix(s@));
    if d.len() % 2 != 0 || d.len() / 2 != n {
        assert(!valid_fixed_hex(s@, n as nat));
        return None;
    }
    let ghost gd = d@;
    let ghost gs = s@;
    let mut out: Vec<u8> = Vec::new();
    let mut i: usize = 0;
    while i < n
        invariant
            d@ == gd,
            gs == s@,
            gd == strip_hex_prefix(gs),
            gd.len() == 2 * n,
            gd.len() <= usize::MAX,
            i <= n,
            out@.len() == i,
            forall|j: int| 0 <= j < 2 * i ==> is_hex_digit(#[trigger] gd[j]),
            forall|j: int| 0 <= j < i ==> out@[j] == #[trigger] hex_bytes(gd)[j],
        decreases n - i,
    {
        assert(2 * i + 1 < gd.len());
        let hi = match hex_digit_value(d[2 * i]) {
            Some(v) => v,
            None => {
                assert(!is_hex_digit(gd[2 * i as int]));
                assert(!valid_fixed_hex(gs, n as nat));
                return None;
            },
        };
        let lo = match hex_digit_value(d[2 * i + 1]) {
            Some(v) => v,
            None => {
                assert(!is_hex_digit(gd[2 * i as int + 1]));
                assert(!valid_fixed_hex(gs, n as nat));
                return None;
            },
        };
        assert(hi <= 15 && lo <= 15);
        out.push(hi * 16 + lo);
        i = i + 1;
    }
    assert(out@ =~= hex_bytes(gd));
    Some(out)
}

} // verus!
