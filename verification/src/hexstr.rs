//! Hexadecimal rendering and parsing.
//!
//! The protocol spells key material, salts and hashes in hex: lowercase for
//! session data and UUIDs, uppercase for the inner password hash. A hex digit
//! is simple enough to state outright, so these are verified functions rather
//! than calls into an encoding crate.

use vstd::prelude::*;
use vstd::string::StrSliceExecFns;
use crate::strutil::push_char;

verus! {

/// The lowercase hex digit for a nibble.
pub open spec fn hex_digit_lower(n: u8) -> char {
    if n == 0 { '0' } else if n == 1 { '1' } else if n == 2 { '2' }
    else if n == 3 { '3' } else if n == 4 { '4' } else if n == 5 { '5' }
    else if n == 6 { '6' } else if n == 7 { '7' } else if n == 8 { '8' }
    else if n == 9 { '9' } else if n == 10 { 'a' } else if n == 11 { 'b' }
    else if n == 12 { 'c' } else if n == 13 { 'd' } else if n == 14 { 'e' }
    else { 'f' }
}

/// The uppercase hex digit for a nibble.
pub open spec fn hex_digit_upper(n: u8) -> char {
    if n == 0 { '0' } else if n == 1 { '1' } else if n == 2 { '2' }
    else if n == 3 { '3' } else if n == 4 { '4' } else if n == 5 { '5' }
    else if n == 6 { '6' } else if n == 7 { '7' } else if n == 8 { '8' }
    else if n == 9 { '9' } else if n == 10 { 'A' } else if n == 11 { 'B' }
    else if n == 12 { 'C' } else if n == 13 { 'D' } else if n == 14 { 'E' }
    else { 'F' }
}

/// The numeric value of a hex digit, or -1 for any other character.
/// Both digit cases are accepted: hex-spelled keys may arrive in either.
pub open spec fn hex_val(c: char) -> int {
    if c == '0' { 0 } else if c == '1' { 1 } else if c == '2' { 2 }
    else if c == '3' { 3 } else if c == '4' { 4 } else if c == '5' { 5 }
    else if c == '6' { 6 } else if c == '7' { 7 } else if c == '8' { 8 }
    else if c == '9' { 9 }
    else if c == 'a' || c == 'A' { 10 } else if c == 'b' || c == 'B' { 11 }
    else if c == 'c' || c == 'C' { 12 } else if c == 'd' || c == 'D' { 13 }
    else if c == 'e' || c == 'E' { 14 } else if c == 'f' || c == 'F' { 15 }
    else { -1 }
}

/// The nibble of `bytes` that the hex character at position `i` shows:
/// high nibble first.
pub open spec fn hex_nibble(bytes: Seq<u8>, i: int) -> u8 {
    if i % 2 == 0 { bytes[i / 2] >> 4 } else { bytes[i / 2] & 0xf }
}

/// Lowercase hex of a byte sequence: two digits per byte, high nibble first.
pub open spec fn spec_hex_lower(bytes: Seq<u8>) -> Seq<char> {
    Seq::new((2 * bytes.len()) as nat, |i: int| hex_digit_lower(hex_nibble(bytes, i)))
}

/// Uppercase hex of a byte sequence.
pub open spec fn spec_hex_upper(bytes: Seq<u8>) -> Seq<char> {
    Seq::new((2 * bytes.len()) as nat, |i: int| hex_digit_upper(hex_nibble(bytes, i)))
}

/// Hex parsing: defined exactly on char sequences of even length made of hex
/// digits, yielding one byte per digit pair.
pub open spec fn spec_hex_decode(cs: Seq<char>) -> Option<Seq<u8>> {
    if cs.len() % 2 == 0 && (forall|i: int| 0 <= i < cs.len() ==> hex_val(cs[i]) >= 0) {
        Some(Seq::new((cs.len() / 2) as nat, |i: int| (hex_val(cs[2 * i]) * 16 + hex_val(cs[2 * i + 1])) as u8))
    } else {
        None
    }
}

/// Both nibbles of a byte are below 16.
pub proof fn lemma_nibble_bounds()
    by (bit_vector)
    ensures
        forall|b: u8| #![trigger b >> 4u8] b >> 4u8 < 16 && b & 0xfu8 < 16,
{
}

/// Reading back the digit a nibble was rendered to yields the nibble.
pub proof fn lemma_hex_digit_inverse()
    ensures
        forall|n: u8| n < 16 ==> #[trigger] hex_val(hex_digit_lower(n)) == n,
        forall|n: u8| n < 16 ==> #[trigger] hex_val(hex_digit_upper(n)) == n,
{
}

pub(crate) fn hex_digit_lower_exec(n: u8) -> (c: char)
    requires
        n < 16,
    ensures
        c == hex_digit_lower(n),
{
    match n {
        0 => '0', 1 => '1', 2 => '2', 3 => '3', 4 => '4', 5 => '5',
        6 => '6', 7 => '7', 8 => '8', 9 => '9', 10 => 'a', 11 => 'b',
        12 => 'c', 13 => 'd', 14 => 'e', _ => 'f',
    }
}

pub(crate) fn hex_digit_upper_exec(n: u8) -> (c: char)
    requires
        n < 16,
    ensures
        c == hex_digit_upper(n),
{
    match n {
        0 => '0', 1 => '1', 2 => '2', 3 => '3', 4 => '4', 5 => '5',
        6 => '6', 7 => '7', 8 => '8', 9 => '9', 10 => 'A', 11 => 'B',
        12 => 'C', 13 => 'D', 14 => 'E', _ => 'F',
    }
}

pub(crate) fn hex_val_exec(c: char) -> (v: Option<u8>)
    ensures
        v is Some <==> hex_val(c) >= 0,
        v matches Some(x) ==> x == hex_val(c),
{
    match c {
        '0' => Some(0), '1' => Some(1), '2' => Some(2), '3' => Some(3),
        '4' => Some(4), '5' => Some(5), '6' => Some(6), '7' => Some(7),
        '8' => Some(8), '9' => Some(9),
        'a' | 'A' => Some(10), 'b' | 'B' => Some(11), 'c' | 'C' => Some(12),
        'd' | 'D' => Some(13), 'e' | 'E' => Some(14), 'f' | 'F' => Some(15),
        _ => None,
    }
}

/// Renders `bytes` as lowercase hex.
pub fn hex_lower(bytes: &[u8]) -> (r: String)
    ensures
        r@ == spec_hex_lower(bytes@),
{
    let mut s = String::new();
    let mut i: usize = 0;
    while i < bytes.len()
        invariant
            i <= bytes.len(),
            s@ =~= spec_hex_lower(bytes@).subrange(0, 2 * i as int),
        decreases bytes.len() - i,
    {
        let b = bytes[i];
        proof { lemma_nibble_bounds(); }
        let c0 = hex_digit_lower_exec(b >> 4);
        let c1 = hex_digit_lower_exec(b & 0xf);
        push_char(&mut s, c0);
        push_char(&mut s, c1);
        i = i + 1;
        assert(s@ =~= spec_hex_lower(bytes@).subrange(0, 2 * i as int));
    }
    assert(s@ =~= spec_hex_lower(bytes@));
    s
}

/// Renders `bytes` as uppercase hex.
pub fn hex_upper(bytes: &[u8]) -> (r: String)
    ensures
        r@ == spec_hex_upper(bytes@),
{
    let mut s = String::new();
    let mut i: usize = 0;
    while i < bytes.len()
        invariant
            i <= bytes.len(),
            s@ =~= spec_hex_upper(bytes@).subrange(0, 2 * i as int),
        decreases bytes.len() - i,
    {
        let b = bytes[i];
        proof { lemma_nibble_bounds(); }
        let c0 = hex_digit_upper_exec(b >> 4);
        let c1 = hex_digit_upper_exec(b & 0xf);
        push_char(&mut s, c0);
        push_char(&mut s, c1);
        i = i + 1;
        assert(s@ =~= spec_hex_upper(bytes@).subrange(0, 2 * i as int));
    }
    assert(s@ =~= spec_hex_upper(bytes@));
    s
}

/// Parses a hex string into bytes; `None` exactly when the length is odd or
/// a character is not a hex digit.
pub fn hex_decode(s: &str) -> (r: Option<Vec<u8>>)
    ensures
        r is Some <==> spec_hex_decode(s@) is Some,
        r matches Some(v) ==> Some(v@) == spec_hex_decode(s@),
{
    let n = s.unicode_len();
    if n % 2 != 0 {
        return None;
    }
    let mut out: Vec<u8> = Vec::new();
    let mut i: usize = 0;
    while i < n / 2
        invariant
            n == s@.len(),
            n % 2 == 0,
            i <= n / 2,
            forall|j: int| 0 <= j < 2 * i ==> hex_val(s@[j]) >= 0,
            out@.len() == i,
            forall|j: int| 0 <= j < i ==> out@[j] == (hex_val(s@[2 * j]) * 16 + hex_val(s@[2 * j + 1])) as u8,
        decreases n / 2 - i,
    {
        let c0 = s.get_char(2 * i);
        let c1 = s.get_char(2 * i + 1);
        let v0 = match hex_val_exec(c0) {
            Some(v) => v,
            None => { return None; },
        };
        let v1 = match hex_val_exec(c1) {
            Some(v) => v,
            None => { return None; },
        };
        out.push(v0 * 16 + v1);
        i = i + 1;
    }
    proof {
        let cs = s@;
        assert(forall|j: int| 0 <= j < cs.len() ==> hex_val(cs[j]) >= 0);
        assert(out@ =~= spec_hex_decode(cs)->Some_0);
    }
    Some(out)
}

} // verus!
