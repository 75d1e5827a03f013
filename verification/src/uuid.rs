//! UUID rendering and parsing.
//!
//! On the wire a UUID is 16 bytes: a little-endian u32, two little-endian
//! u16s, and 8 raw bytes. Its canonical text form is the 35-character string
//! `xxxxxxxx-xxxx-xxxx-xxxxxxxxxxxxxxxx` in lowercase hex, with the three
//! leading fields printed most-significant digit first.

use vstd::prelude::*;
use vstd::string::StrSliceExecFns;
use crate::hexstr::{hex_digit_lower, hex_val, lemma_hex_digit_inverse, lemma_nibble_bounds};
use crate::strutil::push_char;

verus! {

/// Index of the wire byte whose hex digits stand at text position `p`
/// (positions 8, 13 and 18 hold dashes and belong to no byte).
pub open spec fn uuid_byte_of_pos(p: int) -> int {
    if p < 8 { 3 - p / 2 }
    else if p < 13 { 5 - (p - 9) / 2 }
    else if p < 18 { 7 - (p - 14) / 2 }
    else { 8 + (p - 19) / 2 }
}

/// Whether text position `p` shows the high nibble of its byte.
pub open spec fn uuid_hi_of_pos(p: int) -> bool {
    if p < 8 { p % 2 == 0 }
    else if p < 13 { (p - 9) % 2 == 0 }
    else if p < 18 { (p - 14) % 2 == 0 }
    else { (p - 19) % 2 == 0 }
}

/// Text position of the high-nibble digit of wire byte `i`.
pub open spec fn uuid_pos_of_byte(i: int) -> int {
    if i < 4 { 6 - 2 * i }
    else if i < 6 { 19 - 2 * i }
    else if i < 8 { 28 - 2 * i }
    else { 2 * i + 3 }
}

/// The canonical text of a 16-byte UUID.
pub open spec fn spec_uuid_chars(b: Seq<u8>) -> Seq<char>
    recommends
        b.len() == 16,
{
    Seq::new(35, |p: int|
        if p == 8 || p == 13 || p == 18 { '-' }
        else {
            let by = b[uuid_byte_of_pos(p)];
            hex_digit_lower(if uuid_hi_of_pos(p) { by >> 4 } else { by & 0xf })
        })
}

/// Parsing of the canonical text form back into the 16 wire bytes; `None`
/// unless the length, the dashes and every digit are in place.
pub open spec fn spec_uuid_parse(cs: Seq<char>) -> Option<Seq<u8>> {
    if cs.len() == 35 && cs[8] == '-' && cs[13] == '-' && cs[18] == '-'
        && (forall|i: int| 0 <= i < 16 ==>
            hex_val(#[trigger] cs[uuid_pos_of_byte(i)]) >= 0 && hex_val(cs[uuid_pos_of_byte(i) + 1]) >= 0) {
        Some(Seq::new(16, |i: int|
            (hex_val(cs[uuid_pos_of_byte(i)]) * 16 + hex_val(cs[uuid_pos_of_byte(i) + 1])) as u8))
    } else {
        None
    }
}

/// A byte is its high nibble times 16 plus its low nibble.
proof fn lemma_byte_from_nibbles()
    by (bit_vector)
    ensures
        forall|b: u8| #![trigger b >> 4u8] (b >> 4u8) * 16 + (b & 0xfu8) == b,
{
}

/// Rendering a 16-byte buffer yields the 35-character canonical form, and
/// parsing that form yields the original bytes.
pub proof fn lemma_uuid_round_trip(b: Seq<u8>)
    requires
        b.len() == 16,
    ensures
        spec_uuid_chars(b).len() == 35,
        spec_uuid_parse(spec_uuid_chars(b)) == Some(b),
{
    let cs = spec_uuid_chars(b);
    lemma_hex_digit_inverse();
    lemma_nibble_bounds();
    lemma_byte_from_nibbles();
    assert forall|i: int| 0 <= i < 16 implies
        hex_val(#[trigger] cs[uuid_pos_of_byte(i)]) >= 0 && hex_val(cs[uuid_pos_of_byte(i) + 1]) >= 0 by {
        let p = uuid_pos_of_byte(i);
        assert(uuid_byte_of_pos(p) == i);
        assert(uuid_byte_of_pos(p + 1) == i);
        assert(uuid_hi_of_pos(p));
        assert(!uuid_hi_of_pos(p + 1));
    }
    let parsed = spec_uuid_parse(cs)->Some_0;
    assert forall|i: int| 0 <= i < 16 implies parsed[i] == b[i] by {
        let p = uuid_pos_of_byte(i);
        assert(uuid_byte_of_pos(p) == i);
        assert(uuid_byte_of_pos(p + 1) == i);
        assert(uuid_hi_of_pos(p));
        assert(!uuid_hi_of_pos(p + 1));
        assert((b[i] >> 4u8) * 16 + (b[i] & 0xfu8) == b[i]);
    }
    assert(parsed =~= b);
}

/// Appends the two lowercase hex digits of `b` to `s`.
fn push_byte_hex(s: &mut String, b: u8)
    ensures
        final(s)@ == old(s)@.push(hex_digit_lower(b >> 4)).push(hex_digit_lower(b & 0xf)),
{
    proof { lemma_nibble_bounds(); }
    let c0 = crate::hexstr::hex_digit_lower_exec(b >> 4);
    let c1 = crate::hexstr::hex_digit_lower_exec(b & 0xf);
    push_char(s, c0);
    push_char(s, c1);
}

/// Renders the 16 wire bytes of a UUID as the canonical 35-character string.
pub fn uuid_render(b: &[u8]) -> (r: String)
    requires
        b@.len() == 16,
    ensures
        r@ == spec_uuid_chars(b@),
{
    let mut s = String::new();
    push_byte_hex(&mut s, b[3]);
    push_byte_hex(&mut s, b[2]);
    push_byte_hex(&mut s, b[1]);
    push_byte_hex(&mut s, b[0]);
    push_char(&mut s, '-');
    push_byte_hex(&mut s, b[5]);
    push_byte_hex(&mut s, b[4]);
    push_char(&mut s, '-');
    push_byte_hex(&mut s, b[7]);
    push_byte_hex(&mut s, b[6]);
    push_char(&mut s, '-');
    let mut i: usize = 8;
    while i < 16
        invariant
            8 <= i <= 16,
            b@.len() == 16,
            s@.len() == 19 + 2 * (i - 8),
            s@ =~= spec_uuid_chars(b@).subrange(0, 19 + 2 * (i - 8)),
        decreases 16 - i,
    {
        push_byte_hex(&mut s, b[i]);
        i = i + 1;
        assert(s@ =~= spec_uuid_chars(b@).subrange(0, 19 + 2 * (i - 8)));
    }
    assert(s@ =~= spec_uuid_chars(b@));
    s
}

/// Text position of the high-nibble digit of wire byte `i`.
fn uuid_pos_exec(i: usize) -> (p: usize)
    requires
        i < 16,
    ensures
        p as int == uuid_pos_of_byte(i as int),
        p + 1 < 35,
{
    if i < 4 { 6 - 2 * i }
    else if i < 6 { 19 - 2 * i }
    else if i < 8 { 28 - 2 * i }
    else { 2 * i + 3 }
}

/// Parses a canonical UUID string into its 16 wire bytes; `None` exactly when
/// the text is not a canonical form.
pub fn uuid_parse(s: &str) -> (r: Option<Vec<u8>>)
    ensures
        r is Some <==> spec_uuid_parse(s@) is Some,
        r matches Some(v) ==> Some(v@) == spec_uuid_parse(s@),
{
    let n = s.unicode_len();
    if n != 35 {
        return None;
    }
    if s.get_char(8) != '-' || s.get_char(13) != '-' || s.get_char(18) != '-' {
        return None;
    }
    let mut out: Vec<u8> = Vec::new();
    let mut i: usize = 0;
    while i < 16
        invariant
            i <= 16,
            s@.len() == 35,
            forall|j: int| 0 <= j < i ==>
                hex_val(#[trigger] s@[uuid_pos_of_byte(j)]) >= 0 && hex_val(s@[uuid_pos_of_byte(j) + 1]) >= 0,
            out@.len() == i,
            forall|j: int| 0 <= j < i ==> out@[j]
                == (hex_val(s@[uuid_pos_of_byte(j)]) * 16 + hex_val(s@[uuid_pos_of_byte(j) + 1])) as u8,
        decreases 16 - i,
    {
        let p = uuid_pos_exec(i);
        let c0 = s.get_char(p);
        let c1 = s.get_char(p + 1);
        let v0 = match crate::hexstr::hex_val_exec(c0) {
            Some(v) => v,
            None => { return None; },
        };
        let v1 = match crate::hexstr::hex_val_exec(c1) {
            Some(v) => v,
            None => { return None; },
        };
        out.push(v0 * 16 + v1);
        i = i + 1;
    }
    proof {
        assert(out@ =~= spec_uuid_parse(s@)->Some_0);
    }
    Some(out)
}

} // verus!
