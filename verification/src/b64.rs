//! Base64, standard alphabet, without padding.
//!
//! The wrapped session key and every encrypted command travel as unpadded
//! standard-alphabet base64. Encoding and decoding are done by the `base64`
//! crate; the functions here give those calls exact contracts over the spec
//! functions below, and the round trip of the two is proved.

use vstd::prelude::*;
use vstd::arithmetic::div_mod::{lemma_fundamental_div_mod, lemma_fundamental_div_mod_converse};

verus! {

/// The character of the standard base64 alphabet for a sextet.
pub open spec fn spec_b64_char(n: int) -> char {
    if n == 0 { 'A' }
    else if n == 1 { 'B' }
    else if n == 2 { 'C' }
    else if n == 3 { 'D' }
    else if n == 4 { 'E' }
    else if n == 5 { 'F' }
    else if n == 6 { 'G' }
    else if n == 7 { 'H' }
    else if n == 8 { 'I' }
    else if n == 9 { 'J' }
    else if n == 10 { 'K' }
    else if n == 11 { 'L' }
    else if n == 12 { 'M' }
    else if n == 13 { 'N' }
    else if n == 14 { 'O' }
    else if n == 15 { 'P' }
    else if n == 16 { 'Q' }
    else if n == 17 { 'R' }
    else if n == 18 { 'S' }
    else if n == 19 { 'T' }
    else if n == 20 { 'U' }
    else if n == 21 { 'V' }
    else if n == 22 { 'W' }
    else if n == 23 { 'X' }
    else if n == 24 { 'Y' }
    else if n == 25 { 'Z' }
    else if n == 26 { 'a' }
    else if n == 27 { 'b' }
    else if n == 28 { 'c' }
    else if n == 29 { 'd' }
    else if n == 30 { 'e' }
    else if n == 31 { 'f' }
    else if n == 32 { 'g' }
    else if n == 33 { 'h' }
    else if n == 34 { 'i' }
    else if n == 35 { 'j' }
    else if n == 36 { 'k' }
    else if n == 37 { 'l' }
    else if n == 38 { 'm' }
    else if n == 39 { 'n' }
    else if n == 40 { 'o' }
    else if n == 41 { 'p' }
    else if n == 42 { 'q' }
    else if n == 43 { 'r' }
    else if n == 44 { 's' }
    else if n == 45 { 't' }
    else if n == 46 { 'u' }
    else if n == 47 { 'v' }
    else if n == 48 { 'w' }
    else if n == 49 { 'x' }
    else if n == 50 { 'y' }
    else if n == 51 { 'z' }
    else if n == 52 { '0' }
    else if n == 53 { '1' }
    else if n == 54 { '2' }
    else if n == 55 { '3' }
    else if n == 56 { '4' }
    else if n == 57 { '5' }
    else if n == 58 { '6' }
    else if n == 59 { '7' }
    else if n == 60 { '8' }
    else if n == 61 { '9' }
    else if n == 62 { '+' }
    else if n == 63 { '/' }
    else { '=' }
}

/// The sextet a character stands for, or -1 outside the alphabet.
pub open spec fn spec_b64_val(c: char) -> int {
    if c == 'A' { 0 }
    else if c == 'B' { 1 }
    else if c == 'C' { 2 }
    else if c == 'D' { 3 }
    else if c == 'E' { 4 }
    else if c == 'F' { 5 }
    else if c == 'G' { 6 }
    else if c == 'H' { 7 }
    else if c == 'I' { 8 }
    else if c == 'J' { 9 }
    else if c == 'K' { 10 }
    else if c == 'L' { 11 }
    else if c == 'M' { 12 }
    else if c == 'N' { 13 }
    else if c == 'O' { 14 }
    else if c == 'P' { 15 }
    else if c == 'Q' { 16 }
    else if c == 'R' { 17 }
    else if c == 'S' { 18 }
    else if c == 'T' { 19 }
    else if c == 'U' { 20 }
    else if c == 'V' { 21 }
    else if c == 'W' { 22 }
    else if c == 'X' { 23 }
    else if c == 'Y' { 24 }
    else if c == 'Z' { 25 }
    else if c == 'a' { 26 }
    else if c == 'b' { 27 }
    else if c == 'c' { 28 }
    else if c == 'd' { 29 }
    else if c == 'e' { 30 }
    else if c == 'f' { 31 }
    else if c == 'g' { 32 }
    else if c == 'h' { 33 }
    else if c == 'i' { 34 }
    else if c == 'j' { 35 }
    else if c == 'k' { 36 }
    else if c == 'l' { 37 }
    else if c == 'm' { 38 }
    else if c == 'n' { 39 }
    else if c == 'o' { 40 }
    else if c == 'p' { 41 }
    else if c == 'q' { 42 }
    else if c == 'r' { 43 }
    else if c == 's' { 44 }
    else if c == 't' { 45 }
    else if c == 'u' { 46 }
    else if c == 'v' { 47 }
    else if c == 'w' { 48 }
    else if c == 'x' { 49 }
    else if c == 'y' { 50 }
    else if c == 'z' { 51 }
    else if c == '0' { 52 }
    else if c == '1' { 53 }
    else if c == '2' { 54 }
    else if c == '3' { 55 }
    else if c == '4' { 56 }
    else if c == '5' { 57 }
    else if c == '6' { 58 }
    else if c == '7' { 59 }
    else if c == '8' { 60 }
    else if c == '9' { 61 }
    else if c == '+' { 62 }
    else if c == '/' { 63 }
    else { -1 }
}

/// Unpadded encoded length of `n` bytes.
pub open spec fn b64_encode_len(n: int) -> int {
    4 * (n / 3) + (if n % 3 == 0 { 0int } else if n % 3 == 1 { 2int } else { 3int })
}

/// The sextet shown by output character `i`.
pub open spec fn b64_sextet(s: Seq<u8>, i: int) -> u8 {
    let k = i / 4;
    let j = i % 4;
    let b0: u8 = if 3 * k < s.len() { s[3 * k] } else { 0 };
    let b1: u8 = if 3 * k + 1 < s.len() { s[3 * k + 1] } else { 0 };
    let b2: u8 = if 3 * k + 2 < s.len() { s[3 * k + 2] } else { 0 };
    if j == 0 { b0 >> 2 }
    else if j == 1 { ((b0 & 3) << 4) | (b1 >> 4) }
    else if j == 2 { ((b1 & 15) << 2) | (b2 >> 6) }
    else { b2 & 63 }
}

/// Unpadded base64 of a byte sequence.
pub open spec fn spec_b64_encode(s: Seq<u8>) -> Seq<char> {
    Seq::new(b64_encode_len(s.len() as int) as nat, |i: int| spec_b64_char(b64_sextet(s, i) as int))
}

/// Decoded length of `m` unpadded characters.
pub open spec fn b64_decode_len(m: int) -> int {
    3 * (m / 4) + (if m % 4 == 2 { 1int } else if m % 4 == 3 { 2int } else { 0int })
}

/// The sextet value of character `idx`, 0 past the end.
pub open spec fn b64_val_or0(cs: Seq<char>, idx: int) -> u8 {
    if 0 <= idx < cs.len() && 0 <= spec_b64_val(cs[idx]) < 64 {
        spec_b64_val(cs[idx]) as u8
    } else {
        0
    }
}

/// The byte rebuilt at output position `i`.
pub open spec fn b64_byte(cs: Seq<char>, i: int) -> u8 {
    let k = i / 3;
    let j = i % 3;
    let v1 = b64_val_or0(cs, 4 * k + 1);
    let v2 = b64_val_or0(cs, 4 * k + 2);
    if j == 0 { (b64_val_or0(cs, 4 * k) << 2) | (v1 >> 4) }
    else if j == 1 { ((v1 & 15) << 4) | (v2 >> 2) }
    else { ((v2 & 3) << 6) | b64_val_or0(cs, 4 * k + 3) }
}

/// Strict unpadded decode: rejects a dangling character, any character
/// outside the alphabet, and nonzero bits hidden under the final character.
pub open spec fn spec_b64_decode(cs: Seq<char>) -> Option<Seq<u8>> {
    let m = cs.len() as int;
    if m % 4 == 1 {
        None
    } else if !(forall|i: int| 0 <= i < m ==> 0 <= #[trigger] spec_b64_val(cs[i]) < 64) {
        None
    } else if m % 4 == 2 && b64_val_or0(cs, m - 1) & 15 != 0 {
        None
    } else if m % 4 == 3 && b64_val_or0(cs, m - 1) & 3 != 0 {
        None
    } else {
        Some(Seq::new(b64_decode_len(m) as nat, |i: int| b64_byte(cs, i)))
    }
}

/// Whether a padding character occurs anywhere.
pub open spec fn spec_has_pad(cs: Seq<char>) -> bool {
    exists|i: int| 0 <= i < cs.len() && cs[i] == '='
}

/// Padding acceptance: up to two trailing `=` are allowed, only after a
/// partial final group, and only when they do not leave a dangling length;
/// the rest of the text must be padding-free. Yields that rest.
pub open spec fn strip_pad_ok(cs: Seq<char>) -> Option<Seq<char>> {
    let p: int = if cs.len() >= 1 && cs[cs.len() - 1] == '=' {
        if cs.len() >= 2 && cs[cs.len() - 2] == '=' { 2 } else { 1 }
    } else {
        0
    };
    let core = cs.subrange(0, cs.len() - p);
    if spec_has_pad(core) {
        None
    } else if p > 0 && !(core.len() % 4 == 2 || core.len() % 4 == 3) {
        None
    } else if (core.len() + p) % 4 == 1 {
        None
    } else {
        Some(core)
    }
}

/// Decode with optional trailing padding: the padding is checked and
/// stripped, then the rest decodes as unpadded text.
pub open spec fn spec_b64_decode_padded(cs: Seq<char>) -> Option<Seq<u8>> {
    match strip_pad_ok(cs) {
        Some(core) => spec_b64_decode(core),
        None => None,
    }
}

/// On padding-free text the padding layer is the identity: it strips
/// nothing, and refuses only the dangling length the unpadded decode also
/// refuses.
pub proof fn lemma_strip_pad_nopad(cs: Seq<char>)
    requires
        !spec_has_pad(cs),
    ensures
        strip_pad_ok(cs) == if cs.len() % 4 == 1 { None::<Seq<char>> } else { Some(cs) },
{
    if cs.len() >= 1 && cs[cs.len() - 1] == '=' {
        assert(spec_has_pad(cs));
    }
    assert(cs.subrange(0, cs.len() as int) =~= cs);
}

/// The sextet a character stands for in the URL-safe alphabet, which swaps
/// `+` and `/` for `-` and `_`.
pub open spec fn spec_b64url_val(c: char) -> int {
    if c == '-' { 62 }
    else if c == '_' { 63 }
    else if c == '+' || c == '/' { -1 }
    else { spec_b64_val(c) }
}

/// The URL-safe sextet value of character `idx`, 0 past the end.
pub open spec fn b64url_val_or0(cs: Seq<char>, idx: int) -> u8 {
    if 0 <= idx < cs.len() && 0 <= spec_b64url_val(cs[idx]) < 64 {
        spec_b64url_val(cs[idx]) as u8
    } else {
        0
    }
}

/// The byte rebuilt at output position `i`, URL-safe alphabet.
pub open spec fn b64url_byte(cs: Seq<char>, i: int) -> u8 {
    let k = i / 3;
    let j = i % 3;
    let v1 = b64url_val_or0(cs, 4 * k + 1);
    let v2 = b64url_val_or0(cs, 4 * k + 2);
    if j == 0 { (b64url_val_or0(cs, 4 * k) << 2) | (v1 >> 4) }
    else if j == 1 { ((v1 & 15) << 4) | (v2 >> 2) }
    else { ((v2 & 3) << 6) | b64url_val_or0(cs, 4 * k + 3) }
}

/// Strict unpadded decode over the URL-safe alphabet.
pub open spec fn spec_b64url_decode(cs: Seq<char>) -> Option<Seq<u8>> {
    let m = cs.len() as int;
    if m % 4 == 1 {
        None
    } else if !(forall|i: int| 0 <= i < m ==> 0 <= #[trigger] spec_b64url_val(cs[i]) < 64) {
        None
    } else if m % 4 == 2 && b64url_val_or0(cs, m - 1) & 15 != 0 {
        None
    } else if m % 4 == 3 && b64url_val_or0(cs, m - 1) & 3 != 0 {
        None
    } else {
        Some(Seq::new(b64_decode_len(m) as nat, |i: int| b64url_byte(cs, i)))
    }
}

/// URL-safe decode with optional trailing padding.
pub open spec fn spec_b64url_decode_padded(cs: Seq<char>) -> Option<Seq<u8>> {
    match strip_pad_ok(cs) {
        Some(core) => spec_b64url_decode(core),
        None => None,
    }
}

/// Reading back the character a sextet was rendered to yields the sextet.
proof fn lemma_b64_char_val()
    ensures
        forall|n: int| 0 <= n < 64 ==> #[trigger] spec_b64_val(spec_b64_char(n)) == n,
{
}

/// Bit facts tying the four sextets of a byte triple back to the bytes.
proof fn lemma_b64_bits(b0: u8, b1: u8, b2: u8)
    by (bit_vector)
    ensures
        b0 >> 2 < 64,
        ((b0 & 3) << 4) | (b1 >> 4) < 64,
        ((b1 & 15) << 2) | (b2 >> 6) < 64,
        b2 & 63 < 64,
        ((b0 >> 2) << 2) | ((((b0 & 3) << 4) | (b1 >> 4)) >> 4) == b0,
        (((((b0 & 3) << 4) | (b1 >> 4)) & 15) << 4) | (((((b1 & 15) << 2) | (b2 >> 6))) >> 2) == b1,
        (((((b1 & 15) << 2) | (b2 >> 6)) & 3) << 6) | (b2 & 63) == b2,
        b1 == 0 ==> (((b0 & 3) << 4) | (b1 >> 4)) & 15 == 0,
        b2 == 0 ==> (((b1 & 15) << 2) | (b2 >> 6)) & 3 == 0,
{
}

/// Group bytes used by the sextets of group `k`.
spec fn b64_group_byte(s: Seq<u8>, idx: int) -> u8 {
    if 0 <= idx < s.len() { s[idx] } else { 0 }
}

/// Decoding an unpadded encoding yields the original bytes, for every byte
/// sequence: the two spec functions form a round trip, and the encoding
/// never contains padding.
pub proof fn lemma_b64_round_trip(s: Seq<u8>)
    ensures
        spec_b64_decode(spec_b64_encode(s)) == Some(s),
        !spec_has_pad(spec_b64_encode(s)),
{
    let n = s.len() as int;
    let cs = spec_b64_encode(s);
    let m = cs.len() as int;
    let q = n / 3;
    let t = n % 3;
    lemma_fundamental_div_mod(n, 3);
    let tail: int = if t == 0 { 0 } else if t == 1 { 2 } else { 3 };
    assert(m == 4 * q + tail);
    lemma_fundamental_div_mod_converse(m, 4, q, tail);
    lemma_b64_char_val();

    // Each output character shows a sextet below 64, so it is an alphabet
    // character and never '='.
    assert forall|i: int| 0 <= i < m implies 0 <= #[trigger] spec_b64_val(cs[i]) < 64 by {
        let k = i / 4;
        let j = i % 4;
        lemma_fundamental_div_mod(i, 4);
        lemma_b64_bits(b64_group_byte(s, 3 * k), b64_group_byte(s, 3 * k + 1), b64_group_byte(s, 3 * k + 2));
        assert(b64_sextet(s, i) < 64);
        assert(cs[i] == spec_b64_char(b64_sextet(s, i) as int));
    }
    assert forall|i: int| 0 <= i < m implies cs[i] != '=' by {
        assert(0 <= spec_b64_val(cs[i]) < 64);
        assert(spec_b64_val('=') == -1);
    }
    assert(!spec_has_pad(cs));

    // The final character hides no bits.
    if t == 1 {
        let i = m - 1;
        assert(i == 4 * q + 1);
        lemma_fundamental_div_mod_converse(i, 4, q, 1);
        let b0 = b64_group_byte(s, 3 * q);
        let b1 = b64_group_byte(s, 3 * q + 1);
        let b2 = b64_group_byte(s, 3 * q + 2);
        assert(b1 == 0 && b2 == 0);
        lemma_b64_bits(b0, b1, b2);
        assert(b64_val_or0(cs, i) == b64_sextet(s, i));
        assert(b64_val_or0(cs, i) & 15 == 0);
    }
    if t == 2 {
        let i = m - 1;
        assert(i == 4 * q + 2);
        lemma_fundamental_div_mod_converse(i, 4, q, 2);
        let b0 = b64_group_byte(s, 3 * q);
        let b1 = b64_group_byte(s, 3 * q + 1);
        let b2 = b64_group_byte(s, 3 * q + 2);
        assert(b2 == 0);
        lemma_b64_bits(b0, b1, b2);
        assert(b64_val_or0(cs, i) == b64_sextet(s, i));
        assert(b64_val_or0(cs, i) & 3 == 0);
    }

    // The decoded length is the original length.
    assert(b64_decode_len(m) == n);

    // Every byte is rebuilt exactly.
    let decoded = spec_b64_decode(cs)->Some_0;
    assert forall|i: int| 0 <= i < n implies decoded[i] == s[i] by {
        let k = i / 3;
        let j = i % 3;
        lemma_fundamental_div_mod(i, 3);
        let b0 = b64_group_byte(s, 3 * k);
        let b1 = b64_group_byte(s, 3 * k + 1);
        let b2 = b64_group_byte(s, 3 * k + 2);
        lemma_b64_bits(b0, b1, b2);
        // The four character slots of group k, as far as they exist.
        assert forall|j2: int| 0 <= j2 < 4 && 4 * k + j2 < m implies
            #[trigger] b64_val_or0(cs, 4 * k + j2) == b64_sextet(s, 4 * k + j2) by {
            lemma_fundamental_div_mod_converse(4 * k + j2, 4, k, j2);
            assert(b64_sextet(s, 4 * k + j2) < 64);
            assert(cs[4 * k + j2] == spec_b64_char(b64_sextet(s, 4 * k + j2) as int));
        }
        // Characters past the end stand for zero sextets, and so do the
        // default bytes behind them.
        if k < q {
            assert(4 * k + 3 < m);
        } else {
            assert(k == q);
            lemma_fundamental_div_mod_converse(i, 3, k, j);
        }
        assert(decoded[i] == b64_byte(cs, i));
        if j == 0 {
            assert(b64_byte(cs, i) == b0);
        } else if j == 1 {
            assert(b64_byte(cs, i) == b1);
        } else {
            assert(b64_byte(cs, i) == b2);
        }
    }
    assert(decoded =~= s);
}

/// Relies on `base64::encode_config` with the `STANDARD_NO_PAD` config:
/// renders the unpadded standard-alphabet encoding of the input bytes.
#[verifier::external_body]
fn b64_encode_exec(b: &[u8]) -> (r: String)
    ensures
        r@ == spec_b64_encode(b@),
{
    base64::encode_config(b, base64::STANDARD_NO_PAD)
}

/// Relies on `base64::decode` (standard alphabet, strict trailing bits):
/// succeeds exactly on well-formed base64 whose only padding is up to two
/// trailing `=` after a partial final group, and returns the decoded bytes
/// of the text before the padding.
#[verifier::external_body]
fn b64_decode_exec(s: &str) -> (r: Option<Vec<u8>>)
    ensures
        r is Some <==> spec_b64_decode_padded(s@) is Some,
        r matches Some(v) ==> Some(v@) == spec_b64_decode_padded(s@),
{
    base64::decode(s).ok()
}

/// Relies on `base64::decode_config` with the `URL_SAFE` config: as the
/// standard decode, over the alphabet that swaps `+`/`/` for `-`/`_`.
#[verifier::external_body]
fn b64url_decode_exec(s: &str) -> (r: Option<Vec<u8>>)
    ensures
        r is Some <==> spec_b64url_decode_padded(s@) is Some,
        r matches Some(v) ==> Some(v@) == spec_b64url_decode_padded(s@),
{
    base64::decode_config(s, base64::URL_SAFE).ok()
}

/// Unpadded standard base64 of `bytes`: the form the wrapped session key
/// and encrypted commands travel in.
pub fn base64_no_pad(bytes: &[u8]) -> (r: String)
    ensures
        r@ == spec_b64_encode(bytes@),
{
    b64_encode_exec(bytes)
}

/// Decodes standard base64, tolerating up to two trailing `=`; on
/// padding-free input, `None` exactly when the text is not a well-formed
/// unpadded encoding.
pub fn base64_no_pad_decode(s: &str) -> (r: Option<Vec<u8>>)
    ensures
        r is Some <==> spec_b64_decode_padded(s@) is Some,
        r matches Some(v) ==> Some(v@) == spec_b64_decode_padded(s@),
        !spec_has_pad(s@) ==> (r is Some <==> spec_b64_decode(s@) is Some),
        r matches Some(v) ==> (!spec_has_pad(s@) ==> Some(v@) == spec_b64_decode(s@)),
{
    let r = b64_decode_exec(s);
    proof {
        if !spec_has_pad(s@) {
            lemma_strip_pad_nopad(s@);
        }
    }
    r
}

/// Decodes URL-safe base64 (the JWT segment form), tolerating up to two
/// trailing `=`.
pub fn base64url_decode(s: &str) -> (r: Option<Vec<u8>>)
    ensures
        r is Some <==> spec_b64url_decode_padded(s@) is Some,
        r matches Some(v) ==> Some(v@) == spec_b64url_decode_padded(s@),
{
    b64url_decode_exec(s)
}

/// Re-encoding the decode of a wrapped-session encoding yields it unchanged:
/// every valid input of that shape is the encoding of some byte sequence,
/// and the two spec functions form a round trip.
pub proof fn lemma_b64_encode_of_decode(x: Seq<char>, s: Seq<u8>)
    requires
        x == spec_b64_encode(s),
    ensures
        spec_b64_decode(x) is Some,
        spec_b64_encode(spec_b64_decode(x)->Some_0) == x,
{
    lemma_b64_round_trip(s);
}

} // verus!
