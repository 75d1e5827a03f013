//! AES-256-CBC command encryption and the form-urlencoded escaping of its
//! base64 ciphertext.

use vstd::prelude::*;
use crypto::buffer::{ReadBuffer, WriteBuffer};
use crate::err::CryptoError;
use crate::hexstr::hex_digit_upper;

verus! {

/// The AES-256-CBC ciphertext (PKCS7 padding) of a plaintext under a
/// 32-byte key and 16-byte IV.
pub uninterp spec fn aes256_cbc_of(key: Seq<u8>, iv: Seq<u8>, data: Seq<u8>) -> Seq<u8>;

/// Relies on `crypto::aes::cbc_encryptor` with `KeySize256` and
/// `PkcsPadding`: the ciphertext is a function of key, IV and plaintext
/// alone, and on the encrypt side the padding always fills the final block,
/// so the call cannot fail and the output is the plaintext length rounded
/// up to the next multiple of sixteen. The key and IV lengths are what the
/// constructor demands.
#[verifier::external_body]
pub(crate) fn aes256_cbc_encrypt(key: &[u8], iv: &[u8], data: &[u8]) -> (r: Result<Vec<u8>, CryptoError>)
    requires
        key@.len() == 32,
        iv@.len() == 16,
    ensures
        r is Ok,
        r matches Ok(v) ==> v@ == aes256_cbc_of(key@, iv@, data@)
            && v@.len() == ((data@.len() / 16) + 1) * 16,
{
    let mut enc = crypto::aes::cbc_encryptor(
        crypto::aes::KeySize::KeySize256, key, iv, crypto::blockmodes::PkcsPadding);
    let mut out = Vec::<u8>::new();
    let mut read_buffer = crypto::buffer::RefReadBuffer::new(data);
    let mut buffer = [0u8; 4096];
    loop {
        let mut write_buffer = crypto::buffer::RefWriteBuffer::new(&mut buffer);
        let result = enc.encrypt(&mut read_buffer, &mut write_buffer, true)
            .map_err(|_| CryptoError::Cipher)?;
        out.extend(write_buffer.take_read_buffer().take_remaining().iter().cloned());
        if let crypto::buffer::BufferResult::BufferUnderflow = result {
            return Ok(out);
        }
    }
}

/// Whether the form-urlencoded serializer passes a byte through unchanged:
/// `*`, `-`, `.`, `_`, digits and ASCII letters.
pub open spec fn spec_urlenc_unchanged(b: u8) -> bool {
    b == 42 || b == 45 || b == 46 || (48 <= b && b <= 57) || (65 <= b && b <= 90)
        || b == 95 || (97 <= b && b <= 122)
}

/// The characters one byte serializes to: space becomes `+`, the unreserved
/// set stays, everything else is `%` and two uppercase hex digits.
pub open spec fn spec_urlenc_byte(b: u8) -> Seq<char> {
    if b == 32 {
        seq!['+']
    } else if spec_urlenc_unchanged(b) {
        seq![b as char]
    } else {
        seq!['%', hex_digit_upper(b >> 4), hex_digit_upper(b & 0xf)]
    }
}

/// The form-urlencoded serialization of a byte sequence.
pub open spec fn spec_urlenc(bs: Seq<u8>) -> Seq<char>
    decreases bs.len(),
{
    if bs.len() == 0 {
        Seq::empty()
    } else {
        spec_urlenc_byte(bs[0]) + spec_urlenc(bs.drop_first())
    }
}

/// Relies on `form_urlencoded::byte_serialize`: space to `+`, the bytes
/// `*-._`, digits and ASCII letters unchanged, every other byte percent-
/// escaped with uppercase hex.
#[verifier::external_body]
pub(crate) fn form_urlencode(b: &[u8]) -> (r: String)
    ensures
        r@ == spec_urlenc(b@),
{
    url::form_urlencoded::byte_serialize(b).collect()
}

} // verus!
