//! Hex, base64, hashing and command-encryption tests.

use crypto::buffer::{BufferResult, ReadBuffer, WriteBuffer};
use crypto::digest::Digest;
use crypto::mac::Mac;
use loxws::b64::{base64_no_pad, base64_no_pad_decode, base64url_decode};
use loxws::hashing::{hash_password, hash_token, HashAlg};
use loxws::hexstr::{hex_decode, hex_lower, hex_upper};
use loxws::session::{encrypt_command, encrypt_command_ws, Session};

#[test]
fn hex_rendering_exact() {
    assert_eq!(hex_lower(&[0x00, 0x1f, 0xab, 0xff]), "001fabff");
    assert_eq!(hex_upper(&[0x00, 0x1f, 0xab, 0xff]), "001FABFF");
    assert_eq!(hex_lower(&[]), "");
}

#[test]
fn hex_decode_both_cases() {
    assert_eq!(hex_decode("001fABfF").unwrap(), vec![0x00, 0x1f, 0xab, 0xff]);
    assert_eq!(hex_decode("").unwrap(), Vec::<u8>::new());
    assert!(hex_decode("abc").is_none());
    assert!(hex_decode("zz").is_none());
}

#[test]
fn hex_round_trip() {
    let bytes: Vec<u8> = (0u8..=255).collect();
    assert_eq!(hex_decode(&hex_lower(&bytes)).unwrap(), bytes);
    assert_eq!(hex_decode(&hex_upper(&bytes)).unwrap(), bytes);
}

#[test]
fn base64_known_values() {
    assert_eq!(base64_no_pad(b"abc"), "YWJj");
    assert_eq!(base64_no_pad(b"ab"), "YWI");
    assert_eq!(base64_no_pad(b"a"), "YQ");
    assert_eq!(base64_no_pad(b""), "");
    assert_eq!(base64_no_pad_decode("YWJj").unwrap(), b"abc".to_vec());
    assert_eq!(base64_no_pad_decode("TWFu").unwrap(), b"Man".to_vec());
}

#[test]
fn base64_accepts_trailing_padding() {
    // The server may pad; up to two trailing `=` after a partial group are
    // stripped.
    assert_eq!(base64_no_pad_decode("YWI=").unwrap(), b"ab".to_vec());
    assert_eq!(base64_no_pad_decode("YQ==").unwrap(), b"a".to_vec());
    assert_eq!(base64_no_pad_decode("YQ=").unwrap(), b"a".to_vec());
    // Padding after a complete group, stray padding, or over-padding fail.
    assert!(base64_no_pad_decode("YWJj=").is_none());
    assert!(base64_no_pad_decode("a=").is_none());
    assert!(base64_no_pad_decode("=").is_none());
    assert!(base64_no_pad_decode("Y===").is_none());
    assert!(base64_no_pad_decode("Y=WJ").is_none());
}

#[test]
fn base64url_swaps_the_last_two_characters() {
    // 0xfb 0xff forces the sextets 62 and 63: `-` and `_` in the URL-safe
    // alphabet, where `+` and `/` are invalid.
    assert_eq!(base64url_decode("-_8").unwrap(), vec![0xfb, 0xff]);
    assert!(base64url_decode("+/8").is_none());
    assert_eq!(base64_no_pad_decode("+/8").unwrap(), vec![0xfb, 0xff]);
    assert!(base64_no_pad_decode("-_8").is_none());
    assert_eq!(base64url_decode("YWJj").unwrap(), b"abc".to_vec());
    assert_eq!(base64url_decode("YWI=").unwrap(), b"ab".to_vec());
}

#[test]
fn base64_rejects_malformed() {
    // A dangling character cannot carry a byte.
    assert!(base64_no_pad_decode("YWJjZ").is_none());
    // A character outside the alphabet.
    assert!(base64_no_pad_decode("YW!j").is_none());
    // Nonzero bits hidden under the final character.
    assert!(base64_no_pad_decode("YR").is_none());
}

#[test]
fn base64_round_trip_on_wrapped_session_shapes() {
    // Every valid input of the wrapped-session shape is an encoding; decode
    // then re-encode leaves it unchanged.
    for len in 0..40usize {
        let bytes: Vec<u8> = (0..len as u8).map(|b| b.wrapping_mul(37).wrapping_add(5)).collect();
        let x = base64_no_pad(&bytes);
        let decoded = base64_no_pad_decode(&x).unwrap();
        assert_eq!(decoded, bytes);
        assert_eq!(base64_no_pad(&decoded), x);
    }
}

#[test]
fn hash_token_matches_reference_vector() {
    // HMAC-SHA256 with key "Jefe" over a short question (RFC 4231, case 2).
    let mac = hash_token("what do ya want for nothing?", b"Jefe", HashAlg::Sha256);
    assert_eq!(
        hex_lower(&mac),
        "5bdcc146bf60754e6a042426089575c75a003f089d2739839dec58b964ec3843"
    );
}

#[test]
fn hash_token_matches_direct_hmac_sha1() {
    let mut mac = crypto::hmac::Hmac::new(crypto::sha1::Sha1::new(), b"Jefe");
    mac.input(b"what do ya want for nothing?");
    let expected = mac.result().code().to_vec();
    let got = hash_token("what do ya want for nothing?", b"Jefe", HashAlg::Sha1);
    assert_eq!(got, expected);
}

#[test]
fn hash_password_composition() {
    // The inner digest of "password:salt" in uppercase hex, authenticated as
    // "user:HEX" under the key.
    let key = b"0123456789abcdef";
    let got = hash_password("admin", "secret", key, "a1b2", HashAlg::Sha1);

    let mut hasher = crypto::sha1::Sha1::new();
    hasher.input_str("secret:a1b2");
    let inner = hasher.result_str().to_uppercase();
    let mut mac = crypto::hmac::Hmac::new(crypto::sha1::Sha1::new(), key);
    mac.input(format!("admin:{}", inner).as_bytes());
    assert_eq!(got, mac.result().code().to_vec());

    let got256 = hash_password("admin", "secret", key, "a1b2", HashAlg::Sha256);
    let mut hasher = crypto::sha2::Sha256::new();
    hasher.input_str("secret:a1b2");
    let inner = hasher.result_str().to_uppercase();
    let mut mac = crypto::hmac::Hmac::new(crypto::sha2::Sha256::new(), key);
    mac.input(format!("admin:{}", inner).as_bytes());
    assert_eq!(got256, mac.result().code().to_vec());
}

#[test]
fn hashes_are_deterministic() {
    let key = b"k";
    let a = hash_password("u", "p", key, "s", HashAlg::Sha256);
    let b = hash_password("u", "p", key, "s", HashAlg::Sha256);
    assert_eq!(a, b);
    let a = hash_token("t", key, HashAlg::Sha1);
    let b = hash_token("t", key, HashAlg::Sha1);
    assert_eq!(a, b);
}

fn test_session() -> Session {
    let aes_key: Vec<u8> = (0u8..32).collect();
    let aes_iv: Vec<u8> = (100u8..116).collect();
    let salt = vec![0xab, 0xcd];
    Session::from_material(aes_key, aes_iv, salt, b"wrapped".to_vec())
}

fn aes_decrypt(key: &[u8], iv: &[u8], cipher: &[u8]) -> Vec<u8> {
    let mut dec = crypto::aes::cbc_decryptor(
        crypto::aes::KeySize::KeySize256,
        key,
        iv,
        crypto::blockmodes::PkcsPadding,
    );
    let mut out = Vec::new();
    let mut read_buffer = crypto::buffer::RefReadBuffer::new(cipher);
    let mut buffer = [0u8; 4096];
    loop {
        let mut write_buffer = crypto::buffer::RefWriteBuffer::new(&mut buffer);
        let result = dec.decrypt(&mut read_buffer, &mut write_buffer, true).unwrap();
        out.extend(write_buffer.take_read_buffer().take_remaining().iter().cloned());
        if let BufferResult::BufferUnderflow = result {
            return out;
        }
    }
}

#[test]
fn encrypt_command_decrypts_to_salted_plaintext() {
    let session = test_session();
    let cipher = encrypt_command("jdev/sps/io/light/on", &session).unwrap();
    let key: Vec<u8> = (0u8..32).collect();
    let iv: Vec<u8> = (100u8..116).collect();
    let plain = aes_decrypt(&key, &iv, &cipher);
    assert_eq!(plain, b"salt/abcd/jdev/sps/io/light/on\0".to_vec());
    // PKCS7 rounds the 31-byte plaintext up to two blocks.
    assert_eq!(cipher.len(), 32);
}

#[test]
fn encode_session_is_unpadded_base64_of_wrapped_key() {
    let session = Session::from_material(
        (0u8..32).collect(),
        (0u8..16).collect(),
        vec![0, 0],
        b"abc".to_vec(),
    );
    assert_eq!(session.encode_session(), "YWJj");
}

#[test]
fn encrypted_command_line_round_trips() {
    let session = test_session();
    let line = encrypt_command_ws("enc", "jdev/sys/getjwt/x/y/2/u/i", &session).unwrap();
    assert!(line.starts_with("jdev/sys/enc/"));
    let escaped = &line["jdev/sys/enc/".len()..];
    // Undo the form-urlencoded escaping, then the base64, then the cipher.
    let mut b64 = String::new();
    let mut chars = escaped.chars();
    while let Some(c) = chars.next() {
        match c {
            '%' => {
                let hi = chars.next().unwrap().to_digit(16).unwrap();
                let lo = chars.next().unwrap().to_digit(16).unwrap();
                b64.push(char::from_u32(hi * 16 + lo).unwrap());
            }
            '+' => b64.push(' '),
            c => b64.push(c),
        }
    }
    let cipher = base64_no_pad_decode(&b64).unwrap();
    let key: Vec<u8> = (0u8..32).collect();
    let iv: Vec<u8> = (100u8..116).collect();
    let plain = aes_decrypt(&key, &iv, &cipher);
    assert_eq!(plain, b"salt/abcd/jdev/sys/getjwt/x/y/2/u/i\0".to_vec());
}
