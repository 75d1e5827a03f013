//! Salted password hashing and token hashing.
//!
//! `hash_password` first hashes `password:salt`, spells the digest in
//! uppercase hex, and then authenticates `user:HEX` with HMAC under the
//! server-supplied key. `hash_token` authenticates the bearer token directly.
//! The hash algorithm is a closed choice between SHA-1 and SHA-256, fixed by
//! the server's getkey2 reply.

use vstd::prelude::*;
use vstd::string::{StringExecFns, StrSliceExecFns};
use vstd::utf8::encode_utf8;
use crypto::digest::Digest;
use crypto::mac::Mac;
use crate::hexstr::{spec_hex_upper, hex_upper};
use crate::strutil::push_char;

verus! {

/// The SHA-1 digest of a byte sequence.
pub uninterp spec fn sha1_of(data: Seq<u8>) -> Seq<u8>;

/// The SHA-256 digest of a byte sequence.
pub uninterp spec fn sha256_of(data: Seq<u8>) -> Seq<u8>;

/// The HMAC-SHA1 of a message under a key.
pub uninterp spec fn hmac_sha1_of(key: Seq<u8>, msg: Seq<u8>) -> Seq<u8>;

/// The HMAC-SHA256 of a message under a key.
pub uninterp spec fn hmac_sha256_of(key: Seq<u8>, msg: Seq<u8>) -> Seq<u8>;

/// Relies on `crypto::sha1::Sha1` (input/result): the 20-byte SHA-1 digest,
/// a function of the input bytes alone.
#[verifier::external_body]
fn sha1_digest(data: &[u8]) -> (r: Vec<u8>)
    ensures
        r@ == sha1_of(data@),
        r@.len() == 20,
{
    let mut h = crypto::sha1::Sha1::new();
    h.input(data);
    let mut out = vec![0u8; 20];
    h.result(&mut out);
    out
}

/// Relies on `crypto::sha2::Sha256` (input/result): the 32-byte SHA-256
/// digest, a function of the input bytes alone.
#[verifier::external_body]
fn sha256_digest(data: &[u8]) -> (r: Vec<u8>)
    ensures
        r@ == sha256_of(data@),
        r@.len() == 32,
{
    let mut h = crypto::sha2::Sha256::new();
    h.input(data);
    let mut out = vec![0u8; 32];
    h.result(&mut out);
    out
}

/// Relies on `crypto::hmac::Hmac` over SHA-1: the 20-byte HMAC, a function
/// of key and message alone.
#[verifier::external_body]
fn hmac_sha1(key: &[u8], msg: &[u8]) -> (r: Vec<u8>)
    ensures
        r@ == hmac_sha1_of(key@, msg@),
        r@.len() == 20,
{
    let mut mac = crypto::hmac::Hmac::new(crypto::sha1::Sha1::new(), key);
    mac.input(msg);
    mac.result().code().to_vec()
}

/// Relies on `crypto::hmac::Hmac` over SHA-256: the 32-byte HMAC, a function
/// of key and message alone.
#[verifier::external_body]
fn hmac_sha256(key: &[u8], msg: &[u8]) -> (r: Vec<u8>)
    ensures
        r@ == hmac_sha256_of(key@, msg@),
        r@.len() == 32,
{
    let mut mac = crypto::hmac::Hmac::new(crypto::sha2::Sha256::new(), key);
    mac.input(msg);
    mac.result().code().to_vec()
}

/// The two hash algorithms the protocol admits.
#[derive(Debug, Clone, Copy, PartialEq, Eq, Structural)]
pub enum HashAlg {
    Sha1,
    Sha256,
}

/// The algorithm named by a getkey2 `hashAlg` string; `None` otherwise.
pub open spec fn spec_hash_alg_of(cs: Seq<char>) -> Option<HashAlg> {
    if cs == "SHA1"@ {
        Some(HashAlg::Sha1)
    } else if cs == "SHA256"@ {
        Some(HashAlg::Sha256)
    } else {
        None
    }
}

impl HashAlg {
    /// Parses the `hashAlg` field of a getkey2 reply.
    pub fn from_name(s: &String) -> (r: Option<HashAlg>)
        ensures
            r == spec_hash_alg_of(s@),
    {
        let sha1 = String::from_str("SHA1");
        let sha256 = String::from_str("SHA256");
        if *s == sha1 {
            Some(HashAlg::Sha1)
        } else if *s == sha256 {
            Some(HashAlg::Sha256)
        } else {
            None
        }
    }
}

/// The digest of `data` under `alg`.
pub open spec fn spec_digest(alg: HashAlg, data: Seq<u8>) -> Seq<u8> {
    match alg {
        HashAlg::Sha1 => sha1_of(data),
        HashAlg::Sha256 => sha256_of(data),
    }
}

/// The HMAC of `msg` under `key` and `alg`.
pub open spec fn spec_hmac(alg: HashAlg, key: Seq<u8>, msg: Seq<u8>) -> Seq<u8> {
    match alg {
        HashAlg::Sha1 => hmac_sha1_of(key, msg),
        HashAlg::Sha256 => hmac_sha256_of(key, msg),
    }
}

/// The byte width of a digest or HMAC under `alg`.
pub open spec fn spec_hash_len(alg: HashAlg) -> int {
    match alg {
        HashAlg::Sha1 => 20,
        HashAlg::Sha256 => 32,
    }
}

/// The inner uppercase-hex digest of `password:salt`.
pub open spec fn spec_inner_hash(pwd: Seq<char>, salt: Seq<char>, alg: HashAlg) -> Seq<char> {
    spec_hex_upper(spec_digest(alg, encode_utf8(pwd + seq![':'] + salt)))
}

/// The salted, HMAC-authenticated password hash: the HMAC under `key` of
/// `user:HEX_UPPER(H(password:salt))`.
pub open spec fn spec_hash_password(user: Seq<char>, pwd: Seq<char>, key: Seq<u8>, salt: Seq<char>, alg: HashAlg) -> Seq<u8> {
    spec_hmac(alg, key, encode_utf8(user + seq![':'] + spec_inner_hash(pwd, salt, alg)))
}

/// The token hash: the HMAC of the token's bytes under `key`.
pub open spec fn spec_hash_token(token: Seq<char>, key: Seq<u8>, alg: HashAlg) -> Seq<u8> {
    spec_hmac(alg, key, encode_utf8(token))
}

/// Joins `a` and `b` around a colon.
fn join_colon(a: &str, b: &str) -> (r: String)
    ensures
        r@ == a@ + seq![':'] + b@,
{
    let mut s = String::new();
    s.append(a);
    push_char(&mut s, ':');
    s.append(b);
    proof {
        assert(s@ =~= a@ + seq![':'] + b@);
    }
    s
}

/// Computes the salted password hash sent to getjwt: the digest of
/// `password:salt` in uppercase hex, HMAC-authenticated as `user:HEX` under
/// the server's key.
pub fn hash_password(user: &str, pwd: &str, key: &[u8], salt: &str, alg: HashAlg) -> (r: Vec<u8>)
    ensures
        r@ == spec_hash_password(user@, pwd@, key@, salt@, alg),
        r@.len() == spec_hash_len(alg),
{
    let pwd_salt = join_colon(pwd, salt);
    let digest = match alg {
        HashAlg::Sha1 => sha1_digest(pwd_salt.as_str().as_bytes()),
        HashAlg::Sha256 => sha256_digest(pwd_salt.as_str().as_bytes()),
    };
    let inner = hex_upper(digest.as_slice());
    let msg = join_colon(user, inner.as_str());
    match alg {
        HashAlg::Sha1 => hmac_sha1(key, msg.as_str().as_bytes()),
        HashAlg::Sha256 => hmac_sha256(key, msg.as_str().as_bytes()),
    }
}

/// Computes the token hash sent to authwithtoken: the HMAC of the token
/// under the server's key.
pub fn hash_token(token: &str, key: &[u8], alg: HashAlg) -> (r: Vec<u8>)
    ensures
        r@ == spec_hash_token(token@, key@, alg),
        r@.len() == spec_hash_len(alg),
{
    match alg {
        HashAlg::Sha1 => hmac_sha1(key, token.as_bytes()),
        HashAlg::Sha256 => hmac_sha256(key, token.as_bytes()),
    }
}

/// The password hash is a function of its five inputs alone: two results
/// that meet `hash_password`'s contract on the same inputs are equal.
pub proof fn lemma_hash_password_deterministic(
    user: Seq<char>, pwd: Seq<char>, key: Seq<u8>, salt: Seq<char>, alg: HashAlg,
    r1: Seq<u8>, r2: Seq<u8>,
)
    requires
        r1 == spec_hash_password(user, pwd, key, salt, alg),
        r2 == spec_hash_password(user, pwd, key, salt, alg),
    ensures
        r1 == r2,
{
}

/// The token hash is a function of its three inputs alone.
pub proof fn lemma_hash_token_deterministic(
    token: Seq<char>, key: Seq<u8>, alg: HashAlg, r1: Seq<u8>, r2: Seq<u8>,
)
    requires
        r1 == spec_hash_token(token, key, alg),
        r2 == spec_hash_token(token, key, alg),
    ensures
        r1 == r2,
{
}

} // verus!
