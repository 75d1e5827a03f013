//! Session establishment and command encryption.
//!
//! A session is created before key exchange: 32 random key bytes, 16 random
//! IV bytes and 2 random salt bytes, plus the RSA-PKCS1v1.5 encryption of
//! `hex(key):hex(iv)` under the server certificate's public key. Once the
//! server accepts the key exchange, the session encrypts outbound commands
//! with AES-256-CBC.

use vstd::prelude::*;
use vstd::string::{StringExecFns, StrSliceExecFns};
use vstd::utf8::encode_utf8;
use crate::b64::{spec_b64_encode, base64_no_pad};
use crate::cipher::{aes256_cbc_of, aes256_cbc_encrypt, spec_urlenc, form_urlencode};
use crate::err::{CryptoError, X509CertError};
use crate::hexstr::{spec_hex_lower, hex_lower};
use crate::strutil::push_char;

verus! {

/// The server's RSA public key, as parsed by the `rsa` crate; opaque here.
#[verifier::external_type_specification]
#[verifier::external_body]
pub struct ExRsaPublicKey(rsa::RsaPublicKey);

/// The DER contents of the first PEM block of a certificate text, if it
/// parses as PEM.
pub uninterp spec fn pem_der_of(cert: Seq<char>) -> Option<Seq<u8>>;

/// Whether a DER blob parses as ASN.1.
pub uninterp spec fn asn1_parses(der: Seq<u8>) -> bool;

/// The payload of the bit string that ends the outer ASN.1 sequence of a
/// parsed DER blob; `None` when the first block is not a sequence or its
/// last element is not a bit string.
pub uninterp spec fn asn1_last_bitstring_of(der: Seq<u8>) -> Option<Seq<u8>>;

/// Whether a DER blob parses as a PKCS#1 RSAPublicKey.
pub uninterp spec fn pkcs1_parses(der: Seq<u8>) -> bool;

/// Relies on `pem::parse`: the DER contents of the first PEM block, a
/// function of the certificate text alone, or a decode failure.
#[verifier::external_body]
fn pem_contents(cert: &str) -> (r: Result<Vec<u8>, X509CertError>)
    ensures
        r is Ok <==> pem_der_of(cert@) is Some,
        r matches Ok(v) ==> Some(v@) == pem_der_of(cert@),
        r is Err ==> r->Err_0 is PemDecode,
{
    match pem::parse(cert) {
        Ok(p) => Ok(p.into_contents()),
        Err(_) => Err(X509CertError::PemDecode),
    }
}

/// Relies on `simple_asn1::from_der`: takes the outer ASN.1 sequence and
/// hands back the payload of its last block, which must be a bit string;
/// both steps are functions of the DER bytes alone.
#[verifier::external_body]
fn asn1_last_bitstring(der: &[u8]) -> (r: Result<Vec<u8>, X509CertError>)
    ensures
        r is Ok <==> (asn1_parses(der@) && asn1_last_bitstring_of(der@) is Some),
        r matches Ok(v) ==> Some(v@) == asn1_last_bitstring_of(der@),
        r is Err && !asn1_parses(der@) ==> r->Err_0 is ASN1Decode,
        r is Err && asn1_parses(der@) ==> r->Err_0 is ASN1MissingBlock,
{
    let blocks = match simple_asn1::from_der(der) {
        Ok(b) => b,
        Err(_) => return Err(X509CertError::ASN1Decode),
    };
    match blocks.first() {
        Some(simple_asn1::ASN1Block::Sequence(_ofs, seq_blocks)) => match seq_blocks.last() {
            Some(simple_asn1::ASN1Block::BitString(_ofs, _len, payload)) => Ok(payload.clone()),
            _ => Err(X509CertError::ASN1MissingBlock),
        },
        _ => Err(X509CertError::ASN1MissingBlock),
    }
}

/// Relies on `rsa::pkcs1::DecodeRsaPublicKey::from_pkcs1_der`: parses a
/// PKCS#1 RSAPublicKey structure; success is a function of the DER bytes
/// alone.
#[verifier::external_body]
fn rsa_from_pkcs1(der: &[u8]) -> (r: Result<rsa::RsaPublicKey, X509CertError>)
    ensures
        r is Ok <==> pkcs1_parses(der@),
        r is Err ==> r->Err_0 is PKCS1,
{
    match <rsa::RsaPublicKey as rsa::pkcs1::DecodeRsaPublicKey>::from_pkcs1_der(der) {
        Ok(k) => Ok(k),
        Err(_) => Err(X509CertError::PKCS1),
    }
}

/// Relies on `rsa::RsaPublicKey::encrypt` with `Pkcs1v15Encrypt` and the
/// operating-system RNG: the padding is randomized, so nothing is stated of
/// the ciphertext.
#[verifier::external_body]
fn rsa_encrypt_pkcs1(key: &rsa::RsaPublicKey, data: &[u8]) -> (r: Result<Vec<u8>, X509CertError>)
{
    let mut rng = rand::rngs::OsRng;
    match key.encrypt(&mut rng, rsa::Pkcs1v15Encrypt, data) {
        Ok(c) => Ok(c),
        Err(_) => Err(X509CertError::PKCS1),
    }
}

/// Relies on `rand::rngs::OsRng::fill_bytes`: `n` bytes from the operating
/// system's RNG; only the length is stated.
#[verifier::external_body]
fn random_bytes(n: usize) -> (r: Vec<u8>)
    ensures
        r@.len() == n,
{
    let mut buf = vec![0u8; n];
    rand::RngCore::fill_bytes(&mut rand::rngs::OsRng, &mut buf);
    buf
}

/// Whether a certificate text carries an extractable RSA public key: valid
/// PEM whose DER parses as ASN.1, whose outer sequence ends in a bit string,
/// and whose bit-string payload is a PKCS#1 RSAPublicKey.
pub open spec fn spec_cert_parses(cert: Seq<char>) -> bool {
    &&& pem_der_of(cert) is Some
    &&& asn1_parses(pem_der_of(cert)->Some_0)
    &&& asn1_last_bitstring_of(pem_der_of(cert)->Some_0) is Some
    &&& pkcs1_parses(asn1_last_bitstring_of(pem_der_of(cert)->Some_0)->Some_0)
}

/// Parses a PEM certificate and extracts the RSA public key: the last block
/// of the outer ASN.1 sequence must be a bit string holding a PKCS#1
/// RSAPublicKey. Each failure names the stage that refused the text.
pub fn parse_certificate(cert: &str) -> (r: Result<rsa::RsaPublicKey, X509CertError>)
    ensures
        r is Ok <==> spec_cert_parses(cert@),
        r matches Err(e) ==> {
            &&& e is PemDecode <==> pem_der_of(cert@) is None
            &&& e is ASN1Decode <==> pem_der_of(cert@) is Some
                && !asn1_parses(pem_der_of(cert@)->Some_0)
            &&& e is ASN1MissingBlock <==> pem_der_of(cert@) is Some
                && asn1_parses(pem_der_of(cert@)->Some_0)
                && asn1_last_bitstring_of(pem_der_of(cert@)->Some_0) is None
            &&& e is PKCS1 <==> pem_der_of(cert@) is Some
                && asn1_last_bitstring_of(pem_der_of(cert@)->Some_0) is Some
                && asn1_parses(pem_der_of(cert@)->Some_0)
                && !pkcs1_parses(asn1_last_bitstring_of(pem_der_of(cert@)->Some_0)->Some_0)
        },
{
    let der = match pem_contents(cert) {
        Ok(d) => d,
        Err(e) => {
            return Err(e);
        },
    };
    let payload = match asn1_last_bitstring(der.as_slice()) {
        Ok(p) => p,
        Err(e) => {
            return Err(e);
        },
    };
    rsa_from_pkcs1(payload.as_slice())
}

/// The AES material of one connection and the RSA-wrapped form of it.
pub struct Session {
    aes_key: Vec<u8>,
    aes_iv: Vec<u8>,
    salt: Vec<u8>,
    wrapped_session_key: Vec<u8>,
}

impl Session {
    /// The field widths every session has.
    pub closed spec fn wf(&self) -> bool {
        &&& self.aes_key@.len() == 32
        &&& self.aes_iv@.len() == 16
        &&& self.salt@.len() == 2
    }

    pub closed spec fn spec_aes_key(&self) -> Seq<u8> {
        self.aes_key@
    }

    pub closed spec fn spec_aes_iv(&self) -> Seq<u8> {
        self.aes_iv@
    }

    pub closed spec fn spec_salt(&self) -> Seq<u8> {
        self.salt@
    }

    pub closed spec fn spec_wrapped(&self) -> Seq<u8> {
        self.wrapped_session_key@
    }

    /// Builds a session from explicit material; `new` draws the material
    /// from the RNG and wraps it first.
    pub fn from_material(aes_key: Vec<u8>, aes_iv: Vec<u8>, salt: Vec<u8>, wrapped_session_key: Vec<u8>) -> (r: Session)
        requires
            aes_key@.len() == 32,
            aes_iv@.len() == 16,
            salt@.len() == 2,
        ensures
            r.wf(),
            r.spec_aes_key() == aes_key@,
            r.spec_aes_iv() == aes_iv@,
            r.spec_salt() == salt@,
            r.spec_wrapped() == wrapped_session_key@,
    {
        Session { aes_key, aes_iv, salt, wrapped_session_key }
    }

    /// Creates a session for a server certificate: random key, IV and salt,
    /// and the RSA encryption of `hex(key):hex(iv)` under the certificate's
    /// public key.
    pub fn new(cert: &str) -> (r: Result<Session, X509CertError>)
        ensures
            r matches Ok(s) ==> s.wf(),
    {
        let public_key = parse_certificate(cert)?;
        let aes_key = random_bytes(32);
        let aes_iv = random_bytes(16);
        let salt = random_bytes(2);
        let mut session_key_data = hex_lower(aes_key.as_slice());
        push_char(&mut session_key_data, ':');
        let iv_hex = hex_lower(aes_iv.as_slice());
        session_key_data.append(iv_hex.as_str());
        let wrapped = rsa_encrypt_pkcs1(&public_key, session_key_data.as_str().as_bytes())?;
        Ok(Session::from_material(aes_key, aes_iv, salt, wrapped))
    }

    /// The key-exchange form of the wrapped session key: unpadded base64.
    pub fn encode_session(&self) -> (r: String)
        ensures
            r@ == spec_b64_encode(self.spec_wrapped()),
    {
        base64_no_pad(self.wrapped_session_key.as_slice())
    }
}

/// The plaintext an encrypted command carries: `salt/<hex(salt)>/<cmd>` with
/// a trailing NUL.
pub open spec fn spec_salted_cmd(salt: Seq<u8>, cmd: Seq<char>) -> Seq<char> {
    "salt/"@ + spec_hex_lower(salt) + seq!['/'] + cmd + seq!['\0']
}

/// The ciphertext of a command under a session's key and IV.
pub open spec fn spec_encrypt_command(s: &Session, cmd: Seq<char>) -> Seq<u8> {
    aes256_cbc_of(s.spec_aes_key(), s.spec_aes_iv(), encode_utf8(spec_salted_cmd(s.spec_salt(), cmd)))
}

/// Builds the salted plaintext of a command.
fn salted_cmd(salt: &[u8], cmd: &str) -> (r: String)
    ensures
        r@ == spec_salted_cmd(salt@, cmd@),
{
    let mut s = String::from_str("salt/");
    let salt_hex = hex_lower(salt);
    s.append(salt_hex.as_str());
    push_char(&mut s, '/');
    s.append(cmd);
    push_char(&mut s, '\0');
    proof {
        assert(s@ =~= spec_salted_cmd(salt@, cmd@));
    }
    s
}

/// Encrypts a command for the encrypted channel: AES-256-CBC with PKCS7
/// padding of `salt/<hex(salt)>/<cmd>\0` under the session's key and IV.
/// The cipher never fails on the encrypt side, and PKCS7 rounds the
/// plaintext length up to the next multiple of sixteen.
pub fn encrypt_command(cmd: &str, session: &Session) -> (r: Result<Vec<u8>, CryptoError>)
    requires
        session.wf(),
    ensures
        r is Ok,
        r matches Ok(v) ==> v@ == spec_encrypt_command(session, cmd@)
            && v@.len() == ((vstd::utf8::encode_utf8(spec_salted_cmd(session.spec_salt(), cmd@)).len() / 16) + 1) * 16,
{
    let plain = salted_cmd(session.salt.as_slice(), cmd);
    aes256_cbc_encrypt(session.aes_key.as_slice(), session.aes_iv.as_slice(), plain.as_str().as_bytes())
}

/// The full encrypted command line: `jdev/sys/<endpoint>/<escaped>` where
/// `escaped` is the form-urlencoded unpadded base64 of the ciphertext.
pub open spec fn spec_encrypt_command_ws(s: &Session, endpoint: Seq<char>, cmd: Seq<char>) -> Seq<char> {
    "jdev/sys/"@ + endpoint + seq!['/']
        + spec_urlenc(encode_utf8(spec_b64_encode(spec_encrypt_command(s, cmd))))
}

/// Builds the encrypted form of a command for the wire; it always succeeds,
/// as the cipher does.
pub fn encrypt_command_ws(endpoint: &str, cmd: &str, session: &Session) -> (r: Result<String, CryptoError>)
    requires
        session.wf(),
    ensures
        r is Ok,
        r matches Ok(s) ==> s@ == spec_encrypt_command_ws(session, endpoint@, cmd@),
{
    let cipher = encrypt_command(cmd, session)?;
    let cipher_b64 = base64_no_pad(cipher.as_slice());
    let escaped = form_urlencode(cipher_b64.as_str().as_bytes());
    let mut s = String::from_str("jdev/sys/");
    s.append(endpoint);
    push_char(&mut s, '/');
    s.append(escaped.as_str());
    proof {
        assert(s@ =~= spec_encrypt_command_ws(session, endpoint@, cmd@));
    }
    Ok(s)
}

} // verus!
