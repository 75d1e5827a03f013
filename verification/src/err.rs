//! Error kinds surfaced by the protocol engine.

use vstd::prelude::*;

verus! {

/// Failure while extracting the RSA public key from a certificate.
#[derive(Debug, Clone, PartialEq, Eq)]
pub enum X509CertError {
    /// The PEM wrapper could not be decoded.
    PemDecode,
    /// The DER payload is not well-formed ASN.1.
    ASN1Decode,
    /// The outer sequence lacks a trailing bit-string block.
    ASN1MissingBlock,
    /// The bit-string payload is not a PKCS#1 RSAPublicKey.
    PKCS1,
}

/// Failure while decoding a binary event-table body.
#[derive(Debug, Clone, PartialEq, Eq)]
pub enum DecodeError {
    /// A record would read past the declared message length.
    TruncatedRecord,
    /// An entries-length field is negative.
    NegativeCount,
    /// A text field is not valid UTF-8.
    BadUtf8,
}

/// Fatal framing failure in the demultiplexer.
#[derive(Debug, Clone, PartialEq, Eq)]
pub enum FrameError {
    /// A header frame holds fewer than eight bytes.
    TruncatedHeader,
    /// The first header byte is not the protocol magic.
    BadMagic(u8),
    /// The message-type code is outside the known range.
    UnknownType(u8),
    /// The frame in the header slot is not a binary frame.
    HeaderNotBinary,
    /// A length frame holds fewer than four bytes.
    TruncatedLength,
    /// The frame in the length slot is not a binary frame.
    LengthNotBinary,
    /// A body frame of the wrong frame kind for the declared type.
    WrongBodyKind,
    /// An event-table body failed to decode.
    Decode(DecodeError),
}

/// Failure inside the AES encryption path.
#[derive(Debug, Clone, PartialEq, Eq)]
pub enum CryptoError {
    /// The block cipher reported a buffer-handling error.
    Cipher,
}

/// Failure of a plain request/reply round trip.
#[derive(Debug, Clone, PartialEq, Eq)]
pub enum RequestError {
    /// The reply was not of the message kind the request expects.
    InvalidMessageType,
    /// The reply text is not a JSON envelope.
    JsonDeserialize,
    /// A field of the envelope is missing or of the wrong shape.
    JsonMissingField(&'static str),
    /// The envelope status is not the success code; carries the status string.
    InvalidStatusCode(String),
    /// The envelope value is not the value the request requires.
    UnexpectedValue,
}

/// Failure of the key-exchange flow.
#[derive(Debug, Clone, PartialEq, Eq)]
pub enum KeyExchangeError {
    /// The session could not be built from the certificate.
    SessionKey(X509CertError),
    /// RSA encryption of the session key failed.
    Crypto,
    /// The reply was not a text message.
    InvalidMessageType,
    /// The reply text is not a JSON envelope.
    JsonDeserialize,
    /// A field of the envelope is missing or of the wrong shape.
    JsonMissingField(&'static str),
    /// The envelope status is not the success code; carries the status string.
    InvalidStatusCode(String),
    /// The remote key is not valid base64.
    KeyDecode,
}

/// Failure to issue a command in the connection's current state.
#[derive(Debug, Clone, PartialEq, Eq)]
pub enum StateError {
    /// An encrypted command was issued before key exchange.
    PermissionDenied,
    /// The command could not be encrypted.
    Crypto,
}

/// Failure of the structure-file request.
#[derive(Debug, Clone, PartialEq, Eq)]
pub enum LoxAPP3RequestError {
    /// The reply was not a binary-carried text message.
    InvalidMessageType,
    /// The document is not the JSON the caller expects.
    JsonDeserialize,
}

/// Failure of the token-authentication flow.
#[derive(Debug, Clone, PartialEq, Eq)]
pub enum AuthenticationError {
    /// The reply was not a text message.
    InvalidMessageType,
    /// The getkey round trip failed.
    KeyRequest(RequestError),
    /// The HMAC key is not valid hex.
    KeyDecode,
    /// The token does not have a second dot-separated segment.
    JwtBadFormat,
    /// The token payload segment is not valid base64.
    JwtDecode,
    /// The token payload carries no user field.
    JsonMissingField(&'static str),
    /// The reply envelope is malformed.
    JsonDeserialize,
    /// The envelope status is not the success code; carries the status string.
    InvalidStatusCode(String),
}

/// Failure of the JWT-request flow.
#[derive(Debug, Clone, PartialEq, Eq)]
pub enum JwtRequestError {
    /// The reply was not a text message.
    InvalidMessageType,
    /// The getkey2 round trip failed.
    KeyRequest(RequestError),
    /// The HMAC key is not valid hex.
    KeyDecode,
    /// The announced hash algorithm is neither SHA1 nor SHA256.
    UnsupportedHashAlg(String),
    /// The reply envelope is malformed.
    JsonDeserialize,
    /// A field of the envelope is missing or of the wrong shape.
    JsonMissingField(&'static str),
    /// The envelope status is not the success code; carries the status string.
    InvalidStatusCode(String),
}

} // verus!
