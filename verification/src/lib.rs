//! Client-side protocol engine for a WebSocket-attached home-automation
//! controller: session key exchange, salted password hashing, AES-CBC command
//! encryption, frame demultiplexing and the binary event-table codecs.
//!
//! The crate holds the protocol logic only; the transport itself (the
//! WebSocket connection and its async plumbing) lives outside.

pub mod err;
pub mod strutil;
pub mod hexstr;
pub mod uuid;
pub mod events;
pub mod codec;
pub mod b64;
pub mod hashing;
pub mod cipher;
pub mod session;
pub mod envelope;
pub mod state;
pub mod flows;
pub mod frame;
