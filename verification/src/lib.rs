//! Core logic of a remote-attestation agent: identifier resolution, the
//! registrar handshake's authentication tag, request admission for the
//! evidence service, revocation screening and service supervision.
//!
//! The library performs no I/O. Callers hand it plain values and carry out
//! the actions it returns.

pub mod auth_tag;
pub mod bootstrap;
pub mod error;
pub mod evidence;
pub mod hex_text;
pub mod identifier;
pub mod revocation;
pub mod supervisor;
pub mod text;
pub mod uuid_text;
