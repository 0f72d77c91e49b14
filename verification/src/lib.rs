//! A signed, self-describing message envelope for a content-addressed
//! publish/subscribe transport.
//!
//! The crate builds and parses an outer envelope (base64 payload, structured
//! content topic, version, timestamp, ephemerality flag) and a signed-body
//! wire convention that prepends a hex-encoded recoverable signature to an
//! arbitrary body, verified against a known secp256k1 public key.

pub mod base64fmt;
pub mod codec;
pub mod crypto;
pub mod errors;
pub mod hexfmt;
pub mod message;
