//! The codec surface: a symmetric encoder/decoder pair over serialisable
//! values.
//!
//! Codec choice is a per-deployment decision; a bridge and the remote
//! handle addressing it must agree.  The concrete codecs serialise
//! arbitrary values and therefore live outside the verified core, next to
//! the transport plumbing; the core sees only opaque message bytes and
//! this error taxonomy.

use vstd::prelude::*;

verus! {

/// Possible errors when encoding or decoding values.
#[derive(Debug, Clone)]
pub enum Error {
    /// Encoding failed; the payload describes why.
    Encode(String),
    /// Decoding failed; the payload describes why.
    Decode(String),
}

/// Marker for the codec backed by the `bincode` format.
#[derive(Debug, Clone, PartialEq, Eq, Structural)]
pub struct BincodeDencoder;

/// Marker for the codec backed by the `bitcode` format.
#[derive(Debug, Clone, PartialEq, Eq, Structural)]
pub struct BitcodeDencoder;

} // verus!
