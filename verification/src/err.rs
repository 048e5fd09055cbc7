//! Decode-failure taxonomy.
//!
//! `Incomplete` means the input ended before the structure being parsed did:
//! it is not a fault in the data, the caller must supply more bytes and retry
//! from the same position. `Malformed` means the bytes were all present but
//! structurally invalid (for example a name field that is not UTF-8, or an
//! inner length field pointing past the end of its enclosing region); it fails
//! only the enclosing packet.

use vstd::prelude::*;

verus! {

#[derive(Debug, PartialEq, Eq, Structural, Clone, Copy)]
pub enum DecodeError {
    Incomplete,
    Malformed,
}

} // verus!
