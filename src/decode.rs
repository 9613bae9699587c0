//! Decoding errors.

use vstd::prelude::*;

verus! {

/// Why a decoder gave up.
#[derive(Clone, Copy, Debug, PartialEq, Eq, Structural)]
pub enum DecodeError {
    /// The input breaks the encoding rules it was decoded under.
    Malformed,
    /// The input is valid but uses a feature the decoder does not support.
    Unimplemented,
}

} // verus!
