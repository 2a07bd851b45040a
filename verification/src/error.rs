//! Failure kinds surfaced by this core.
//!
//! None of these is retried internally; each surfaces to the immediate
//! caller as a typed failure, and retry policy belongs to the calling
//! protocol engine.

use vstd::prelude::*;

verus! {

/// Secure entropy was unavailable.  Fatal wherever it occurs: callers must
/// never fall back to a weaker randomness source.
#[derive(Clone, Copy, PartialEq, Eq, Structural, Debug)]
pub struct GetRandomFailed;

/// A handshake-level failure.
#[derive(Clone, Copy, PartialEq, Eq, Structural, Debug)]
pub enum Error {
    /// Opaque wrapper for a failed key agreement or a failed derivation
    /// callback, deliberately undetailed so that the variant leaks no
    /// secret-dependent branch information.
    GenericHandshakeFailure,
}

} // verus!
