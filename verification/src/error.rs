//! Validation failures of the creation protocol.

use vstd::prelude::*;

verus! {

/// Why a creation request was rejected.  Every precondition of the
/// initializer is checked before the first allocation, so any of these
/// leaves the ledger untouched.
#[derive(Clone, Copy, Debug, PartialEq, Eq)]
pub enum EscrowError {
    /// A supplied account's address does not equal the value the deriver
    /// computes for the given seed and maker.
    AddressMismatch,
    /// The target escrow or holding address already holds an account; the
    /// caller must choose a new seed.
    AlreadyInitialized,
    /// The offered and requested asset types are the same.
    InvalidAssetPair,
    /// The maker's signature is absent.
    Unauthenticated,
    /// No canonical derivation exists for the given inputs; the caller must
    /// supply a different seed.
    DerivationExhausted,
}

} // verus!
