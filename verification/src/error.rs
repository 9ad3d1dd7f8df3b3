//! The bootstrap's error taxonomy.

use vstd::prelude::*;

verus! {

/// Why a bootstrap invocation was rejected. Every error aborts the whole
/// invocation: nothing is committed by a failing call.
#[derive(Clone, Copy, Debug, PartialEq, Eq, Structural)]
pub enum BootstrapError {
    /// Wrong number or shape of supplied locations (including a mint
    /// location that is not a valid fungible-asset descriptor, or a
    /// supplied record location that does not match its derived address).
    MalformedInvocation,
    /// The expected signer did not authorize the invocation.
    Unauthorized,
    /// The mint or a collaborator-service identity does not match the
    /// fixed expected identity for its role.
    IdentityMismatch,
    /// The signer cannot cover the allocation cost of the records that do
    /// not yet exist. Retryable after funding.
    InsufficientFunds,
    /// Address derivation found no valid nonce; fatal and unexpected.
    DerivationExhausted,
}

impl BootstrapError {
    /// A short description of the error.
    pub fn describe(&self) -> (r: &'static str) {
        match self {
            BootstrapError::MalformedInvocation => "malformed invocation",
            BootstrapError::Unauthorized => "missing required signature",
            BootstrapError::IdentityMismatch => "identity mismatch",
            BootstrapError::InsufficientFunds => "insufficient funds",
            BootstrapError::DerivationExhausted => "address derivation exhausted",
        }
    }
}

} // verus!
