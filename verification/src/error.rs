//! Errors of note construction.

use vstd::prelude::*;

verus! {

/// Why a note could not be constructed. Always local, never retried.
#[derive(Clone, Copy, Debug, PartialEq, Eq, Structural)]
pub enum ConstructionError {
    /// The asset amount is zero or exceeds the issuance limit, or its issuer is not a fungible
    /// faucet.
    InvalidAsset,
    /// An identifier, the deadline or the serial number is not acceptable to the ledger.
    MalformedInputs,
    /// The condition script does not compile against the execution environment.
    ScriptCompilation,
}

} // verus!
