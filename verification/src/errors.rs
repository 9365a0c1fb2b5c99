use vstd::prelude::*;

verus! {

/// Why an operation was rejected; every error aborts the whole operation with
/// no partial effect on the supplied state.
#[derive(Clone, Copy, Debug, PartialEq, Eq, Structural)]
pub enum SubError {
    /// A required signer did not sign the request.
    MissingSignature,
    /// The supplied record account does not match the derived address for the payer.
    AddressMismatch,
    /// The operation payload or a stored record could not be decoded.
    InvalidInstructionData,
    /// The withdrawal signer is not the record's stored authority.
    UnauthorizedAuthority,
    /// The withdrawal would take the sub-account below its minimum reserve.
    InsufficientFunds,
    /// The fee transfer was rejected.
    TransferFailed,
}

} // verus!
