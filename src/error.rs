use vstd::prelude::*;

verus! {

/// Why an operation on a user record was refused. Every refusal leaves all
/// accounts as they were.
#[derive(Clone, Copy, Debug, PartialEq, Eq, Structural)]
pub enum CustomError {
    /// The signer holds less than the amount to deposit.
    InsufficientFunds,
    /// A record already exists at the derived address.
    AccountAlreadyExists,
    /// The payer cannot fund the new record's rent.
    InsufficientPayerFunds,
    /// The presented record address is not the one derived for the signer.
    AddressMismatch,
    /// No bump seed yields an address off the signing curve.
    AddressDerivationExhausted,
    /// The signer is not the record's owner.
    UnauthorizedSigner,
    /// The user did not sign the request.
    MissingSignature,
    /// The account presented as the system program is another one.
    InvalidProgramId,
    /// No record exists at the presented address.
    AccountNotInitialized,
    /// The deposit would take a balance beyond what a u64 holds.
    BalanceOverflow,
    /// The record's bytes are too short to hold the type tag.
    AccountDiscriminatorNotFound,
    /// The record's bytes start with another type's tag.
    AccountDiscriminatorMismatch,
    /// The record's bytes are too short to hold its fields.
    AccountDidNotDeserialize,
}

} // verus!
