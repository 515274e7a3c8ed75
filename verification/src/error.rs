use vstd::prelude::*;

verus! {

/// Why an instruction was rejected. Every failure is terminal for the
/// invocation: the host runtime discards all effects of the call, so no
/// partial state change is ever observable.
#[derive(Debug, Clone, Copy, PartialEq, Eq, Structural)]
pub enum CampaignError {
    /// The instruction data was empty or began with an unknown tag byte.
    UnrecognizedInstruction,
    /// The instruction-specific bytes do not decode into the expected
    /// structure (wrong length, truncated field, trailing garbage).
    MalformedPayload,
    /// A required signer did not sign, or the claimed admin is not the
    /// admin stored in the campaign record.
    Unauthorized,
    /// An account that must be owned by this program is owned by another.
    WrongOwner,
    /// The creation payload designates an admin other than the signing
    /// initializer.
    AdminMismatch,
    /// The campaign account's balance is below the host's rent-exemption
    /// minimum for its data size.
    NotRentExempt,
    /// The withdrawal would overdraw the campaign balance or leave it
    /// below the rent-exemption minimum.
    InsufficientFunds,
    /// A balance or donation-counter update would exceed the 64-bit range;
    /// the operation fails closed instead of wrapping.
    Overflow,
    /// The account list is shorter than the operation requires.
    NotEnoughAccounts,
    /// The campaign account's data region is too small to hold the encoded
    /// record.
    AccountDataTooSmall,
}

} // verus!
