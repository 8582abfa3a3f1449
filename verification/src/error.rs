use vstd::prelude::*;

verus! {

/// Errors of the atomic-swap instructions.
#[derive(Clone, Copy, Debug, PartialEq, Eq)]
pub enum SwapError {
    /// The provider redeemer is not the original redeemer of this swap.
    InvalidRedeemer,
    /// The provided secret does not correspond to the secret hash of this swap.
    InvalidSecret,
    /// The provided rent_sponsor is not the original rent_sponsor of this swap.
    InvalidRentSponsor,
    /// Attempt to refund before timelock expiry.
    RefundBeforeExpiry,
}

/// Errors of the unique-deposit-address instructions.
#[derive(Clone, Copy, Debug, PartialEq, Eq)]
pub enum UDAError {
    /// Invalid address: cannot be the zero address.
    InvalidAddress,
    /// Refund address and redeemer cannot be the same.
    SameAddress,
    /// Insufficient funds in the UDA.
    InsufficientFunds,
    /// Invalid secret hash: cannot be zero.
    InvalidSecretHash,
    /// Invalid mint address.
    InvalidMint,
    /// Destination hash does not match destination data.
    DestinationHashMismatchComputedHash,
}

} // verus!
