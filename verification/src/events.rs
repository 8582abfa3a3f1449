use vstd::prelude::*;
use crate::pubkey::Pubkey;

verus! {

/// The funder has deposited the swap amount into the vault.
#[derive(Clone, Debug, PartialEq, Eq)]
pub struct Initiated {
    pub mint: Pubkey,
    pub redeemer: Pubkey,
    pub refundee: Pubkey,
    pub secret_hash: [u8; 32],
    /// The quantity of tokens in base units of the mint.
    pub swap_amount: u64,
    /// The number of slots after which (non-instant) refunds are allowed.
    pub timelock: u64,
    /// Information regarding the destination chain of the swap.
    pub destination_data: Option<Vec<u8>>,
}

/// The redeemer has withdrawn the funds from the vault.
#[derive(Clone, Copy, Debug, PartialEq, Eq)]
pub struct Redeemed {
    pub mint: Pubkey,
    pub redeemer: Pubkey,
    pub refundee: Pubkey,
    pub secret: [u8; 32],
    pub swap_amount: u64,
    pub timelock: u64,
}

/// The refundee has withdrawn the funds from the vault past expiry.
#[derive(Clone, Copy, Debug, PartialEq, Eq)]
pub struct Refunded {
    pub mint: Pubkey,
    pub redeemer: Pubkey,
    pub refundee: Pubkey,
    pub secret_hash: [u8; 32],
    pub swap_amount: u64,
    pub timelock: u64,
}

/// The refundee has obtained a refund with the redeemer's consent.
#[derive(Clone, Copy, Debug, PartialEq, Eq)]
pub struct InstantRefunded {
    pub mint: Pubkey,
    pub redeemer: Pubkey,
    pub refundee: Pubkey,
    pub secret_hash: [u8; 32],
    pub swap_amount: u64,
    pub timelock: u64,
}

/// A unique deposit address has been created.
#[derive(Clone, Copy, Debug, PartialEq, Eq)]
pub struct SPLUDACreated {
    pub uda_address: Pubkey,
    pub vault_address: Pubkey,
    pub refund_address: Pubkey,
    pub amount: u64,
    pub timelock: u64,
}

/// A swap has been initiated from a unique deposit address.
#[derive(Clone, Copy, Debug, PartialEq, Eq)]
pub struct HTLCInitiated {
    pub uda_address: Pubkey,
    pub swap_amount: u64,
    pub timelock: u64,
}

} // verus!
