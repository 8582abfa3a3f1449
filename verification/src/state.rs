use vstd::prelude::*;
use crate::pubkey::Pubkey;

verus! {

/// The on-chain state of one atomic swap.
#[derive(Clone, Debug, PartialEq, Eq)]
pub struct SwapAccount {
    /// The bump that derived this account's address.
    pub bump: u8,
    /// The exact slot after which (non-instant) refunds are allowed.
    pub expiry_slot: u64,
    /// The bump of the identity PDA, which signs transfers out of the vault.
    pub identity_pda_bump: u8,
    /// Who paid the rent of this account; it gets the rent back on close.
    pub rent_sponsor: Pubkey,
    /// The mint of the swapped tokens.
    pub mint: Pubkey,
    /// The redeemer of the swap.
    pub redeemer: Pubkey,
    /// The refundee of the swap.
    pub refundee: Pubkey,
    /// The SHA-256 hash of the secret that redeems the swap.
    pub secret_hash: [u8; 32],
    /// The quantity of tokens in the swap, in base units of the mint.
    pub swap_amount: u64,
    /// The number of slots after which (non-instant) refunds are allowed.
    pub timelock: u64,
}

/// The on-chain state of an SPL-token unique deposit address.
#[derive(Clone, Debug, PartialEq, Eq)]
pub struct SPLUDA {
    pub mint: Pubkey,
    pub refund_address: Pubkey,
    pub redeemer: Pubkey,
    pub timelock: u64,
    pub secret_hash: [u8; 32],
    pub amount: u64,
    pub vault_address: Pubkey,
    /// Slot at which the UDA was created.
    pub created_at: u64,
    /// Who paid for the UDA's creation (gets the rent back).
    pub rent_sponsor: Pubkey,
    /// Destination data for cross-chain routing.
    pub destination_data: Vec<u8>,
    /// SHA-256 hash of `destination_data`.
    pub destination_hash: [u8; 32],
    pub identity_pda_bump: u8,
}

} // verus!
