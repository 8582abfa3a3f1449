use vstd::prelude::*;
use crate::pubkey::Pubkey;
use crate::state::{SPLUDA, SwapAccount};

verus! {

/// What the instructions read of an SPL token account.
#[derive(Clone, Copy, Debug, PartialEq, Eq)]
pub struct TokenAccount {
    /// The token account's own address.
    pub key: Pubkey,
    /// The mint of the tokens it holds.
    pub mint: Pubkey,
    /// The authority that may move its tokens.
    pub owner: Pubkey,
    /// Its balance, in base units of the mint.
    pub amount: u64,
}

impl TokenAccount {
    /// The token account holds tokens of `mint` and is controlled by `authority`.
    pub open spec fn holds(self, mint: Pubkey, authority: Pubkey) -> bool {
        self.mint == mint && self.owner == authority
    }
}

/// Who authorizes a token transfer.
#[derive(Clone, Copy, Debug, PartialEq, Eq)]
pub enum ProgramSigner {
    /// The authority signed the transaction itself.
    Caller,
    /// The program signs for the identity PDA, whose seeds are empty, with
    /// bump `bump`.
    Identity { bump: u8 },
    /// The program signs for the UDA, with the UDA's seeds followed by the
    /// one-byte seed `bump` (see `SPLUDA::signer_seeds`).
    Uda { bump: u8 },
}

/// A transfer of SPL tokens through the token program.
#[derive(Clone, Copy, Debug, PartialEq, Eq)]
pub struct TokenTransfer {
    pub from: Pubkey,
    pub to: Pubkey,
    pub authority: Pubkey,
    pub amount: u64,
    /// How the authority signs.
    pub signer: ProgramSigner,
}

/// A transfer out of the escrow vault, and the event that reports it.
#[derive(Clone, Copy, Debug, PartialEq, Eq)]
pub struct Settlement<E> {
    pub transfer: TokenTransfer,
    pub event: E,
}

/// The accounts of `initiate`.
#[derive(Clone, Copy, Debug, PartialEq, Eq)]
pub struct Initiate {
    /// The identity PDA (empty seeds) that controls the vault.
    pub identity_pda: Pubkey,
    /// The bump found for `identity_pda`.
    pub identity_pda_bump: u8,
    /// The bump found for the swap-data account being created.
    pub swap_data_bump: u8,
    /// The program's vault for `mint`.
    pub token_vault: TokenAccount,
    /// The signer who deposits the funds.
    pub funder: Pubkey,
    pub funder_token_account: TokenAccount,
    pub mint: Pubkey,
    /// The signer who pays the rent of the swap-data account.
    pub rent_sponsor: Pubkey,
}

impl Initiate {
    /// The token-account constraints the accounts are declared with.
    pub open spec fn constraints_hold(self) -> bool {
        &&& self.token_vault.holds(self.mint, self.identity_pda)
        &&& self.funder_token_account.holds(self.mint, self.funder)
    }
}

/// The accounts of `redeem`.
#[derive(Clone, Copy, Debug, PartialEq, Eq)]
pub struct Redeem {
    pub identity_pda: Pubkey,
    pub token_vault: TokenAccount,
    pub redeemer_token_account: TokenAccount,
    /// The account that receives the rent of the closed swap-data account.
    pub rent_sponsor: Pubkey,
}

impl Redeem {
    /// The token-account constraints the accounts are declared with, for
    /// the swap `swap`.
    pub open spec fn constraints_hold(self, swap: SwapAccount) -> bool {
        &&& self.token_vault.holds(swap.mint, self.identity_pda)
        &&& self.redeemer_token_account.holds(swap.mint, swap.redeemer)
    }
}

/// The accounts of `refund`.
#[derive(Clone, Copy, Debug, PartialEq, Eq)]
pub struct Refund {
    pub identity_pda: Pubkey,
    pub token_vault: TokenAccount,
    pub refundee_token_account: TokenAccount,
    pub rent_sponsor: Pubkey,
}

impl Refund {
    /// The token-account constraints the accounts are declared with, for
    /// the swap `swap`.
    pub open spec fn constraints_hold(self, swap: SwapAccount) -> bool {
        &&& self.token_vault.holds(swap.mint, self.identity_pda)
        &&& self.refundee_token_account.holds(swap.mint, swap.refundee)
    }
}

/// The accounts of `instant_refund`.
#[derive(Clone, Copy, Debug, PartialEq, Eq)]
pub struct InstantRefund {
    pub identity_pda: Pubkey,
    pub token_vault: TokenAccount,
    pub refundee_token_account: TokenAccount,
    /// The signer that consents to the refund.
    pub redeemer: Pubkey,
    pub rent_sponsor: Pubkey,
}

impl InstantRefund {
    /// The token-account constraints the accounts are declared with, for
    /// the swap `swap`.
    pub open spec fn constraints_hold(self, swap: SwapAccount) -> bool {
        &&& self.token_vault.holds(swap.mint, self.identity_pda)
        &&& self.refundee_token_account.holds(swap.mint, swap.refundee)
    }
}

/// The accounts of `create_uda_spl`.
#[derive(Clone, Copy, Debug, PartialEq, Eq)]
pub struct CreateSPLUDA {
    /// The UDA account being created.
    pub uda: Pubkey,
    pub identity_pda: Pubkey,
    /// The bump found for `identity_pda`.
    pub identity_pda_bump: u8,
    /// The UDA's staging token vault, being created.
    pub uda_token_vault: Pubkey,
    pub mint_account: Pubkey,
    /// The signer who pays for the new accounts.
    pub payer: Pubkey,
}

/// The accounts of `initiate_uda`.
#[derive(Clone, Copy, Debug, PartialEq, Eq)]
pub struct InitiateUDA {
    pub uda: Pubkey,
    /// The bump of the UDA's address, with which the program signs for it.
    pub uda_bump: u8,
    /// The UDA's staging vault.
    pub uda_token_vault: TokenAccount,
    /// The refund address's token account, which receives what is left over.
    pub refund_token_account: TokenAccount,
    pub refund_address: Pubkey,
    /// The signer who pays for the swap-data account.
    pub rent_sponsor: Pubkey,
    pub identity_pda: Pubkey,
    /// The bump found for the swap-data account being created.
    pub swap_data_bump: u8,
    /// The program's vault for the mint.
    pub token_vault: TokenAccount,
    pub mint_account: Pubkey,
}

impl InitiateUDA {
    /// The constraints the accounts are declared with, for the UDA `uda`.
    pub open spec fn constraints_hold(self, uda: SPLUDA) -> bool {
        &&& self.uda_token_vault.holds(uda.mint, self.uda)
        &&& self.refund_token_account.holds(uda.mint, uda.refund_address)
        &&& self.refund_address == uda.refund_address
        &&& self.rent_sponsor == uda.rent_sponsor
        &&& self.token_vault.holds(self.mint_account, self.identity_pda)
    }
}

} // verus!
