//! The atomic-swap instructions: initiate, redeem, refund, instant refund.
use vstd::prelude::*;
use crate::accounts::{ProgramSigner, Initiate, InstantRefund, Redeem, Refund, Settlement, TokenTransfer};
use crate::error::SwapError;
use crate::events::{InstantRefunded, Initiated, Redeemed, Refunded};
use crate::hash::{sha256, sha256_digest};
use crate::pubkey::{bytes32_eq, Pubkey};
use crate::state::SwapAccount;

verus! {

/// What `initiate` does: the deposit into the vault, the swap state to store
/// and the event to emit.
#[derive(Clone, Debug, PartialEq, Eq)]
pub struct Initiation {
    pub transfer: TokenTransfer,
    pub swap_data: SwapAccount,
    pub event: Initiated,
}

impl Initiated {
    /// The event reports the terms of `swap`.
    pub open spec fn reports(self, swap: SwapAccount) -> bool {
        &&& self.mint == swap.mint
        &&& self.redeemer == swap.redeemer
        &&& self.refundee == swap.refundee
        &&& self.secret_hash == swap.secret_hash
        &&& self.swap_amount == swap.swap_amount
        &&& self.timelock == swap.timelock
    }
}

impl SwapAccount {
    /// The transfer of the whole escrowed amount out of `vault` to `to`,
    /// signed by the identity PDA.
    pub open spec fn vault_payout(self, vault: Pubkey, to: Pubkey, identity_pda: Pubkey) -> TokenTransfer {
        TokenTransfer {
            from: vault,
            to,
            authority: identity_pda,
            amount: self.swap_amount,
            signer: ProgramSigner::Identity { bump: self.identity_pda_bump },
        }
    }

    pub open spec fn redeemed_event(self, secret: [u8; 32]) -> Redeemed {
        Redeemed {
            mint: self.mint,
            redeemer: self.redeemer,
            refundee: self.refundee,
            secret,
            swap_amount: self.swap_amount,
            timelock: self.timelock,
        }
    }

    pub open spec fn refunded_event(self) -> Refunded {
        Refunded {
            mint: self.mint,
            redeemer: self.redeemer,
            refundee: self.refundee,
            secret_hash: self.secret_hash,
            swap_amount: self.swap_amount,
            timelock: self.timelock,
        }
    }

    pub open spec fn instant_refunded_event(self) -> InstantRefunded {
        InstantRefunded {
            mint: self.mint,
            redeemer: self.redeemer,
            refundee: self.refundee,
            secret_hash: self.secret_hash,
            swap_amount: self.swap_amount,
            timelock: self.timelock,
        }
    }
}

/// The swap state that `initiate` stores.
pub open spec fn initiated_swap(
    accounts: Initiate,
    redeemer: Pubkey,
    refundee: Pubkey,
    secret_hash: [u8; 32],
    swap_amount: u64,
    timelock: u64,
    current_slot: u64,
) -> SwapAccount {
    SwapAccount {
        bump: accounts.swap_data_bump,
        expiry_slot: (current_slot + timelock) as u64,
        identity_pda_bump: accounts.identity_pda_bump,
        rent_sponsor: accounts.rent_sponsor,
        mint: accounts.mint,
        redeemer,
        refundee,
        secret_hash,
        swap_amount,
        timelock,
    }
}

/// The deposit that `initiate` makes: the funder moves the swap amount from
/// its token account into the vault.
pub open spec fn initiate_deposit(accounts: Initiate, swap_amount: u64) -> TokenTransfer {
    TokenTransfer {
        from: accounts.funder_token_account.key,
        to: accounts.token_vault.key,
        authority: accounts.funder,
        amount: swap_amount,
        signer: ProgramSigner::Caller,
    }
}

/// Initiates the atomic swap: the funder's tokens go into the vault, and the
/// swap becomes refundable `timelock` slots after `current_slot`.
/// `swap_amount` is in base units of the mint; `destination_data` is
/// reported in the event as-is.
pub fn initiate(
    accounts: &Initiate,
    redeemer: Pubkey,
    refundee: Pubkey,
    secret_hash: [u8; 32],
    swap_amount: u64,
    timelock: u64,
    destination_data: Option<Vec<u8>>,
    current_slot: u64,
) -> (r: Initiation)
    requires
        current_slot + timelock <= u64::MAX,
    ensures
        r.transfer == initiate_deposit(*accounts, swap_amount),
        r.swap_data == initiated_swap(
            *accounts,
            redeemer,
            refundee,
            secret_hash,
            swap_amount,
            timelock,
            current_slot,
        ),
        r.event.reports(r.swap_data),
        r.event.destination_data == destination_data,
        r.transfer.amount == swap_amount && r.swap_data.swap_amount == swap_amount
            && r.event.swap_amount == swap_amount,
        r.swap_data.expiry_slot == current_slot + timelock && r.swap_data.timelock == timelock,
        r.swap_data.mint == accounts.mint && r.event.mint == accounts.mint,
        r.swap_data.redeemer == redeemer && r.event.redeemer == redeemer,
        r.swap_data.refundee == refundee && r.event.refundee == refundee,
        r.swap_data.secret_hash == secret_hash && r.event.secret_hash == secret_hash,
        r.event.timelock == timelock,
        r.transfer.from == accounts.funder_token_account.key && r.transfer.to
            == accounts.token_vault.key && r.transfer.authority == accounts.funder
            && r.transfer.signer == ProgramSigner::Caller,
        r.swap_data.bump == accounts.swap_data_bump && r.swap_data.identity_pda_bump
            == accounts.identity_pda_bump && r.swap_data.rent_sponsor == accounts.rent_sponsor,
{
    let transfer = TokenTransfer {
        from: accounts.funder_token_account.key,
        to: accounts.token_vault.key,
        authority: accounts.funder,
        amount: swap_amount,
        signer: ProgramSigner::Caller,
    };
    let expiry_slot = current_slot + timelock;
    let swap_data = SwapAccount {
        bump: accounts.swap_data_bump,
        expiry_slot,
        identity_pda_bump: accounts.identity_pda_bump,
        rent_sponsor: accounts.rent_sponsor,
        mint: accounts.mint,
        redeemer,
        refundee,
        secret_hash,
        swap_amount,
        timelock,
    };
    let event = Initiated {
        mint: accounts.mint,
        redeemer,
        refundee,
        secret_hash,
        swap_amount,
        timelock,
        destination_data,
    };
    Initiation { transfer, swap_data, event }
}

/// What `redeem` does, given the SHA-256 digest of the secret.
pub open spec fn redeem_result(
    swap: SwapAccount,
    accounts: Redeem,
    secret: [u8; 32],
    digest: Seq<u8>,
) -> Result<Settlement<Redeemed>, SwapError> {
    if accounts.rent_sponsor != swap.rent_sponsor {
        Err(SwapError::InvalidRentSponsor)
    } else if digest != swap.secret_hash@ {
        Err(SwapError::InvalidSecret)
    } else {
        Ok(
            Settlement {
                transfer: swap.vault_payout(
                    accounts.token_vault.key,
                    accounts.redeemer_token_account.key,
                    accounts.identity_pda,
                ),
                event: swap.redeemed_event(secret),
            },
        )
    }
}

/// Redeems the swap with `secret`, whose SHA-256 digest is `digest`.
pub fn redeem_with_digest(
    swap: &SwapAccount,
    accounts: &Redeem,
    secret: [u8; 32],
    digest: [u8; 32],
) -> (r: Result<Settlement<Redeemed>, SwapError>)
    ensures
        r == redeem_result(*swap, *accounts, secret, digest@),
        r is Ok <==> (accounts.rent_sponsor == swap.rent_sponsor && digest@ == swap.secret_hash@),
        r matches Ok(s) ==> s.transfer.amount == swap.swap_amount && s.transfer.authority
            == accounts.identity_pda && s.transfer.signer == (ProgramSigner::Identity {
            bump: swap.identity_pda_bump,
        }) && s.transfer.from == accounts.token_vault.key && s.transfer.to == accounts.redeemer_token_account.key
            && s.event == (Redeemed {
            mint: swap.mint,
            redeemer: swap.redeemer,
            refundee: swap.refundee,
            secret,
            swap_amount: swap.swap_amount,
            timelock: swap.timelock,
        }),
{
    if !accounts.rent_sponsor.equals(&swap.rent_sponsor) {
        return Err(SwapError::InvalidRentSponsor);
    }
    if !bytes32_eq(&digest, &swap.secret_hash) {
        return Err(SwapError::InvalidSecret);
    }
    let transfer = TokenTransfer {
        from: accounts.token_vault.key,
        to: accounts.redeemer_token_account.key,
        authority: accounts.identity_pda,
        amount: swap.swap_amount,
        signer: ProgramSigner::Identity { bump: swap.identity_pda_bump },
    };
    let event = Redeemed {
        mint: swap.mint,
        redeemer: swap.redeemer,
        refundee: swap.refundee,
        secret,
        swap_amount: swap.swap_amount,
        timelock: swap.timelock,
    };
    Ok(Settlement { transfer, event })
}

/// Redeems the swap: the escrowed funds go to the redeemer's token account
/// when the SHA-256 hash of `secret` is the swap's secret hash. Needs no
/// signature.
pub fn redeem(swap: &SwapAccount, accounts: &Redeem, secret: [u8; 32]) -> (r: Result<
    Settlement<Redeemed>,
    SwapError,
>)
    ensures
        r == redeem_result(*swap, *accounts, secret, sha256(secret@)),
        r is Ok <==> (accounts.rent_sponsor == swap.rent_sponsor && sha256(secret@)
            == swap.secret_hash@),
        r matches Ok(s) ==> s.transfer.amount == swap.swap_amount && s.transfer.authority
            == accounts.identity_pda && s.transfer.signer == (ProgramSigner::Identity {
            bump: swap.identity_pda_bump,
        }) && s.transfer.from == accounts.token_vault.key && s.transfer.to == accounts.redeemer_token_account.key
            && s.event == (Redeemed {
            mint: swap.mint,
            redeemer: swap.redeemer,
            refundee: swap.refundee,
            secret,
            swap_amount: swap.swap_amount,
            timelock: swap.timelock,
        }),
{
    let digest = sha256_digest(secret.as_slice());
    redeem_with_digest(swap, accounts, secret, digest)
}

/// What `refund` does at `current_slot`.
pub open spec fn refund_result(swap: SwapAccount, accounts: Refund, current_slot: u64) -> Result<
    Settlement<Refunded>,
    SwapError,
> {
    if accounts.rent_sponsor != swap.rent_sponsor {
        Err(SwapError::InvalidRentSponsor)
    } else if current_slot <= swap.expiry_slot {
        Err(SwapError::RefundBeforeExpiry)
    } else {
        Ok(
            Settlement {
                transfer: swap.vault_payout(
                    accounts.token_vault.key,
                    accounts.refundee_token_account.key,
                    accounts.identity_pda,
                ),
                event: swap.refunded_event(),
            },
        )
    }
}

/// Returns the escrowed funds to the refundee, once `current_slot` is past
/// the expiry slot. Needs no signature.
pub fn refund(swap: &SwapAccount, accounts: &Refund, current_slot: u64) -> (r: Result<
    Settlement<Refunded>,
    SwapError,
>)
    ensures
        r == refund_result(*swap, *accounts, current_slot),
        r is Ok <==> (accounts.rent_sponsor == swap.rent_sponsor && current_slot
            > swap.expiry_slot),
        r matches Ok(s) ==> s.transfer.amount == swap.swap_amount && s.transfer.authority
            == accounts.identity_pda && s.transfer.signer == (ProgramSigner::Identity {
            bump: swap.identity_pda_bump,
        }) && s.transfer.from == accounts.token_vault.key && s.transfer.to == accounts.refundee_token_account.key
            && s.event == (Refunded {
            mint: swap.mint,
            redeemer: swap.redeemer,
            refundee: swap.refundee,
            secret_hash: swap.secret_hash,
            swap_amount: swap.swap_amount,
            timelock: swap.timelock,
        }),
{
    if !accounts.rent_sponsor.equals(&swap.rent_sponsor) {
        return Err(SwapError::InvalidRentSponsor);
    }
    if !(current_slot > swap.expiry_slot) {
        return Err(SwapError::RefundBeforeExpiry);
    }
    let transfer = TokenTransfer {
        from: accounts.token_vault.key,
        to: accounts.refundee_token_account.key,
        authority: accounts.identity_pda,
        amount: swap.swap_amount,
        signer: ProgramSigner::Identity { bump: swap.identity_pda_bump },
    };
    let event = Refunded {
        mint: swap.mint,
        redeemer: swap.redeemer,
        refundee: swap.refundee,
        secret_hash: swap.secret_hash,
        swap_amount: swap.swap_amount,
        timelock: swap.timelock,
    };
    Ok(Settlement { transfer, event })
}

/// What `instant_refund` does.
pub open spec fn instant_refund_result(swap: SwapAccount, accounts: InstantRefund) -> Result<
    Settlement<InstantRefunded>,
    SwapError,
> {
    if accounts.redeemer != swap.redeemer {
        Err(SwapError::InvalidRedeemer)
    } else if accounts.rent_sponsor != swap.rent_sponsor {
        Err(SwapError::InvalidRentSponsor)
    } else {
        Ok(
            Settlement {
                transfer: swap.vault_payout(
                    accounts.token_vault.key,
                    accounts.refundee_token_account.key,
                    accounts.identity_pda,
                ),
                event: swap.instant_refunded_event(),
            },
        )
    }
}

/// Returns the escrowed funds to the refundee with the redeemer's consent
/// (the redeemer signs), at any time, before expiry too.
pub fn instant_refund(swap: &SwapAccount, accounts: &InstantRefund) -> (r: Result<
    Settlement<InstantRefunded>,
    SwapError,
>)
    ensures
        r == instant_refund_result(*swap, *accounts),
        r is Ok <==> (accounts.redeemer == swap.redeemer && accounts.rent_sponsor
            == swap.rent_sponsor),
        r matches Ok(s) ==> s.transfer.amount == swap.swap_amount && s.transfer.authority
            == accounts.identity_pda && s.transfer.signer == (ProgramSigner::Identity {
            bump: swap.identity_pda_bump,
        }) && s.transfer.from == accounts.token_vault.key && s.transfer.to == accounts.refundee_token_account.key
            && s.event == (InstantRefunded {
            mint: swap.mint,
            redeemer: swap.redeemer,
            refundee: swap.refundee,
            secret_hash: swap.secret_hash,
            swap_amount: swap.swap_amount,
            timelock: swap.timelock,
        }),
{
    if !accounts.redeemer.equals(&swap.redeemer) {
        return Err(SwapError::InvalidRedeemer);
    }
    if !accounts.rent_sponsor.equals(&swap.rent_sponsor) {
        return Err(SwapError::InvalidRentSponsor);
    }
    let transfer = TokenTransfer {
        from: accounts.token_vault.key,
        to: accounts.refundee_token_account.key,
        authority: accounts.identity_pda,
        amount: swap.swap_amount,
        signer: ProgramSigner::Identity { bump: swap.identity_pda_bump },
    };
    let event = InstantRefunded {
        mint: swap.mint,
        redeemer: swap.redeemer,
        refundee: swap.refundee,
        secret_hash: swap.secret_hash,
        swap_amount: swap.swap_amount,
        timelock: swap.timelock,
    };
    Ok(Settlement { transfer, event })
}

} // verus!
