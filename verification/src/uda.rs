//! The unique-deposit-address instructions: create a UDA, then initiate a
//! swap from the tokens deposited into it.
use vstd::prelude::*;
use crate::accounts::{ProgramSigner, CreateSPLUDA, InitiateUDA, TokenTransfer};
use crate::error::UDAError;
use crate::events::{HTLCInitiated, Initiated, SPLUDACreated};
use crate::hash::{sha256, sha256_digest};
use crate::pubkey::{bytes32_eq, bytes32_is_zero, zero_bytes32, Pubkey};
use crate::state::{SPLUDA, SwapAccount};

verus! {

/// What `create_uda_spl` does: the UDA state to store, the event to emit and
/// the address of the vault into which the tokens are to be deposited.
#[derive(Clone, Debug, PartialEq, Eq)]
pub struct UdaCreation {
    pub uda: SPLUDA,
    pub event: SPLUDACreated,
    pub vault_address: Pubkey,
}

/// The error `create_uda_spl` fails with, if any, where `digest` is the
/// SHA-256 digest of the destination data.
pub open spec fn create_uda_error(
    accounts: CreateSPLUDA,
    mint: Pubkey,
    refund_address: Pubkey,
    redeemer: Pubkey,
    secret_hash: [u8; 32],
    destination_hash: [u8; 32],
    digest: Seq<u8>,
) -> Option<UDAError> {
    if refund_address == redeemer {
        Some(UDAError::SameAddress)
    } else if refund_address.is_default_spec() {
        Some(UDAError::InvalidAddress)
    } else if redeemer.is_default_spec() {
        Some(UDAError::InvalidAddress)
    } else if mint.is_default_spec() {
        Some(UDAError::InvalidMint)
    } else if secret_hash@ == zero_bytes32() {
        Some(UDAError::InvalidSecretHash)
    } else if destination_hash@ != digest {
        Some(UDAError::DestinationHashMismatchComputedHash)
    } else if accounts.uda == redeemer {
        Some(UDAError::SameAddress)
    } else if accounts.mint_account != mint {
        Some(UDAError::InvalidMint)
    } else {
        None
    }
}

/// `c` is what a successful `create_uda_spl` yields.
pub open spec fn is_uda_creation(
    c: UdaCreation,
    accounts: CreateSPLUDA,
    mint: Pubkey,
    refund_address: Pubkey,
    redeemer: Pubkey,
    timelock: u64,
    secret_hash: [u8; 32],
    amount: u64,
    destination_data: Seq<u8>,
    destination_hash: [u8; 32],
    current_slot: u64,
) -> bool {
    &&& c.uda.mint == mint
    &&& c.uda.refund_address == refund_address
    &&& c.uda.redeemer == redeemer
    &&& c.uda.timelock == timelock
    &&& c.uda.secret_hash == secret_hash
    &&& c.uda.amount == amount
    &&& c.uda.vault_address == accounts.uda_token_vault
    &&& c.uda.created_at == current_slot
    &&& c.uda.rent_sponsor == accounts.payer
    &&& c.uda.destination_data@ == destination_data
    &&& c.uda.destination_hash == destination_hash
    &&& c.uda.identity_pda_bump == accounts.identity_pda_bump
    &&& c.event == SPLUDACreated {
        uda_address: accounts.uda,
        vault_address: accounts.uda_token_vault,
        refund_address,
        amount,
        timelock,
    }
    &&& c.vault_address == accounts.uda_token_vault
}

/// Creates an SPL-token UDA, given `computed_hash`, the SHA-256 digest of
/// `destination_data`.
pub fn create_uda_spl_with_digest(
    accounts: &CreateSPLUDA,
    mint: Pubkey,
    refund_address: Pubkey,
    redeemer: Pubkey,
    timelock: u64,
    secret_hash: [u8; 32],
    amount: u64,
    destination_data: Vec<u8>,
    destination_hash: [u8; 32],
    computed_hash: [u8; 32],
    current_slot: u64,
) -> (r: Result<UdaCreation, UDAError>)
    ensures
        match create_uda_error(
            *accounts,
            mint,
            refund_address,
            redeemer,
            secret_hash,
            destination_hash,
            computed_hash@,
        ) {
            Some(e) => r == Err::<UdaCreation, UDAError>(e),
            None => r matches Ok(c) && is_uda_creation(
                c,
                *accounts,
                mint,
                refund_address,
                redeemer,
                timelock,
                secret_hash,
                amount,
                destination_data@,
                destination_hash,
                current_slot,
            ),
        },
        r matches Ok(c) ==> {
            &&& computed_hash@ == destination_hash@
            &&& c.uda.destination_data@ == destination_data@
            &&& c.uda.destination_hash == destination_hash
            &&& c.uda.mint == mint && c.uda.refund_address == refund_address
            &&& c.uda.redeemer == redeemer && c.uda.secret_hash == secret_hash
            &&& c.uda.amount == amount && c.uda.timelock == timelock
            &&& c.uda.created_at == current_slot
            &&& c.event.uda_address == accounts.uda && c.event.amount == amount
            &&& c.event.timelock == timelock && c.event.refund_address == refund_address
            &&& c.event.vault_address == accounts.uda_token_vault
            &&& c.vault_address == accounts.uda_token_vault
            &&& c.uda.vault_address == accounts.uda_token_vault
            &&& c.uda.rent_sponsor == accounts.payer
            &&& c.uda.identity_pda_bump == accounts.identity_pda_bump
        },
{
    if refund_address.equals(&redeemer) {
        return Err(UDAError::SameAddress);
    }
    if refund_address.is_default() {
        return Err(UDAError::InvalidAddress);
    }
    if redeemer.is_default() {
        return Err(UDAError::InvalidAddress);
    }
    if mint.is_default() {
        return Err(UDAError::InvalidMint);
    }
    if bytes32_is_zero(&secret_hash) {
        return Err(UDAError::InvalidSecretHash);
    }
    if !bytes32_eq(&destination_hash, &computed_hash) {
        return Err(UDAError::DestinationHashMismatchComputedHash);
    }
    if accounts.uda.equals(&redeemer) {
        return Err(UDAError::SameAddress);
    }
    if !accounts.mint_account.equals(&mint) {
        return Err(UDAError::InvalidMint);
    }
    let uda = SPLUDA {
        mint,
        refund_address,
        redeemer,
        timelock,
        secret_hash,
        amount,
        vault_address: accounts.uda_token_vault,
        created_at: current_slot,
        rent_sponsor: accounts.payer,
        destination_data,
        destination_hash,
        identity_pda_bump: accounts.identity_pda_bump,
    };
    let event = SPLUDACreated {
        uda_address: accounts.uda,
        vault_address: accounts.uda_token_vault,
        refund_address,
        amount,
        timelock,
    };
    Ok(UdaCreation { uda, event, vault_address: accounts.uda_token_vault })
}

/// Creates an SPL-token UDA at `current_slot`. Fails when the refund address
/// and the redeemer (or the UDA itself and the redeemer) are the same, an
/// address or the mint is the default key, the secret hash is all zeros, the
/// destination hash is not the SHA-256 hash of the destination data, or the
/// mint account is not `mint`.
pub fn create_uda_spl(
    accounts: &CreateSPLUDA,
    mint: Pubkey,
    refund_address: Pubkey,
    redeemer: Pubkey,
    timelock: u64,
    secret_hash: [u8; 32],
    amount: u64,
    destination_data: Vec<u8>,
    destination_hash: [u8; 32],
    current_slot: u64,
) -> (r: Result<UdaCreation, UDAError>)
    ensures
        match create_uda_error(
            *accounts,
            mint,
            refund_address,
            redeemer,
            secret_hash,
            destination_hash,
            sha256(destination_data@),
        ) {
            Some(e) => r == Err::<UdaCreation, UDAError>(e),
            None => r matches Ok(c) && is_uda_creation(
                c,
                *accounts,
                mint,
                refund_address,
                redeemer,
                timelock,
                secret_hash,
                amount,
                destination_data@,
                destination_hash,
                current_slot,
            ),
        },
        r matches Ok(c) ==> {
            &&& sha256(c.uda.destination_data@) == c.uda.destination_hash@
            &&& c.uda.destination_data@ == destination_data@
            &&& c.uda.destination_hash == destination_hash
            &&& c.uda.mint == mint && c.uda.refund_address == refund_address
            &&& c.uda.redeemer == redeemer && c.uda.secret_hash == secret_hash
            &&& c.uda.amount == amount && c.uda.timelock == timelock
            &&& c.uda.created_at == current_slot
            &&& c.event.uda_address == accounts.uda && c.event.amount == amount
            &&& c.event.timelock == timelock && c.event.refund_address == refund_address
            &&& c.event.vault_address == accounts.uda_token_vault
            &&& c.vault_address == accounts.uda_token_vault
            &&& c.uda.vault_address == accounts.uda_token_vault
            &&& c.uda.rent_sponsor == accounts.payer
            &&& c.uda.identity_pda_bump == accounts.identity_pda_bump
        },
{
    let computed_hash = sha256_digest(destination_data.as_slice());
    create_uda_spl_with_digest(
        accounts,
        mint,
        refund_address,
        redeemer,
        timelock,
        secret_hash,
        amount,
        destination_data,
        destination_hash,
        computed_hash,
        current_slot,
    )
}

/// What `initiate_uda` does before the residual is returned: the transfer of
/// the swap amount into the program's vault, the swap state to store and the
/// two events to emit.
#[derive(Clone, Debug, PartialEq, Eq)]
pub struct UdaInitiation {
    pub transfer: TokenTransfer,
    pub swap_data: SwapAccount,
    pub htlc_event: HTLCInitiated,
    pub initiated_event: Initiated,
}

/// The error `initiate_uda` fails with, if any.
pub open spec fn initiate_uda_error(uda: SPLUDA, accounts: InitiateUDA) -> Option<UDAError> {
    if !(accounts.mint_account == uda.mint && accounts.uda_token_vault.mint == uda.mint
        && accounts.refund_token_account.mint == uda.mint) {
        Some(UDAError::InvalidMint)
    } else if accounts.uda_token_vault.amount < uda.amount {
        Some(UDAError::InsufficientFunds)
    } else {
        None
    }
}

/// The swap state that `initiate_uda` stores: the UDA's terms, with the
/// refund address as refundee, refundable `uda.timelock` slots after
/// `current_slot`.
pub open spec fn uda_swap(uda: SPLUDA, accounts: InitiateUDA, current_slot: u64) -> SwapAccount {
    SwapAccount {
        bump: accounts.swap_data_bump,
        expiry_slot: (current_slot + uda.timelock) as u64,
        identity_pda_bump: uda.identity_pda_bump,
        rent_sponsor: accounts.rent_sponsor,
        mint: uda.mint,
        redeemer: uda.redeemer,
        refundee: uda.refund_address,
        secret_hash: uda.secret_hash,
        swap_amount: uda.amount,
        timelock: uda.timelock,
    }
}

/// The transfer of the swap amount from the UDA's staging vault into the
/// program's vault, with the UDA as authority; the program signs for the
/// UDA with its seeds and `accounts.uda_bump` (`SPLUDA::signer_seeds`).
pub open spec fn uda_deposit(uda: SPLUDA, accounts: InitiateUDA) -> TokenTransfer {
    TokenTransfer {
        from: accounts.uda_token_vault.key,
        to: accounts.token_vault.key,
        authority: accounts.uda,
        amount: uda.amount,
        signer: ProgramSigner::Uda { bump: accounts.uda_bump },
    }
}

/// The checks of `initiate_uda`: the mint account and both token accounts
/// are of the UDA's mint, and the staging vault holds at least the amount.
pub fn initiate_uda_checks(uda: &SPLUDA, accounts: &InitiateUDA) -> (r: Result<(), UDAError>)
    ensures
        match initiate_uda_error(*uda, *accounts) {
            Some(e) => r == Err::<(), UDAError>(e),
            None => r == Ok::<(), UDAError>(()),
        },
{
    if !(accounts.mint_account.equals(&uda.mint) && accounts.uda_token_vault.mint.equals(&uda.mint)
        && accounts.refund_token_account.mint.equals(&uda.mint)) {
        return Err(UDAError::InvalidMint);
    }
    if accounts.uda_token_vault.amount < uda.amount {
        return Err(UDAError::InsufficientFunds);
    }
    Ok(())
}

/// Initiates a swap from a UDA at `current_slot`: moves the UDA's amount
/// into the program's vault and stores the swap, with the UDA's refund
/// address as refundee. The stored destination data goes into the
/// `Initiated` event.
pub fn initiate_uda(uda: &SPLUDA, accounts: &InitiateUDA, current_slot: u64) -> (r: Result<
    UdaInitiation,
    UDAError,
>)
    requires
        initiate_uda_error(*uda, *accounts) is None ==> current_slot + uda.timelock <= u64::MAX,
    ensures
        match initiate_uda_error(*uda, *accounts) {
            Some(e) => r == Err::<UdaInitiation, UDAError>(e),
            None => r matches Ok(i) && {
                &&& i.transfer == uda_deposit(*uda, *accounts)
                &&& i.swap_data == uda_swap(*uda, *accounts, current_slot)
                &&& i.htlc_event == (HTLCInitiated {
                    uda_address: accounts.uda,
                    swap_amount: uda.amount,
                    timelock: uda.timelock,
                })
                &&& i.initiated_event.reports(i.swap_data)
                &&& i.initiated_event.destination_data matches Some(d) && d@
                    == uda.destination_data@
            },
        },
        r matches Ok(i) ==> {
            &&& i.transfer.amount == uda.amount && i.transfer.from == accounts.uda_token_vault.key
            &&& i.transfer.to == accounts.token_vault.key && i.transfer.authority == accounts.uda
            &&& i.transfer.signer == (ProgramSigner::Uda { bump: accounts.uda_bump })
            &&& i.swap_data.swap_amount == uda.amount && i.swap_data.timelock == uda.timelock
            &&& i.swap_data.expiry_slot == current_slot + uda.timelock
            &&& i.swap_data.mint == uda.mint && i.swap_data.redeemer == uda.redeemer
            &&& i.swap_data.refundee == uda.refund_address
            &&& i.swap_data.secret_hash == uda.secret_hash
            &&& i.swap_data.bump == accounts.swap_data_bump
            &&& i.swap_data.identity_pda_bump == uda.identity_pda_bump
            &&& i.swap_data.rent_sponsor == accounts.rent_sponsor
            &&& i.htlc_event.uda_address == accounts.uda && i.htlc_event.swap_amount == uda.amount
            &&& i.htlc_event.timelock == uda.timelock
            &&& i.initiated_event.swap_amount == uda.amount && i.initiated_event.timelock
                == uda.timelock
            &&& i.initiated_event.mint == uda.mint && i.initiated_event.redeemer == uda.redeemer
            &&& i.initiated_event.refundee == uda.refund_address
            &&& i.initiated_event.secret_hash == uda.secret_hash
        },
{
    match initiate_uda_checks(uda, accounts) {
        Err(e) => {
            return Err(e);
        },
        Ok(()) => {},
    }
    let transfer = TokenTransfer {
        from: accounts.uda_token_vault.key,
        to: accounts.token_vault.key,
        authority: accounts.uda,
        amount: uda.amount,
        signer: ProgramSigner::Uda { bump: accounts.uda_bump },
    };
    let expiry_slot = current_slot + uda.timelock;
    let swap_data = SwapAccount {
        expiry_slot,
        bump: accounts.swap_data_bump,
        identity_pda_bump: uda.identity_pda_bump,
        rent_sponsor: accounts.rent_sponsor,
        mint: uda.mint,
        redeemer: uda.redeemer,
        refundee: uda.refund_address,
        secret_hash: uda.secret_hash,
        swap_amount: uda.amount,
        timelock: uda.timelock,
    };
    let htlc_event = HTLCInitiated {
        uda_address: accounts.uda,
        swap_amount: uda.amount,
        timelock: uda.timelock,
    };
    let initiated_event = Initiated {
        mint: uda.mint,
        redeemer: uda.redeemer,
        refundee: uda.refund_address,
        secret_hash: uda.secret_hash,
        swap_amount: uda.amount,
        timelock: uda.timelock,
        destination_data: Some(uda.destination_data.clone()),
    };
    Ok(UdaInitiation { transfer, swap_data, htlc_event, initiated_event })
}

/// The transfer of what is left in the UDA's staging vault, `vault_balance`
/// as read after the deposit, to the refund token account, signed by the
/// program for the UDA; none when nothing is left.
pub open spec fn residual_transfer(accounts: InitiateUDA, vault_balance: u64) -> Option<
    TokenTransfer,
> {
    if vault_balance > 0 {
        Some(
            TokenTransfer {
                from: accounts.uda_token_vault.key,
                to: accounts.refund_token_account.key,
                authority: accounts.uda,
                amount: vault_balance,
                signer: ProgramSigner::Uda { bump: accounts.uda_bump },
            },
        )
    } else {
        None
    }
}

/// The last step of `initiate_uda`: returns the staging vault's remaining
/// balance, re-read after the deposit, to the refund token account.
pub fn residual_refund(accounts: &InitiateUDA, vault_balance: u64) -> (t: Option<TokenTransfer>)
    ensures
        t == residual_transfer(*accounts, vault_balance),
        t is Some <==> vault_balance > 0,
        t matches Some(x) ==> x.amount == vault_balance && x.from == accounts.uda_token_vault.key
            && x.to == accounts.refund_token_account.key && x.authority == accounts.uda
            && x.signer == (ProgramSigner::Uda { bump: accounts.uda_bump }),
{
    if vault_balance > 0 {
        Some(
            TokenTransfer {
                from: accounts.uda_token_vault.key,
                to: accounts.refund_token_account.key,
                authority: accounts.uda,
                amount: vault_balance,
                signer: ProgramSigner::Uda { bump: accounts.uda_bump },
            },
        )
    } else {
        None
    }
}

} // verus!
