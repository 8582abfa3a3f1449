//! Properties of the swap and UDA instructions, stated over the
//! specifications of their results.
use vstd::prelude::*;
use crate::accounts::{ProgramSigner, TokenAccount, CreateSPLUDA, Initiate, InitiateUDA, InstantRefund, Redeem, Refund, Settlement};
use crate::error::SwapError;
use crate::error::UDAError;
use crate::events::{InstantRefunded, Redeemed, Refunded};
use crate::hash::sha256;
use crate::pubkey::{zero_bytes32, Pubkey};
use vstd::bytes::spec_u64_to_le_bytes;
use crate::seeds::{swap_seeds, uda_seeds_of};
use crate::state::{SPLUDA, SwapAccount};
use crate::swap::{
    initiate_deposit, initiated_swap, instant_refund_result, redeem_result, refund_result,
};
use crate::uda::{
    create_uda_error, initiate_uda_error, is_uda_creation, residual_transfer, uda_deposit, uda_swap,
    UdaCreation,
};

verus! {

/// Hash lock: a redeem succeeds exactly when the secret's digest is the
/// swap's secret hash (and the rent sponsor is the swap's).
pub proof fn lemma_redeem_needs_secret(
    swap: SwapAccount,
    accounts: Redeem,
    secret: [u8; 32],
    digest: Seq<u8>,
)
    ensures
        redeem_result(swap, accounts, secret, digest) is Ok <==> (accounts.rent_sponsor
            == swap.rent_sponsor && digest == swap.secret_hash@),
        accounts.rent_sponsor == swap.rent_sponsor && digest != swap.secret_hash@ ==> redeem_result(
            swap,
            accounts,
            secret,
            digest,
        ) == Err::<Settlement<Redeemed>, SwapError>(SwapError::InvalidSecret),
{
}

/// Time lock: a (non-instant) refund succeeds exactly when the current slot
/// is past the expiry slot (and the rent sponsor is the swap's).
pub proof fn lemma_refund_only_after_expiry(swap: SwapAccount, accounts: Refund, current_slot: u64)
    ensures
        refund_result(swap, accounts, current_slot) is Ok <==> (accounts.rent_sponsor
            == swap.rent_sponsor && current_slot > swap.expiry_slot),
{
}

/// An instant refund succeeds exactly when the swap's redeemer signs (and
/// the rent sponsor is the swap's), whatever the slot.
pub proof fn lemma_instant_refund_needs_redeemer(swap: SwapAccount, accounts: InstantRefund)
    ensures
        instant_refund_result(swap, accounts) is Ok <==> (accounts.redeemer == swap.redeemer
            && accounts.rent_sponsor == swap.rent_sponsor),
{
}

/// Every settlement of a swap (redeem, refund, instant refund) moves exactly
/// the escrowed amount out of the vault, signed by the identity PDA.
pub proof fn lemma_settlements_release_the_escrow(
    swap: SwapAccount,
    redeem_accounts: Redeem,
    secret: [u8; 32],
    digest: Seq<u8>,
    refund_accounts: Refund,
    current_slot: u64,
    instant_accounts: InstantRefund,
)
    ensures
        redeem_result(swap, redeem_accounts, secret, digest) matches Ok(s) ==> {
            &&& s.transfer.amount == swap.swap_amount
            &&& s.transfer.from == redeem_accounts.token_vault.key
            &&& s.transfer.authority == redeem_accounts.identity_pda
            &&& s.transfer.signer == ProgramSigner::Identity { bump: swap.identity_pda_bump }
        },
        refund_result(swap, refund_accounts, current_slot) matches Ok(s) ==> {
            &&& s.transfer.amount == swap.swap_amount
            &&& s.transfer.from == refund_accounts.token_vault.key
            &&& s.transfer.authority == refund_accounts.identity_pda
            &&& s.transfer.signer == ProgramSigner::Identity { bump: swap.identity_pda_bump }
        },
        instant_refund_result(swap, instant_accounts) matches Ok(s) ==> {
            &&& s.transfer.amount == swap.swap_amount
            &&& s.transfer.from == instant_accounts.token_vault.key
            &&& s.transfer.authority == instant_accounts.identity_pda
            &&& s.transfer.signer == ProgramSigner::Identity { bump: swap.identity_pda_bump }
        },
{
}

/// Where the accounts meet their declared constraints, a redeem pays a token
/// account of the swap's mint held by the redeemer, and both refunds pay one
/// held by the refundee.
pub proof fn lemma_funds_reach_the_right_party(
    swap: SwapAccount,
    redeem_accounts: Redeem,
    secret: [u8; 32],
    digest: Seq<u8>,
    refund_accounts: Refund,
    current_slot: u64,
    instant_accounts: InstantRefund,
)
    requires
        redeem_accounts.constraints_hold(swap),
        refund_accounts.constraints_hold(swap),
        instant_accounts.constraints_hold(swap),
    ensures
        redeem_result(swap, redeem_accounts, secret, digest) matches Ok(s) ==> s.transfer.to
            == redeem_accounts.redeemer_token_account.key
            && redeem_accounts.redeemer_token_account.holds(swap.mint, swap.redeemer),
        refund_result(swap, refund_accounts, current_slot) matches Ok(s) ==> s.transfer.to
            == refund_accounts.refundee_token_account.key
            && refund_accounts.refundee_token_account.holds(swap.mint, swap.refundee),
        instant_refund_result(swap, instant_accounts) matches Ok(s) ==> s.transfer.to
            == instant_accounts.refundee_token_account.key
            && instant_accounts.refundee_token_account.holds(swap.mint, swap.refundee),
{
}

/// The swap `initiate` stores lives at the address its terms derive (its
/// stored seeds are the seeds it was created with), expires `timelock`
/// slots after initiation, and escrows what was deposited.
pub proof fn lemma_initiate_stores_its_terms(
    accounts: Initiate,
    redeemer: Pubkey,
    refundee: Pubkey,
    secret_hash: [u8; 32],
    swap_amount: u64,
    timelock: u64,
    current_slot: u64,
)
    requires
        current_slot + timelock <= u64::MAX,
    ensures
        ({
            let swap = initiated_swap(
                accounts,
                redeemer,
                refundee,
                secret_hash,
                swap_amount,
                timelock,
                current_slot,
            );
            &&& swap.seeds_spec() == swap_seeds(
                accounts.mint,
                redeemer,
                refundee,
                secret_hash,
                swap_amount,
                timelock,
            )
            &&& swap.expiry_slot == current_slot + timelock
            &&& swap.swap_amount == initiate_deposit(accounts, swap_amount).amount
        }),
{
}

/// An initiated swap can be redeemed with the secret whose hash it was
/// initiated with, and the redeem releases the amount deposited; after its
/// expiry slot it can be refunded instead, releasing the same amount.
pub proof fn lemma_initiated_swap_settles(
    accounts: Initiate,
    redeemer: Pubkey,
    refundee: Pubkey,
    secret: [u8; 32],
    digest: Seq<u8>,
    secret_hash: [u8; 32],
    swap_amount: u64,
    timelock: u64,
    current_slot: u64,
    redeem_accounts: Redeem,
    refund_accounts: Refund,
    later_slot: u64,
)
    requires
        current_slot + timelock <= u64::MAX,
        secret_hash@ == digest,
        redeem_accounts.rent_sponsor == accounts.rent_sponsor,
        refund_accounts.rent_sponsor == accounts.rent_sponsor,
        later_slot > current_slot + timelock,
    ensures
        ({
            let swap = initiated_swap(
                accounts,
                redeemer,
                refundee,
                secret_hash,
                swap_amount,
                timelock,
                current_slot,
            );
            &&& redeem_result(swap, redeem_accounts, secret, digest) matches Ok(s)
                && s.transfer.amount == initiate_deposit(accounts, swap_amount).amount
            &&& refund_result(swap, refund_accounts, later_slot) matches Ok(s)
                && s.transfer.amount == initiate_deposit(accounts, swap_amount).amount
        }),
{
}

/// `create_uda_spl` succeeds exactly when the refund address and the
/// redeemer differ and are not the default key, the mint is not the default
/// key, the secret hash is not all zeros, the destination hash is the digest
/// of the destination data, the UDA is not the redeemer, and the mint
/// account is the mint.
pub proof fn lemma_uda_creation_conditions(
    accounts: CreateSPLUDA,
    mint: Pubkey,
    refund_address: Pubkey,
    redeemer: Pubkey,
    secret_hash: [u8; 32],
    destination_hash: [u8; 32],
    digest: Seq<u8>,
)
    ensures
        create_uda_error(
            accounts,
            mint,
            refund_address,
            redeemer,
            secret_hash,
            destination_hash,
            digest,
        ) is None <==> {
            &&& refund_address != redeemer
            &&& !refund_address.is_default_spec()
            &&& !redeemer.is_default_spec()
            &&& !mint.is_default_spec()
            &&& secret_hash@ != zero_bytes32()
            &&& destination_hash@ == digest
            &&& accounts.uda != redeemer
            &&& accounts.mint_account == mint
        },
{
}

/// A swap initiated from a UDA created by `create_uda_spl` carries the
/// UDA's terms: distinct, non-default redeemer and refundee, a non-zero
/// secret hash, the UDA's amount and timelock; and its stored seeds are the
/// seeds it is created with from the UDA's terms.
pub proof fn lemma_uda_swap_carries_uda_terms(
    c: UdaCreation,
    create_accounts: CreateSPLUDA,
    mint: Pubkey,
    refund_address: Pubkey,
    redeemer: Pubkey,
    timelock: u64,
    secret_hash: [u8; 32],
    amount: u64,
    destination_data: Seq<u8>,
    destination_hash: [u8; 32],
    digest: Seq<u8>,
    created_slot: u64,
    accounts: InitiateUDA,
    current_slot: u64,
)
    requires
        create_uda_error(
            create_accounts,
            mint,
            refund_address,
            redeemer,
            secret_hash,
            destination_hash,
            digest,
        ) is None,
        is_uda_creation(
            c,
            create_accounts,
            mint,
            refund_address,
            redeemer,
            timelock,
            secret_hash,
            amount,
            destination_data,
            destination_hash,
            created_slot,
        ),
    ensures
        ({
            let swap = uda_swap(c.uda, accounts, current_slot);
            &&& swap.redeemer == redeemer
            &&& swap.refundee == refund_address
            &&& swap.redeemer != swap.refundee
            &&& !swap.redeemer.is_default_spec()
            &&& !swap.refundee.is_default_spec()
            &&& swap.secret_hash@ != zero_bytes32()
            &&& swap.swap_amount == amount
            &&& swap.timelock == timelock
            &&& swap.seeds_spec() == swap_seeds(
                c.uda.mint,
                c.uda.redeemer,
                c.uda.refund_address,
                c.uda.secret_hash,
                c.uda.amount,
                c.uda.timelock,
            )
        }),
{
}

/// `initiate_uda` empties the UDA's staging vault: the deposit takes the
/// UDA's amount and the residual transfer, of the balance left after it,
/// takes the rest, so the two together move the whole balance; no residual
/// transfer is made when the balance was exactly the amount.
pub proof fn lemma_initiate_uda_empties_staging_vault(
    uda: SPLUDA,
    accounts: InitiateUDA,
)
    requires
        initiate_uda_error(uda, accounts) is None,
    ensures
        ({
            let balance = accounts.uda_token_vault.amount;
            let left = (balance - uda_deposit(uda, accounts).amount) as u64;
            &&& uda_deposit(uda, accounts).amount <= balance
            &&& match residual_transfer(accounts, left) {
                Some(t) => uda_deposit(uda, accounts).amount + t.amount == balance && t.from
                    == accounts.uda_token_vault.key && t.to == accounts.refund_token_account.key,
                None => uda_deposit(uda, accounts).amount == balance,
            }
        }),
{
}

/// Where the accounts meet their declared constraints, every deposit lands
/// in the program's vault for the swap's mint, controlled by the identity
/// PDA that later signs the settlement; the deposit of `initiate` comes from
/// the funder's own token account, and what `initiate_uda` leaves over goes
/// to a token account of the UDA's refund address. Both transfers of
/// `initiate_uda` are authorized by the staging vault's owner, the UDA, for
/// which the program signs with the UDA's bump. A swap initiated from a UDA
/// is owned, for its rent, by the UDA's rent sponsor.
pub proof fn lemma_deposits_reach_the_program_vault(
    accounts: Initiate,
    swap_amount: u64,
    uda: SPLUDA,
    uda_accounts: InitiateUDA,
    current_slot: u64,
    left: u64,
)
    requires
        accounts.constraints_hold(),
        uda_accounts.constraints_hold(uda),
        initiate_uda_error(uda, uda_accounts) is None,
    ensures
        initiate_deposit(accounts, swap_amount).to == accounts.token_vault.key,
        accounts.token_vault.holds(accounts.mint, accounts.identity_pda),
        initiate_deposit(accounts, swap_amount).from == accounts.funder_token_account.key,
        accounts.funder_token_account.holds(accounts.mint, initiate_deposit(accounts, swap_amount).authority),
        uda_deposit(uda, uda_accounts).to == uda_accounts.token_vault.key,
        uda_accounts.token_vault.holds(uda_swap(uda, uda_accounts, current_slot).mint, uda_accounts.identity_pda),
        residual_transfer(uda_accounts, left) matches Some(t) ==> t.to
            == uda_accounts.refund_token_account.key
            && uda_accounts.refund_token_account.holds(uda.mint, uda.refund_address),
        uda_swap(uda, uda_accounts, current_slot).rent_sponsor == uda.rent_sponsor,
        uda_deposit(uda, uda_accounts).from == uda_accounts.uda_token_vault.key,
        uda_accounts.uda_token_vault.owner == uda_deposit(uda, uda_accounts).authority,
        uda_deposit(uda, uda_accounts).signer == (ProgramSigner::Uda { bump: uda_accounts.uda_bump }),
        residual_transfer(uda_accounts, left) matches Some(t) ==> t.from
            == uda_accounts.uda_token_vault.key && t.authority == uda_accounts.uda_token_vault.owner
            && t.signer == (ProgramSigner::Uda { bump: uda_accounts.uda_bump }),
{
}

/// What `swap` escrows in the program's vault for `mint`.
pub open spec fn escrow_of(swap: SwapAccount, mint: Pubkey) -> int {
    if swap.mint == mint {
        swap.swap_amount as int
    } else {
        0
    }
}

/// What the open swaps `open` escrow, in total, in the vault for `mint`.
pub open spec fn escrowed(open: Seq<SwapAccount>, mint: Pubkey) -> int
    decreases open.len(),
{
    if open.len() == 0 {
        0
    } else {
        escrowed(open.drop_last(), mint) + escrow_of(open.last(), mint)
    }
}

/// Closing one open swap takes its escrow out of the total.
proof fn lemma_escrowed_remove(open: Seq<SwapAccount>, i: int, mint: Pubkey)
    requires
        0 <= i < open.len(),
    ensures
        escrowed(open, mint) == escrowed(open.remove(i), mint) + escrow_of(open[i], mint),
    decreases open.len(),
{
    if i == open.len() - 1 {
        assert(open.remove(i) =~= open.drop_last());
    } else {
        lemma_escrowed_remove(open.drop_last(), i, mint);
        assert(open.remove(i).drop_last() =~= open.drop_last().remove(i));
        assert(open.remove(i).last() == open.last());
    }
}

/// Opening a swap adds its escrow to the total.
proof fn lemma_escrowed_push(open: Seq<SwapAccount>, swap: SwapAccount, mint: Pubkey)
    ensures
        escrowed(open.push(swap), mint) == escrowed(open, mint) + escrow_of(swap, mint),
{
    assert(open.push(swap).drop_last() =~= open);
}

/// Vault solvency under settlement: where the program's vault for `mint`
/// holds `balance`, at least what the open swaps escrow for `mint`, and the
/// accounts meet their declared constraints (so a swap is paid out of its own
/// mint's vault), the vault still covers the swaps left open after any one of
/// them is redeemed, refunded or instantly refunded.
pub proof fn lemma_settlements_keep_vaults_solvent(
    open: Seq<SwapAccount>,
    i: int,
    mint: Pubkey,
    balance: int,
    redeem_accounts: Redeem,
    secret: [u8; 32],
    digest: Seq<u8>,
    refund_accounts: Refund,
    current_slot: u64,
    instant_accounts: InstantRefund,
)
    requires
        0 <= i < open.len(),
        balance >= escrowed(open, mint),
        redeem_accounts.constraints_hold(open[i]),
        refund_accounts.constraints_hold(open[i]),
        instant_accounts.constraints_hold(open[i]),
    ensures
        redeem_result(open[i], redeem_accounts, secret, digest) matches Ok(s) ==> {
            &&& redeem_accounts.token_vault.mint == open[i].mint
            &&& (if open[i].mint == mint {
                balance - s.transfer.amount
            } else {
                balance
            }) >= escrowed(open.remove(i), mint)
        },
        refund_result(open[i], refund_accounts, current_slot) matches Ok(s) ==> {
            &&& refund_accounts.token_vault.mint == open[i].mint
            &&& (if open[i].mint == mint {
                balance - s.transfer.amount
            } else {
                balance
            }) >= escrowed(open.remove(i), mint)
        },
        instant_refund_result(open[i], instant_accounts) matches Ok(s) ==> {
            &&& instant_accounts.token_vault.mint == open[i].mint
            &&& (if open[i].mint == mint {
                balance - s.transfer.amount
            } else {
                balance
            }) >= escrowed(open.remove(i), mint)
        },
{
    lemma_escrowed_remove(open, i, mint);
}

/// Vault solvency under initiation: where the program's vault for `mint`
/// covers the open swaps of `mint` and the accounts meet their declared
/// constraints, it still covers them with the swap that `initiate` opens
/// added, since its deposit goes into the vault of the swap's mint.
pub proof fn lemma_initiate_keeps_vaults_solvent(
    open: Seq<SwapAccount>,
    mint: Pubkey,
    balance: int,
    accounts: Initiate,
    redeemer: Pubkey,
    refundee: Pubkey,
    secret_hash: [u8; 32],
    swap_amount: u64,
    timelock: u64,
    current_slot: u64,
)
    requires
        balance >= escrowed(open, mint),
        accounts.constraints_hold(),
        current_slot + timelock <= u64::MAX,
    ensures
        ({
            let swap = initiated_swap(
                accounts,
                redeemer,
                refundee,
                secret_hash,
                swap_amount,
                timelock,
                current_slot,
            );
            let deposit = initiate_deposit(accounts, swap_amount);
            &&& accounts.token_vault.mint == swap.mint
            &&& (if swap.mint == mint {
                balance + deposit.amount
            } else {
                balance
            }) >= escrowed(open.push(swap), mint)
        }),
{
    let swap = initiated_swap(
        accounts,
        redeemer,
        refundee,
        secret_hash,
        swap_amount,
        timelock,
        current_slot,
    );
    lemma_escrowed_push(open, swap, mint);
}

/// Vault solvency under `initiate_uda`: the same as for `initiate`, for the
/// swap opened from a UDA, whose deposit goes into the vault of the UDA's
/// mint.
pub proof fn lemma_initiate_uda_keeps_vaults_solvent(
    open: Seq<SwapAccount>,
    mint: Pubkey,
    balance: int,
    uda: SPLUDA,
    accounts: InitiateUDA,
    current_slot: u64,
)
    requires
        balance >= escrowed(open, mint),
        accounts.constraints_hold(uda),
        initiate_uda_error(uda, accounts) is None,
    ensures
        ({
            let swap = uda_swap(uda, accounts, current_slot);
            let deposit = uda_deposit(uda, accounts);
            &&& accounts.token_vault.mint == swap.mint
            &&& (if swap.mint == mint {
                balance + deposit.amount
            } else {
                balance
            }) >= escrowed(open.push(swap), mint)
        }),
{
    lemma_escrowed_push(open, uda_swap(uda, accounts, current_slot), mint);
}

/// The program signs for a UDA with the seeds that the UDA's address was
/// created from, followed by its bump.
pub proof fn lemma_uda_signs_with_its_creation_seeds(
    c: UdaCreation,
    accounts: CreateSPLUDA,
    mint: Pubkey,
    refund_address: Pubkey,
    redeemer: Pubkey,
    timelock: u64,
    secret_hash: [u8; 32],
    amount: u64,
    destination_data: Seq<u8>,
    destination_hash: [u8; 32],
    current_slot: u64,
    bump: u8,
)
    requires
        is_uda_creation(
            c,
            accounts,
            mint,
            refund_address,
            redeemer,
            timelock,
            secret_hash,
            amount,
            destination_data,
            destination_hash,
            current_slot,
        ),
    ensures
        c.uda.signer_seeds_spec(bump) == uda_seeds_of(
            mint,
            refund_address,
            redeemer,
            secret_hash,
            amount,
            timelock,
            destination_hash,
        ).push(seq![bump]),
{
}

/// A settlement's event reports the settled swap's own terms, its amount
/// being the amount transferred; neither depends on how much the shared
/// vault of the mint holds: two settlements that differ only in the vault's
/// balance give the same result.
pub proof fn lemma_settlement_events_report_the_swap(
    swap: SwapAccount,
    redeem_accounts: Redeem,
    secret: [u8; 32],
    digest: Seq<u8>,
    refund_accounts: Refund,
    current_slot: u64,
    instant_accounts: InstantRefund,
    other_vault_balance: u64,
)
    ensures
        redeem_result(swap, redeem_accounts, secret, digest) matches Ok(s) ==> {
            &&& s.event.mint == swap.mint
            &&& s.event.redeemer == swap.redeemer
            &&& s.event.refundee == swap.refundee
            &&& s.event.secret == secret
            &&& s.event.swap_amount == swap.swap_amount
            &&& s.event.swap_amount == s.transfer.amount
            &&& s.event.timelock == swap.timelock
        },
        refund_result(swap, refund_accounts, current_slot) matches Ok(s) ==> {
            &&& s.event.mint == swap.mint
            &&& s.event.redeemer == swap.redeemer
            &&& s.event.refundee == swap.refundee
            &&& s.event.secret_hash == swap.secret_hash
            &&& s.event.swap_amount == swap.swap_amount
            &&& s.event.swap_amount == s.transfer.amount
            &&& s.event.timelock == swap.timelock
        },
        instant_refund_result(swap, instant_accounts) matches Ok(s) ==> {
            &&& s.event.mint == swap.mint
            &&& s.event.redeemer == swap.redeemer
            &&& s.event.refundee == swap.refundee
            &&& s.event.secret_hash == swap.secret_hash
            &&& s.event.swap_amount == swap.swap_amount
            &&& s.event.swap_amount == s.transfer.amount
            &&& s.event.timelock == swap.timelock
        },
        redeem_result(
            swap,
            Redeem {
                token_vault: TokenAccount { amount: other_vault_balance, ..redeem_accounts.token_vault },
                ..redeem_accounts
            },
            secret,
            digest,
        ) == redeem_result(swap, redeem_accounts, secret, digest),
        refund_result(
            swap,
            Refund {
                token_vault: TokenAccount { amount: other_vault_balance, ..refund_accounts.token_vault },
                ..refund_accounts
            },
            current_slot,
        ) == refund_result(swap, refund_accounts, current_slot),
        instant_refund_result(
            swap,
            InstantRefund {
                token_vault: TokenAccount {
                    amount: other_vault_balance,
                    ..instant_accounts.token_vault
                },
                ..instant_accounts
            },
        ) == instant_refund_result(swap, instant_accounts),
{
}

/// A UDA created by `create_uda_spl` stores the destination data unchanged,
/// whatever its length, so that the stored destination hash is the SHA-256
/// hash of the stored data.
pub proof fn lemma_created_uda_keeps_destination_data(
    c: UdaCreation,
    accounts: CreateSPLUDA,
    mint: Pubkey,
    refund_address: Pubkey,
    redeemer: Pubkey,
    timelock: u64,
    secret_hash: [u8; 32],
    amount: u64,
    destination_data: Seq<u8>,
    destination_hash: [u8; 32],
    current_slot: u64,
)
    requires
        create_uda_error(
            accounts,
            mint,
            refund_address,
            redeemer,
            secret_hash,
            destination_hash,
            sha256(destination_data),
        ) is None,
        is_uda_creation(
            c,
            accounts,
            mint,
            refund_address,
            redeemer,
            timelock,
            secret_hash,
            amount,
            destination_data,
            destination_hash,
            current_slot,
        ),
    ensures
        c.uda.destination_data@ == destination_data,
        c.uda.destination_data@.len() == destination_data.len(),
        sha256(c.uda.destination_data@) == c.uda.destination_hash@,
        c.uda.destination_hash == destination_hash,
{
}

/// The seeds with which the program signs for a UDA are, in this order:
/// `b"spl_uda"`, the mint, the refund address, the redeemer, the secret
/// hash, the amount and the timelock as 8 little-endian bytes, the
/// destination hash, then the one-byte bump, the order in which the UDA's
/// account declares its address seeds.
pub proof fn lemma_uda_signer_seed_layout(uda: SPLUDA, bump: u8)
    ensures
        uda.signer_seeds_spec(bump).len() == 9,
        uda.signer_seeds_spec(bump)[0] == seq![115u8, 112u8, 108u8, 95u8, 117u8, 100u8, 97u8],
        uda.signer_seeds_spec(bump)[1] == uda.mint@,
        uda.signer_seeds_spec(bump)[2] == uda.refund_address@,
        uda.signer_seeds_spec(bump)[3] == uda.redeemer@,
        uda.signer_seeds_spec(bump)[4] == uda.secret_hash@,
        uda.signer_seeds_spec(bump)[5] == spec_u64_to_le_bytes(uda.amount),
        uda.signer_seeds_spec(bump)[6] == spec_u64_to_le_bytes(uda.timelock),
        uda.signer_seeds_spec(bump)[7] == uda.destination_hash@,
        uda.signer_seeds_spec(bump)[8] == seq![bump],
        uda.seeds_spec() == uda.signer_seeds_spec(bump).drop_last(),
{
    assert(uda.seeds_spec() =~= uda.signer_seeds_spec(bump).drop_last());
}

/// A swap account's address seeds are, in this order: the mint, the
/// redeemer, the refundee, the secret hash, and the amount and timelock as
/// 8 little-endian bytes each.
pub proof fn lemma_swap_seed_layout(swap: SwapAccount)
    ensures
        swap.seeds_spec().len() == 6,
        swap.seeds_spec()[0] == swap.mint@,
        swap.seeds_spec()[1] == swap.redeemer@,
        swap.seeds_spec()[2] == swap.refundee@,
        swap.seeds_spec()[3] == swap.secret_hash@,
        swap.seeds_spec()[4] == spec_u64_to_le_bytes(swap.swap_amount),
        swap.seeds_spec()[5] == spec_u64_to_le_bytes(swap.timelock),
{
}

/// Which error each swap instruction fails with: the rent sponsor is checked
/// first (after the redeemer's signature, for an instant refund), then the
/// secret (redeem) or the expiry (refund).
pub proof fn lemma_swap_errors(
    swap: SwapAccount,
    redeem_accounts: Redeem,
    secret: [u8; 32],
    digest: Seq<u8>,
    refund_accounts: Refund,
    current_slot: u64,
    instant_accounts: InstantRefund,
)
    ensures
        redeem_accounts.rent_sponsor != swap.rent_sponsor ==> redeem_result(
            swap,
            redeem_accounts,
            secret,
            digest,
        ) == Err::<Settlement<Redeemed>, SwapError>(SwapError::InvalidRentSponsor),
        redeem_accounts.rent_sponsor == swap.rent_sponsor && digest != swap.secret_hash@
            ==> redeem_result(swap, redeem_accounts, secret, digest) == Err::<
            Settlement<Redeemed>,
            SwapError,
        >(SwapError::InvalidSecret),
        refund_accounts.rent_sponsor != swap.rent_sponsor ==> refund_result(
            swap,
            refund_accounts,
            current_slot,
        ) == Err::<Settlement<Refunded>, SwapError>(SwapError::InvalidRentSponsor),
        refund_accounts.rent_sponsor == swap.rent_sponsor && current_slot <= swap.expiry_slot
            ==> refund_result(swap, refund_accounts, current_slot) == Err::<
            Settlement<Refunded>,
            SwapError,
        >(SwapError::RefundBeforeExpiry),
        instant_accounts.redeemer != swap.redeemer ==> instant_refund_result(
            swap,
            instant_accounts,
        ) == Err::<Settlement<InstantRefunded>, SwapError>(SwapError::InvalidRedeemer),
        instant_accounts.redeemer == swap.redeemer && instant_accounts.rent_sponsor
            != swap.rent_sponsor ==> instant_refund_result(swap, instant_accounts) == Err::<
            Settlement<InstantRefunded>,
            SwapError,
        >(SwapError::InvalidRentSponsor),
{
}

/// Which error `create_uda_spl` fails with, in the documented order: the
/// same refund address and redeemer; a default refund address, then a
/// default redeemer; a default mint; a zero secret hash; a destination hash
/// that is not the digest of the data; the UDA being the redeemer; the mint
/// account not being the mint.
pub proof fn lemma_uda_creation_errors(
    accounts: CreateSPLUDA,
    mint: Pubkey,
    refund_address: Pubkey,
    redeemer: Pubkey,
    secret_hash: [u8; 32],
    destination_hash: [u8; 32],
    digest: Seq<u8>,
)
    ensures
        ({
            let e = create_uda_error(
                accounts,
                mint,
                refund_address,
                redeemer,
                secret_hash,
                destination_hash,
                digest,
            );
            let zero = Seq::new(32, |i: int| 0u8);
            let valid_parties = refund_address != redeemer && refund_address@ != zero
                && redeemer@ != zero;
            &&& refund_address == redeemer ==> e == Some(UDAError::SameAddress)
            &&& refund_address != redeemer && refund_address@ == zero ==> e == Some(
                UDAError::InvalidAddress,
            )
            &&& refund_address != redeemer && refund_address@ != zero && redeemer@ == zero ==> e
                == Some(UDAError::InvalidAddress)
            &&& valid_parties && mint@ == zero ==> e == Some(UDAError::InvalidMint)
            &&& valid_parties && mint@ != zero && secret_hash@ == zero ==> e == Some(
                UDAError::InvalidSecretHash,
            )
            &&& valid_parties && mint@ != zero && secret_hash@ != zero && destination_hash@
                != digest ==> e == Some(UDAError::DestinationHashMismatchComputedHash)
            &&& valid_parties && mint@ != zero && secret_hash@ != zero && destination_hash@
                == digest && accounts.uda == redeemer ==> e == Some(UDAError::SameAddress)
            &&& valid_parties && mint@ != zero && secret_hash@ != zero && destination_hash@
                == digest && accounts.uda != redeemer && accounts.mint_account != mint ==> e
                == Some(UDAError::InvalidMint)
        }),
{
    assert(zero_bytes32() =~= Seq::new(32, |i: int| 0u8));
}

/// Which error `initiate_uda` fails with: a mint account, staging vault or
/// refund token account of another mint than the UDA's gives `InvalidMint`;
/// otherwise a staging balance below the UDA's amount gives
/// `InsufficientFunds`; otherwise it succeeds.
pub proof fn lemma_initiate_uda_errors(uda: SPLUDA, accounts: InitiateUDA)
    ensures
        accounts.mint_account != uda.mint || accounts.uda_token_vault.mint != uda.mint
            || accounts.refund_token_account.mint != uda.mint ==> initiate_uda_error(uda, accounts)
            == Some(UDAError::InvalidMint),
        accounts.mint_account == uda.mint && accounts.uda_token_vault.mint == uda.mint
            && accounts.refund_token_account.mint == uda.mint && accounts.uda_token_vault.amount
            < uda.amount ==> initiate_uda_error(uda, accounts) == Some(UDAError::InsufficientFunds),
        accounts.mint_account == uda.mint && accounts.uda_token_vault.mint == uda.mint
            && accounts.refund_token_account.mint == uda.mint && accounts.uda_token_vault.amount
            >= uda.amount ==> initiate_uda_error(uda, accounts) is None,
{
}

} // verus!
