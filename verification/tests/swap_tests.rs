use solana_spl_swaps::accounts::{ProgramSigner, Initiate, InstantRefund, Redeem, Refund, TokenAccount, TokenTransfer};
use solana_spl_swaps::error::SwapError;
use solana_spl_swaps::events::{InstantRefunded, Redeemed, Refunded};
use solana_spl_swaps::pubkey::{bytes32_eq, bytes32_is_zero, Pubkey};
use solana_spl_swaps::seeds::{identity_signer_seeds, swap_data_seeds};
use solana_spl_swaps::state::SwapAccount;
use solana_spl_swaps::swap::{initiate, instant_refund, redeem, redeem_with_digest, refund};

fn key(b: u8) -> Pubkey {
    Pubkey::new_from_array([b; 32])
}

fn hex32(s: &str) -> [u8; 32] {
    let mut out = [0u8; 32];
    for i in 0..32 {
        out[i] = u8::from_str_radix(&s[2 * i..2 * i + 2], 16).unwrap();
    }
    out
}

/// SHA-256 of 32 zero bytes.
const ZERO_SECRET_HASH: &str = "66687aadf862bd776c8fc18b8e9f8e20089714856ee233b3902a591d0d5f2925";
/// SHA-256 of 32 bytes of value 7.
const SEVENS_SECRET_HASH: &str = "4bb06f8e4e3a7715d201d573d0aa423762e55dabd61a2c02278fa56cc6d294e0";

fn token(k: u8, mint: u8, owner: u8, amount: u64) -> TokenAccount {
    TokenAccount { key: key(k), mint: key(mint), owner: key(owner), amount }
}

fn sample_swap() -> SwapAccount {
    SwapAccount {
        bump: 254,
        expiry_slot: 1_100,
        identity_pda_bump: 253,
        rent_sponsor: key(9),
        mint: key(1),
        redeemer: key(2),
        refundee: key(3),
        secret_hash: hex32(ZERO_SECRET_HASH),
        swap_amount: 1_000_000,
        timelock: 100,
    }
}

fn redeem_accounts(rent_sponsor: u8) -> Redeem {
    Redeem {
        identity_pda: key(8),
        token_vault: token(20, 1, 8, 1_000_000),
        redeemer_token_account: token(21, 1, 2, 0),
        rent_sponsor: key(rent_sponsor),
    }
}

fn refund_accounts(rent_sponsor: u8) -> Refund {
    Refund {
        identity_pda: key(8),
        token_vault: token(20, 1, 8, 1_000_000),
        refundee_token_account: token(22, 1, 3, 0),
        rent_sponsor: key(rent_sponsor),
    }
}

fn instant_accounts(redeemer: u8, rent_sponsor: u8) -> InstantRefund {
    InstantRefund {
        identity_pda: key(8),
        token_vault: token(20, 1, 8, 1_000_000),
        refundee_token_account: token(22, 1, 3, 0),
        redeemer: key(redeemer),
        rent_sponsor: key(rent_sponsor),
    }
}

fn initiate_accounts() -> Initiate {
    Initiate {
        identity_pda: key(8),
        identity_pda_bump: 253,
        swap_data_bump: 254,
        token_vault: token(20, 1, 8, 0),
        funder: key(4),
        funder_token_account: token(23, 1, 4, 5_000_000),
        mint: key(1),
        rent_sponsor: key(9),
    }
}

#[test]
fn default_key_is_all_zeros() {
    let d = Pubkey::default();
    assert_eq!(d.to_bytes(), [0u8; 32]);
    assert!(d.is_default());
    assert!(!key(1).is_default());
    let mut almost = [0u8; 32];
    almost[31] = 1;
    assert!(!Pubkey::new_from_array(almost).is_default());
}

#[test]
fn key_equality_compares_all_bytes() {
    assert!(key(5).equals(&key(5)));
    assert!(!key(5).equals(&key(6)));
    let mut a = [3u8; 32];
    let b = [3u8; 32];
    a[17] = 4;
    assert!(!bytes32_eq(&a, &b));
    assert!(bytes32_eq(&b, &b));
    assert!(bytes32_is_zero(&[0u8; 32]));
    assert!(!bytes32_is_zero(&b));
}

#[test]
fn initiate_deposits_and_sets_expiry() {
    let accounts = initiate_accounts();
    let data = Some(vec![1u8, 2, 3]);
    let r = initiate(&accounts, key(2), key(3), hex32(ZERO_SECRET_HASH), 1_000_000, 100, data.clone(), 1_000);
    assert_eq!(
        r.transfer,
        TokenTransfer { from: key(23), to: key(20), authority: key(4), amount: 1_000_000, signer: ProgramSigner::Caller }
    );
    assert_eq!(r.swap_data, sample_swap());
    assert_eq!(r.swap_data.expiry_slot, 1_100);
    assert_eq!(r.event.mint, key(1));
    assert_eq!(r.event.redeemer, key(2));
    assert_eq!(r.event.refundee, key(3));
    assert_eq!(r.event.secret_hash, hex32(ZERO_SECRET_HASH));
    assert_eq!(r.event.swap_amount, 1_000_000);
    assert_eq!(r.event.timelock, 100);
    assert_eq!(r.event.destination_data, data);
}

#[test]
fn initiate_without_destination_data() {
    let r = initiate(&initiate_accounts(), key(2), key(3), [5u8; 32], 1, 0, None, 42);
    assert_eq!(r.swap_data.expiry_slot, 42);
    assert_eq!(r.event.destination_data, None);
}

#[test]
fn initiated_swap_seeds_match_creation_seeds() {
    let r = initiate(&initiate_accounts(), key(2), key(3), hex32(ZERO_SECRET_HASH), 1_000_000, 100, None, 1_000);
    let expected = swap_data_seeds(&key(1), &key(2), &key(3), &hex32(ZERO_SECRET_HASH), 1_000_000, 100);
    assert_eq!(r.swap_data.seeds(), expected);
    assert_eq!(expected.len(), 6);
    assert_eq!(expected[4], 1_000_000u64.to_le_bytes().to_vec());
    assert_eq!(expected[5], vec![100u8, 0, 0, 0, 0, 0, 0, 0]);
    assert_eq!(expected[0], vec![1u8; 32]);
}

#[test]
fn redeem_with_right_secret_pays_redeemer() {
    let swap = sample_swap();
    let r = redeem(&swap, &redeem_accounts(9), [0u8; 32]).unwrap();
    assert_eq!(
        r.transfer,
        TokenTransfer { from: key(20), to: key(21), authority: key(8), amount: 1_000_000, signer: ProgramSigner::Identity { bump: 253 } }
    );
    assert_eq!(
        r.event,
        Redeemed { mint: key(1), redeemer: key(2), refundee: key(3), secret: [0u8; 32], swap_amount: 1_000_000, timelock: 100 }
    );
}

#[test]
fn redeem_hashes_the_secret() {
    let mut swap = sample_swap();
    swap.secret_hash = hex32(SEVENS_SECRET_HASH);
    assert!(redeem(&swap, &redeem_accounts(9), [7u8; 32]).is_ok());
    // The secret itself is not its hash.
    swap.secret_hash = [7u8; 32];
    assert_eq!(redeem(&swap, &redeem_accounts(9), [7u8; 32]).unwrap_err(), SwapError::InvalidSecret);
}

#[test]
fn redeem_with_wrong_secret_fails() {
    let swap = sample_swap();
    assert_eq!(redeem(&swap, &redeem_accounts(9), [1u8; 32]).unwrap_err(), SwapError::InvalidSecret);
}

#[test]
fn redeem_with_wrong_rent_sponsor_fails_first() {
    let swap = sample_swap();
    assert_eq!(redeem(&swap, &redeem_accounts(10), [1u8; 32]).unwrap_err(), SwapError::InvalidRentSponsor);
    assert_eq!(redeem(&swap, &redeem_accounts(10), [0u8; 32]).unwrap_err(), SwapError::InvalidRentSponsor);
}

#[test]
fn redeem_with_given_digest() {
    let swap = sample_swap();
    let ok = redeem_with_digest(&swap, &redeem_accounts(9), [1u8; 32], hex32(ZERO_SECRET_HASH));
    assert!(ok.is_ok());
    let bad = redeem_with_digest(&swap, &redeem_accounts(9), [0u8; 32], [0u8; 32]);
    assert_eq!(bad.unwrap_err(), SwapError::InvalidSecret);
}

#[test]
fn refund_at_expiry_slot_is_too_early() {
    let swap = sample_swap();
    assert_eq!(refund(&swap, &refund_accounts(9), 1_100).unwrap_err(), SwapError::RefundBeforeExpiry);
    assert_eq!(refund(&swap, &refund_accounts(9), 0).unwrap_err(), SwapError::RefundBeforeExpiry);
}

#[test]
fn refund_after_expiry_pays_refundee() {
    let swap = sample_swap();
    let r = refund(&swap, &refund_accounts(9), 1_101).unwrap();
    assert_eq!(
        r.transfer,
        TokenTransfer { from: key(20), to: key(22), authority: key(8), amount: 1_000_000, signer: ProgramSigner::Identity { bump: 253 } }
    );
    assert_eq!(
        r.event,
        Refunded {
            mint: key(1),
            redeemer: key(2),
            refundee: key(3),
            secret_hash: hex32(ZERO_SECRET_HASH),
            swap_amount: 1_000_000,
            timelock: 100
        }
    );
}

#[test]
fn refund_with_wrong_rent_sponsor_fails() {
    let swap = sample_swap();
    assert_eq!(refund(&swap, &refund_accounts(3), 5_000).unwrap_err(), SwapError::InvalidRentSponsor);
    assert_eq!(refund(&swap, &refund_accounts(3), 5).unwrap_err(), SwapError::InvalidRentSponsor);
}

#[test]
fn instant_refund_needs_the_redeemer() {
    let swap = sample_swap();
    assert_eq!(instant_refund(&swap, &instant_accounts(3, 9)).unwrap_err(), SwapError::InvalidRedeemer);
    assert_eq!(instant_refund(&swap, &instant_accounts(3, 10)).unwrap_err(), SwapError::InvalidRedeemer);
    assert_eq!(instant_refund(&swap, &instant_accounts(2, 10)).unwrap_err(), SwapError::InvalidRentSponsor);
}

#[test]
fn instant_refund_pays_refundee_before_expiry() {
    let swap = sample_swap();
    let r = instant_refund(&swap, &instant_accounts(2, 9)).unwrap();
    assert_eq!(
        r.transfer,
        TokenTransfer { from: key(20), to: key(22), authority: key(8), amount: 1_000_000, signer: ProgramSigner::Identity { bump: 253 } }
    );
    assert_eq!(
        r.event,
        InstantRefunded {
            mint: key(1),
            redeemer: key(2),
            refundee: key(3),
            secret_hash: hex32(ZERO_SECRET_HASH),
            swap_amount: 1_000_000,
            timelock: 100
        }
    );
}

#[test]
fn initiated_swap_can_be_redeemed_or_later_refunded() {
    let accounts = initiate_accounts();
    let init = initiate(&accounts, key(2), key(3), hex32(SEVENS_SECRET_HASH), 500, 10, None, 7);
    let swap = init.swap_data;
    let redeemed = redeem(&swap, &redeem_accounts(9), [7u8; 32]).unwrap();
    assert_eq!(redeemed.transfer.amount, init.transfer.amount);
    assert_eq!(refund(&swap, &refund_accounts(9), 17).unwrap_err(), SwapError::RefundBeforeExpiry);
    let refunded = refund(&swap, &refund_accounts(9), 18).unwrap();
    assert_eq!(refunded.transfer.amount, init.transfer.amount);
}

#[test]
fn identity_pda_signs_with_its_bump_alone() {
    assert_eq!(identity_signer_seeds(253), vec![vec![253u8]]);
}

#[test]
fn vault_covers_open_swaps_after_each_settlement() {
    // Two open swaps of the same mint, escrowing 1_000_000 and 300; the vault holds both.
    let first = sample_swap();
    let mut second = sample_swap();
    second.swap_amount = 300;
    second.refundee = key(5);
    let mut vault = first.swap_amount + second.swap_amount;
    let r = redeem(&first, &redeem_accounts(9), [0u8; 32]).unwrap();
    vault -= r.transfer.amount;
    assert!(vault >= second.swap_amount);
    let r = refund(&second, &refund_accounts(9), 2_000).unwrap();
    vault -= r.transfer.amount;
    assert_eq!(vault, 0);
}
