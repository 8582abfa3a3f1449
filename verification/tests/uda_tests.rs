use solana_spl_swaps::accounts::{ProgramSigner, CreateSPLUDA, InitiateUDA, Redeem, TokenAccount, TokenTransfer};
use solana_spl_swaps::error::UDAError;
use solana_spl_swaps::events::{HTLCInitiated, SPLUDACreated};
use solana_spl_swaps::pubkey::Pubkey;
use solana_spl_swaps::seeds::{swap_data_seeds, token_vault_seeds, uda_seeds, uda_token_vault_seeds};
use solana_spl_swaps::state::SPLUDA;
use solana_spl_swaps::swap::redeem;
use solana_spl_swaps::uda::{
    create_uda_spl, create_uda_spl_with_digest, initiate_uda, initiate_uda_checks, residual_refund,
};

fn key(b: u8) -> Pubkey {
    Pubkey::new_from_array([b; 32])
}

fn hex32(s: &str) -> [u8; 32] {
    let mut out = [0u8; 32];
    for i in 0..32 {
        out[i] = u8::from_str_radix(&s[2 * i..2 * i + 2], 16).unwrap();
    }
    out
}

/// SHA-256 of "abc".
const ABC_HASH: &str = "ba7816bf8f01cfea414140de5dae2223b00361a396177a9cb410ff61f20015ad";
/// SHA-256 of 32 zero bytes.
const ZERO_SECRET_HASH: &str = "66687aadf862bd776c8fc18b8e9f8e20089714856ee233b3902a591d0d5f2925";

fn create_accounts() -> CreateSPLUDA {
    CreateSPLUDA {
        uda: key(30),
        identity_pda: key(8),
        identity_pda_bump: 253,
        uda_token_vault: key(31),
        mint_account: key(1),
        payer: key(9),
    }
}

fn create(
    accounts: &CreateSPLUDA,
    mint: Pubkey,
    refund_address: Pubkey,
    redeemer: Pubkey,
    secret_hash: [u8; 32],
    destination_hash: [u8; 32],
) -> Result<solana_spl_swaps::uda::UdaCreation, UDAError> {
    create_uda_spl(
        accounts,
        mint,
        refund_address,
        redeemer,
        100,
        secret_hash,
        1_000,
        b"abc".to_vec(),
        destination_hash,
        5_000,
    )
}

fn sample_uda() -> SPLUDA {
    SPLUDA {
        mint: key(1),
        refund_address: key(3),
        redeemer: key(2),
        timelock: 100,
        secret_hash: hex32(ZERO_SECRET_HASH),
        amount: 1_000,
        vault_address: key(31),
        created_at: 5_000,
        rent_sponsor: key(9),
        destination_data: b"abc".to_vec(),
        destination_hash: hex32(ABC_HASH),
        identity_pda_bump: 253,
    }
}

fn token(k: u8, mint: u8, owner: u8, amount: u64) -> TokenAccount {
    TokenAccount { key: key(k), mint: key(mint), owner: key(owner), amount }
}

fn initiate_accounts(staged: u64) -> InitiateUDA {
    InitiateUDA {
        uda: key(30),
        uda_bump: 249,
        uda_token_vault: token(31, 1, 30, staged),
        refund_token_account: token(32, 1, 3, 0),
        refund_address: key(3),
        rent_sponsor: key(9),
        identity_pda: key(8),
        swap_data_bump: 250,
        token_vault: token(20, 1, 8, 0),
        mint_account: key(1),
    }
}

#[test]
fn create_uda_stores_terms() {
    let accounts = create_accounts();
    let c = create(&accounts, key(1), key(3), key(2), hex32(ZERO_SECRET_HASH), hex32(ABC_HASH)).unwrap();
    assert_eq!(c.uda, sample_uda());
    assert_eq!(c.vault_address, key(31));
    assert_eq!(
        c.event,
        SPLUDACreated { uda_address: key(30), vault_address: key(31), refund_address: key(3), amount: 1_000, timelock: 100 }
    );
}

#[test]
fn create_uda_same_refund_and_redeemer() {
    let accounts = create_accounts();
    let r = create(&accounts, Pubkey::default(), key(2), key(2), [0u8; 32], [0u8; 32]);
    assert_eq!(r.unwrap_err(), UDAError::SameAddress);
}

#[test]
fn create_uda_default_refund_address() {
    let accounts = create_accounts();
    let r = create(&accounts, key(1), Pubkey::default(), key(2), hex32(ZERO_SECRET_HASH), hex32(ABC_HASH));
    assert_eq!(r.unwrap_err(), UDAError::InvalidAddress);
}

#[test]
fn create_uda_default_redeemer() {
    let accounts = create_accounts();
    let r = create(&accounts, key(1), key(3), Pubkey::default(), hex32(ZERO_SECRET_HASH), hex32(ABC_HASH));
    assert_eq!(r.unwrap_err(), UDAError::InvalidAddress);
}

#[test]
fn create_uda_default_mint() {
    let accounts = create_accounts();
    let r = create(&accounts, Pubkey::default(), key(3), key(2), hex32(ZERO_SECRET_HASH), hex32(ABC_HASH));
    assert_eq!(r.unwrap_err(), UDAError::InvalidMint);
}

#[test]
fn create_uda_zero_secret_hash() {
    let accounts = create_accounts();
    let r = create(&accounts, key(1), key(3), key(2), [0u8; 32], hex32(ABC_HASH));
    assert_eq!(r.unwrap_err(), UDAError::InvalidSecretHash);
}

#[test]
fn create_uda_destination_hash_mismatch() {
    let accounts = create_accounts();
    let r = create(&accounts, key(1), key(3), key(2), hex32(ZERO_SECRET_HASH), [1u8; 32]);
    assert_eq!(r.unwrap_err(), UDAError::DestinationHashMismatchComputedHash);
    // The data itself is not its hash.
    let mut data_as_hash = [0u8; 32];
    data_as_hash[0] = b'a';
    data_as_hash[1] = b'b';
    data_as_hash[2] = b'c';
    let r = create(&accounts, key(1), key(3), key(2), hex32(ZERO_SECRET_HASH), data_as_hash);
    assert_eq!(r.unwrap_err(), UDAError::DestinationHashMismatchComputedHash);
}

#[test]
fn create_uda_empty_destination_data() {
    let accounts = create_accounts();
    let empty_hash = hex32("e3b0c44298fc1c149afbf4c8996fb92427ae41e4649b934ca495991b7852b855");
    let r = create_uda_spl(&accounts, key(1), key(3), key(2), 1, [4u8; 32], 2, Vec::new(), empty_hash, 0);
    assert!(r.is_ok());
}

#[test]
fn create_uda_account_is_redeemer() {
    let mut accounts = create_accounts();
    accounts.uda = key(2);
    let r = create(&accounts, key(1), key(3), key(2), hex32(ZERO_SECRET_HASH), hex32(ABC_HASH));
    assert_eq!(r.unwrap_err(), UDAError::SameAddress);
}

#[test]
fn create_uda_mint_account_mismatch() {
    let mut accounts = create_accounts();
    accounts.mint_account = key(7);
    let r = create(&accounts, key(1), key(3), key(2), hex32(ZERO_SECRET_HASH), hex32(ABC_HASH));
    assert_eq!(r.unwrap_err(), UDAError::InvalidMint);
}

#[test]
fn create_uda_with_given_digest() {
    let accounts = create_accounts();
    let r = create_uda_spl_with_digest(
        &accounts, key(1), key(3), key(2), 100, [6u8; 32], 10, vec![9u8], [5u8; 32], [5u8; 32], 1,
    );
    assert!(r.is_ok());
    let r = create_uda_spl_with_digest(
        &accounts, key(1), key(3), key(2), 100, [6u8; 32], 10, vec![9u8], [5u8; 32], [4u8; 32], 1,
    );
    assert_eq!(r.unwrap_err(), UDAError::DestinationHashMismatchComputedHash);
}

#[test]
fn initiate_uda_moves_amount_and_stores_swap() {
    let uda = sample_uda();
    let accounts = initiate_accounts(1_000);
    let i = initiate_uda(&uda, &accounts, 7_000).unwrap();
    assert_eq!(
        i.transfer,
        TokenTransfer { from: key(31), to: key(20), authority: key(30), amount: 1_000, signer: ProgramSigner::Uda { bump: 249 } }
    );
    assert_eq!(i.swap_data.expiry_slot, 7_100);
    assert_eq!(i.swap_data.timelock, 100);
    assert_eq!(i.swap_data.bump, 250);
    assert_eq!(i.swap_data.identity_pda_bump, 253);
    assert_eq!(i.swap_data.rent_sponsor, key(9));
    assert_eq!(i.swap_data.mint, key(1));
    assert_eq!(i.swap_data.redeemer, key(2));
    assert_eq!(i.swap_data.refundee, key(3));
    assert_eq!(i.swap_data.secret_hash, hex32(ZERO_SECRET_HASH));
    assert_eq!(i.swap_data.swap_amount, 1_000);
    assert_eq!(i.htlc_event, HTLCInitiated { uda_address: key(30), swap_amount: 1_000, timelock: 100 });
    assert_eq!(i.initiated_event.refundee, key(3));
    assert_eq!(i.initiated_event.destination_data, Some(b"abc".to_vec()));
    assert_eq!(residual_refund(&accounts, 0), None);
}

#[test]
fn initiate_uda_returns_residual() {
    let uda = sample_uda();
    let accounts = initiate_accounts(1_250);
    assert!(initiate_uda(&uda, &accounts, 0).is_ok());
    assert_eq!(
        residual_refund(&accounts, 250),
        Some(TokenTransfer { from: key(31), to: key(32), authority: key(30), amount: 250, signer: ProgramSigner::Uda { bump: 249 } })
    );
}

#[test]
fn initiate_uda_insufficient_funds() {
    let uda = sample_uda();
    assert_eq!(initiate_uda(&uda, &initiate_accounts(999), 0).unwrap_err(), UDAError::InsufficientFunds);
    assert_eq!(initiate_uda_checks(&uda, &initiate_accounts(999)), Err(UDAError::InsufficientFunds));
    assert_eq!(initiate_uda_checks(&uda, &initiate_accounts(1_000)), Ok(()));
}

#[test]
fn initiate_uda_wrong_mint() {
    let uda = sample_uda();
    let mut accounts = initiate_accounts(5_000);
    accounts.mint_account = key(7);
    assert_eq!(initiate_uda(&uda, &accounts, 0).unwrap_err(), UDAError::InvalidMint);
    let mut accounts = initiate_accounts(0);
    accounts.uda_token_vault.mint = key(7);
    assert_eq!(initiate_uda(&uda, &accounts, 0).unwrap_err(), UDAError::InvalidMint);
    let mut accounts = initiate_accounts(5_000);
    accounts.refund_token_account.mint = key(7);
    assert_eq!(initiate_uda(&uda, &accounts, 0).unwrap_err(), UDAError::InvalidMint);
}

#[test]
fn uda_swap_is_redeemable_with_the_secret() {
    let c = create(&create_accounts(), key(1), key(3), key(2), hex32(ZERO_SECRET_HASH), hex32(ABC_HASH)).unwrap();
    let i = initiate_uda(&c.uda, &initiate_accounts(1_000), 10).unwrap();
    assert_eq!(
        i.swap_data.seeds(),
        swap_data_seeds(&key(1), &key(2), &key(3), &hex32(ZERO_SECRET_HASH), 1_000, 100)
    );
    let accounts = Redeem {
        identity_pda: key(8),
        token_vault: token(20, 1, 8, 1_000),
        redeemer_token_account: token(21, 1, 2, 0),
        rent_sponsor: key(9),
    };
    let r = redeem(&i.swap_data, &accounts, [0u8; 32]).unwrap();
    assert_eq!(r.transfer.amount, 1_000);
    assert_eq!(r.transfer.to, key(21));
}

#[test]
fn uda_seeds_layout() {
    let uda = sample_uda();
    let s = uda.seeds();
    assert_eq!(s.len(), 8);
    assert_eq!(s[0], b"spl_uda".to_vec());
    assert_eq!(s[5], 1_000u64.to_le_bytes().to_vec());
    assert_eq!(s[6], 100u64.to_le_bytes().to_vec());
    assert_eq!(s[7], hex32(ABC_HASH).to_vec());
    assert_eq!(
        s,
        uda_seeds(&key(1), &key(3), &key(2), &hex32(ZERO_SECRET_HASH), 1_000, 100, &hex32(ABC_HASH))
    );
    assert_eq!(token_vault_seeds(&key(1)), vec![vec![1u8; 32]]);
    assert_eq!(uda_token_vault_seeds(&key(1), &key(30)), vec![b"token_vault".to_vec(), vec![1u8; 32], vec![30u8; 32]]);
}

#[test]
fn uda_signs_with_its_address_seeds_and_bump() {
    let uda = sample_uda();
    let mut expected = uda.seeds();
    expected.push(vec![249u8]);
    assert_eq!(uda.signer_seeds(249), expected);
    assert_eq!(uda.signer_seeds(249).len(), 9);
    let i = initiate_uda(&uda, &initiate_accounts(1_000), 0).unwrap();
    assert_eq!(i.transfer.signer, ProgramSigner::Uda { bump: 249 });
    assert_eq!(i.transfer.authority, key(30));
}

#[test]
fn initiate_uda_moves_whole_staging_balance() {
    let uda = sample_uda();
    let accounts = initiate_accounts(1_250);
    let i = initiate_uda(&uda, &accounts, 0).unwrap();
    let left = accounts.uda_token_vault.amount - i.transfer.amount;
    let residual = residual_refund(&accounts, left).unwrap();
    assert_eq!(i.transfer.amount + residual.amount, 1_250);
    assert_eq!(residual.signer, ProgramSigner::Uda { bump: 249 });
}
