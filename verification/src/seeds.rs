//! The seeds from which the program's accounts derive their addresses.
use vstd::prelude::*;
use vstd::bytes::{spec_u64_to_le_bytes, u64_to_le_bytes};
use crate::pubkey::Pubkey;
use crate::state::{SPLUDA, SwapAccount};

verus! {

/// The byte strings of a seed list.
pub open spec fn seeds_view(seeds: Seq<Vec<u8>>) -> Seq<Seq<u8>> {
    seeds.map_values(|s: Vec<u8>| s@)
}

/// The prefix of a UDA's seeds: `b"spl_uda"`.
pub open spec fn uda_prefix() -> Seq<u8> {
    seq![115u8, 112u8, 108u8, 95u8, 117u8, 100u8, 97u8]
}

/// The prefix of a UDA staging vault's seeds: `b"token_vault"`.
pub open spec fn uda_vault_prefix() -> Seq<u8> {
    seq![116u8, 111u8, 107u8, 101u8, 110u8, 95u8, 118u8, 97u8, 117u8, 108u8, 116u8]
}

/// The seeds of a swap-data account: the swap's terms.
pub open spec fn swap_seeds(
    mint: Pubkey,
    redeemer: Pubkey,
    refundee: Pubkey,
    secret_hash: [u8; 32],
    swap_amount: u64,
    timelock: u64,
) -> Seq<Seq<u8>> {
    seq![
        mint@,
        redeemer@,
        refundee@,
        secret_hash@,
        spec_u64_to_le_bytes(swap_amount),
        spec_u64_to_le_bytes(timelock),
    ]
}

/// The seeds of a UDA account: its terms, after the `b"spl_uda"` prefix.
pub open spec fn uda_seeds_of(
    mint: Pubkey,
    refund_address: Pubkey,
    redeemer: Pubkey,
    secret_hash: [u8; 32],
    amount: u64,
    timelock: u64,
    destination_hash: [u8; 32],
) -> Seq<Seq<u8>> {
    seq![
        uda_prefix(),
        mint@,
        refund_address@,
        redeemer@,
        secret_hash@,
        spec_u64_to_le_bytes(amount),
        spec_u64_to_le_bytes(timelock),
        destination_hash@,
    ]
}

impl SwapAccount {
    /// The seeds this swap's account address derives from.
    pub open spec fn seeds_spec(self) -> Seq<Seq<u8>> {
        swap_seeds(
            self.mint,
            self.redeemer,
            self.refundee,
            self.secret_hash,
            self.swap_amount,
            self.timelock,
        )
    }

    /// The seeds this swap's account address derives from.
    pub fn seeds(&self) -> (s: Vec<Vec<u8>>)
        ensures
            seeds_view(s@) == self.seeds_spec(),
            seeds_view(s@) == seq![
                self.mint@,
                self.redeemer@,
                self.refundee@,
                self.secret_hash@,
                spec_u64_to_le_bytes(self.swap_amount),
                spec_u64_to_le_bytes(self.timelock),
            ],
    {
        swap_data_seeds(
            &self.mint,
            &self.redeemer,
            &self.refundee,
            &self.secret_hash,
            self.swap_amount,
            self.timelock,
        )
    }
}

impl SPLUDA {
    /// The seeds this UDA's account address derives from.
    pub open spec fn seeds_spec(self) -> Seq<Seq<u8>> {
        uda_seeds_of(
            self.mint,
            self.refund_address,
            self.redeemer,
            self.secret_hash,
            self.amount,
            self.timelock,
            self.destination_hash,
        )
    }

    /// The seeds with which the program signs for this UDA: its address
    /// seeds followed by the one-byte seed `bump`.
    pub open spec fn signer_seeds_spec(self, bump: u8) -> Seq<Seq<u8>> {
        self.seeds_spec().push(seq![bump])
    }

    /// The seeds with which the program signs for this UDA: its address
    /// seeds followed by the one-byte seed `bump`.
    pub fn signer_seeds(&self, bump: u8) -> (s: Vec<Vec<u8>>)
        ensures
            seeds_view(s@) == self.signer_seeds_spec(bump),
            seeds_view(s@) == seq![
                seq![115u8, 112u8, 108u8, 95u8, 117u8, 100u8, 97u8],
                self.mint@,
                self.refund_address@,
                self.redeemer@,
                self.secret_hash@,
                spec_u64_to_le_bytes(self.amount),
                spec_u64_to_le_bytes(self.timelock),
                self.destination_hash@,
                seq![bump],
            ],
    {
        let mut s = self.seeds();
        let ghost before = s@;
        let last = vec![bump];
        assert(last@ =~= seq![bump]);
        s.push(last);
        assert(seeds_view(s@) =~= seeds_view(before).push(seq![bump]));
        s
    }

    /// The seeds this UDA's account address derives from.
    pub fn seeds(&self) -> (s: Vec<Vec<u8>>)
        ensures
            seeds_view(s@) == self.seeds_spec(),
            seeds_view(s@) == seq![
                seq![115u8, 112u8, 108u8, 95u8, 117u8, 100u8, 97u8],
                self.mint@,
                self.refund_address@,
                self.redeemer@,
                self.secret_hash@,
                spec_u64_to_le_bytes(self.amount),
                spec_u64_to_le_bytes(self.timelock),
                self.destination_hash@,
            ],
    {
        uda_seeds(
            &self.mint,
            &self.refund_address,
            &self.redeemer,
            &self.secret_hash,
            self.amount,
            self.timelock,
            &self.destination_hash,
        )
    }
}

/// The bytes of a 32-byte array, as a vector.
fn bytes32_to_vec(a: &[u8; 32]) -> (v: Vec<u8>)
    ensures
        v@ == a@,
{
    let mut v: Vec<u8> = Vec::new();
    let mut i: usize = 0;
    while i < 32
        invariant
            i <= 32,
            v@ == a@.take(i as int),
        decreases 32 - i,
    {
        v.push(a[i]);
        i = i + 1;
        assert(v@ =~= a@.take(i as int));
    }
    assert(a@.take(32) =~= a@);
    v
}

/// The seeds of the swap-data account for the given terms.
pub fn swap_data_seeds(
    mint: &Pubkey,
    redeemer: &Pubkey,
    refundee: &Pubkey,
    secret_hash: &[u8; 32],
    swap_amount: u64,
    timelock: u64,
) -> (s: Vec<Vec<u8>>)
    ensures
        seeds_view(s@) == swap_seeds(*mint, *redeemer, *refundee, *secret_hash, swap_amount, timelock),
        seeds_view(s@) == seq![
            mint@,
            redeemer@,
            refundee@,
            secret_hash@,
            spec_u64_to_le_bytes(swap_amount),
            spec_u64_to_le_bytes(timelock),
        ],
{
    let mut s: Vec<Vec<u8>> = Vec::new();
    s.push(bytes32_to_vec(&mint.bytes));
    s.push(bytes32_to_vec(&redeemer.bytes));
    s.push(bytes32_to_vec(&refundee.bytes));
    s.push(bytes32_to_vec(secret_hash));
    s.push(u64_to_le_bytes(swap_amount));
    s.push(u64_to_le_bytes(timelock));
    assert(seeds_view(s@) =~= swap_seeds(
        *mint,
        *redeemer,
        *refundee,
        *secret_hash,
        swap_amount,
        timelock,
    ));
    s
}

/// The seeds of the UDA account for the given terms.
pub fn uda_seeds(
    mint: &Pubkey,
    refund_address: &Pubkey,
    redeemer: &Pubkey,
    secret_hash: &[u8; 32],
    amount: u64,
    timelock: u64,
    destination_hash: &[u8; 32],
) -> (s: Vec<Vec<u8>>)
    ensures
        seeds_view(s@) == uda_seeds_of(
            *mint,
            *refund_address,
            *redeemer,
            *secret_hash,
            amount,
            timelock,
            *destination_hash,
        ),
        seeds_view(s@) == seq![
            seq![115u8, 112u8, 108u8, 95u8, 117u8, 100u8, 97u8],
            mint@,
            refund_address@,
            redeemer@,
            secret_hash@,
            spec_u64_to_le_bytes(amount),
            spec_u64_to_le_bytes(timelock),
            destination_hash@,
        ],
{
    let mut s: Vec<Vec<u8>> = Vec::new();
    s.push(vec![115u8, 112u8, 108u8, 95u8, 117u8, 100u8, 97u8]);
    s.push(bytes32_to_vec(&mint.bytes));
    s.push(bytes32_to_vec(&refund_address.bytes));
    s.push(bytes32_to_vec(&redeemer.bytes));
    s.push(bytes32_to_vec(secret_hash));
    s.push(u64_to_le_bytes(amount));
    s.push(u64_to_le_bytes(timelock));
    s.push(bytes32_to_vec(destination_hash));
    assert(s@[0]@ =~= uda_prefix());
    assert(seeds_view(s@) =~= uda_seeds_of(
        *mint,
        *refund_address,
        *redeemer,
        *secret_hash,
        amount,
        timelock,
        *destination_hash,
    ));
    s
}

/// The seeds with which the program signs for the identity PDA: no address
/// seeds, then the one-byte seed `bump`.
pub fn identity_signer_seeds(bump: u8) -> (s: Vec<Vec<u8>>)
    ensures
        seeds_view(s@) == seq![seq![bump]],
{
    let mut s: Vec<Vec<u8>> = Vec::new();
    let only = vec![bump];
    assert(only@ =~= seq![bump]);
    s.push(only);
    assert(seeds_view(s@) =~= seq![seq![bump]]);
    s
}

/// The seeds of the program's vault for `mint`: the mint alone.
pub fn token_vault_seeds(mint: &Pubkey) -> (s: Vec<Vec<u8>>)
    ensures
        seeds_view(s@) == seq![mint@],
{
    let mut s: Vec<Vec<u8>> = Vec::new();
    s.push(bytes32_to_vec(&mint.bytes));
    assert(seeds_view(s@) =~= seq![mint@]);
    s
}

/// The seeds of a UDA's staging vault: `b"token_vault"`, the mint, the UDA.
pub fn uda_token_vault_seeds(mint: &Pubkey, uda: &Pubkey) -> (s: Vec<Vec<u8>>)
    ensures
        seeds_view(s@) == seq![uda_vault_prefix(), mint@, uda@],
        seeds_view(s@) == seq![
            seq![116u8, 111u8, 107u8, 101u8, 110u8, 95u8, 118u8, 97u8, 117u8, 108u8, 116u8],
            mint@,
            uda@,
        ],
{
    let mut s: Vec<Vec<u8>> = Vec::new();
    s.push(vec![116u8, 111u8, 107u8, 101u8, 110u8, 95u8, 118u8, 97u8, 117u8, 108u8, 116u8]);
    s.push(bytes32_to_vec(&mint.bytes));
    s.push(bytes32_to_vec(&uda.bytes));
    assert(s@[0]@ =~= uda_vault_prefix());
    assert(seeds_view(s@) =~= seq![uda_vault_prefix(), mint@, uda@]);
    s
}

} // verus!
