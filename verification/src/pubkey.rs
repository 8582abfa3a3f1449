use vstd::prelude::*;

verus! {

/// A 32-byte account address.
#[derive(Clone, Copy, Debug, PartialEq, Eq)]
pub struct Pubkey {
    pub bytes: [u8; 32],
}

impl View for Pubkey {
    type V = Seq<u8>;

    open spec fn view(&self) -> Seq<u8> {
        self.bytes@
    }
}

/// Thirty-two zero bytes: the default address, and the "unset" secret hash.
pub open spec fn zero_bytes32() -> Seq<u8> {
    Seq::new(32, |i: int| 0u8)
}

/// Compares two 32-byte arrays.
pub fn bytes32_eq(a: &[u8; 32], b: &[u8; 32]) -> (same: bool)
    ensures
        same == (*a == *b),
        same == (a@ == b@),
{
    let mut i: usize = 0;
    while i < 32
        invariant
            i <= 32,
            forall|j: int| 0 <= j < i ==> a[j] == b[j],
        decreases 32 - i,
    {
        if a[i] != b[i] {
            assert(a@[i as int] != b@[i as int]);
            return false;
        }
        i = i + 1;
    }
    assert(*a =~= *b);
    true
}

/// Whether all 32 bytes are zero.
pub fn bytes32_is_zero(a: &[u8; 32]) -> (zero: bool)
    ensures
        zero == (a@ == zero_bytes32()),
{
    let mut i: usize = 0;
    while i < 32
        invariant
            i <= 32,
            forall|j: int| 0 <= j < i ==> a[j] == 0u8,
        decreases 32 - i,
    {
        if a[i] != 0u8 {
            assert(a@[i as int] != zero_bytes32()[i as int]);
            return false;
        }
        i = i + 1;
    }
    assert(a@ =~= zero_bytes32());
    true
}

impl Pubkey {
    pub fn new_from_array(bytes: [u8; 32]) -> (key: Pubkey)
        ensures
            key.bytes == bytes,
    {
        Pubkey { bytes }
    }

    pub fn to_bytes(&self) -> (bytes: [u8; 32])
        ensures
            bytes == self.bytes,
    {
        self.bytes
    }

    /// Whether this is the all-zero default address.
    pub open spec fn is_default_spec(self) -> bool {
        self@ == zero_bytes32()
    }

    /// Whether this is the all-zero default address.
    pub fn is_default(&self) -> (b: bool)
        ensures
            b == self.is_default_spec(),
    {
        bytes32_is_zero(&self.bytes)
    }

    /// Address equality.
    pub fn equals(&self, other: &Pubkey) -> (b: bool)
        ensures
            b == (*self == *other),
    {
        bytes32_eq(&self.bytes, &other.bytes)
    }
}

impl Default for Pubkey {
    fn default() -> (key: Pubkey)
        ensures
            key.is_default_spec(),
    {
        let key = Pubkey { bytes: [0u8; 32] };
        assert(key@ =~= zero_bytes32());
        key
    }
}

} // verus!
