use vstd::prelude::*;

verus! {

/// The SHA-256 digest of a byte string.
pub uninterp spec fn sha256(data: Seq<u8>) -> Seq<u8>;

/// SHA-256 of `data`, computed by `solana_program::hash::hash` (re-exported
/// by `anchor_lang`). Trusted: the digest is `sha256(data@)`, a function of
/// the bytes alone; its 32-byte length comes from the array type.
#[verifier::external_body]
pub(crate) fn sha256_digest(data: &[u8]) -> (digest: [u8; 32])
    ensures
        digest@ == sha256(data@),
{
    anchor_lang::solana_program::hash::hash(data).to_bytes()
}

} // verus!
