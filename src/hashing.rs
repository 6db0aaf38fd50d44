//! SHA-256 as the forge uses it, through the Solana program library.

use vstd::prelude::*;

verus! {

/// The SHA-256 digest of a byte string.
pub uninterp spec fn sha256_of(bytes: Seq<u8>) -> Seq<u8>;

/// The byte strings of a list of buffers.
pub open spec fn byte_parts(parts: Seq<Vec<u8>>) -> Seq<Seq<u8>> {
    parts.map_values(|p: Vec<u8>| p@)
}

/// Relies on `solana_program::hash::hashv`: it feeds each part in turn to one
/// SHA-256 hasher, so the result is the digest of the parts' concatenation.
#[verifier::external_body]
pub(crate) fn hashv(parts: &Vec<Vec<u8>>) -> (r: [u8; 32])
    ensures
        r@ == sha256_of(byte_parts(parts@).flatten()),
{
    let slices: Vec<&[u8]> = parts.iter().map(|p| p.as_slice()).collect();
    solana_program::hash::hashv(&slices).to_bytes()
}

} // verus!
