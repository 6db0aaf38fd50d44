//! The commitment digest that binds a forge request to what it proved.

use vstd::prelude::*;
use crate::hashing::{byte_parts, hashv, sha256_of};

verus! {

/// Digest of the fragments, fed in order to one SHA-256 hasher. With no
/// fragments a single empty input is hashed, which gives the digest of the
/// empty string.
pub open spec fn commitment_of(fragments: Seq<Seq<u8>>) -> Seq<u8> {
    sha256_of(fragments.flatten())
}

/// Computes the commitment digest of the fragments.
pub fn compute_commitment(fragments: &Vec<Vec<u8>>) -> (r: [u8; 32])
    ensures
        r@ == commitment_of(byte_parts(fragments@)),
{
    if fragments.len() == 0 {
        let mut single: Vec<Vec<u8>> = Vec::new();
        single.push(Vec::new());
        assert(byte_parts(single@) =~= seq![Seq::<u8>::empty()]);
        proof {
            seq![Seq::<u8>::empty()].lemma_flatten_one_element();
            assert(byte_parts(fragments@) =~= Seq::<Seq<u8>>::empty());
        }
        hashv(&single)
    } else {
        hashv(fragments)
    }
}

} // verus!
