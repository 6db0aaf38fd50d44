//! Caller-supplied evidence and the lookups the constraint evaluators make in it.

use vstd::prelude::*;
use crate::addresses::{spl_token_program_id, token_program_key};
use crate::keys::keys_equal;

verus! {

/// Length of an SPL token mint record.
pub const MINT_RECORD_LEN: usize = 82;

/// One auxiliary record supplied with a forge request.
#[derive(Clone, Debug)]
pub struct EvidenceItem {
    /// Address of the record.
    pub key: [u8; 32],
    /// Program that owns the record.
    pub owner: [u8; 32],
    /// Whether the record's address signed the request.
    pub is_signer: bool,
    /// The record's contents.
    pub data: Vec<u8>,
}

/// What an evaluator looks for in the evidence.
#[derive(Clone, Copy, Debug)]
pub enum Lookup {
    /// A record owned by the SPL Token program.
    TokenAccount,
    /// A mint record: owned by the SPL Token program and of a mint's length.
    MintAccount,
    /// The record at a given address.
    Key { key: [u8; 32] },
}

/// Whether `e` is what `l` looks for.
pub open spec fn matches_lookup(e: EvidenceItem, l: Lookup) -> bool {
    match l {
        Lookup::TokenAccount => e.owner@ == token_program_key(),
        Lookup::MintAccount => e.owner@ == token_program_key() && e.data@.len() == MINT_RECORD_LEN,
        Lookup::Key { key } => e.key@ == key@,
    }
}

/// `i` is the position of the first record of `ev` that `l` looks for.
pub open spec fn is_first_match(ev: Seq<EvidenceItem>, l: Lookup, i: int) -> bool {
    &&& 0 <= i < ev.len()
    &&& matches_lookup(ev[i], l)
    &&& forall|j: int| 0 <= j < i ==> !matches_lookup(#[trigger] ev[j], l)
}

/// Position of the first record of `ev` that `l` looks for, if there is one.
pub open spec fn first_match(ev: Seq<EvidenceItem>, l: Lookup) -> Option<int> {
    if exists|i: int| is_first_match(ev, l, i) {
        Some(choose|i: int| is_first_match(ev, l, i))
    } else {
        None
    }
}

/// The first match is unique.
pub proof fn lemma_first_match_is(ev: Seq<EvidenceItem>, l: Lookup, i: int)
    requires
        is_first_match(ev, l, i),
    ensures
        first_match(ev, l) == Some(i),
{
    let c = choose|c: int| is_first_match(ev, l, c);
    if c < i {
        assert(!matches_lookup(ev[c], l));
    } else if c > i {
        assert(!matches_lookup(ev[i], l));
    }
}

fn item_matches(e: &EvidenceItem, l: &Lookup, token_program: &[u8; 32]) -> (r: bool)
    requires
        token_program@ == token_program_key(),
    ensures
        r == matches_lookup(*e, *l),
{
    match l {
        Lookup::TokenAccount => keys_equal(&e.owner, token_program),
        Lookup::MintAccount => keys_equal(&e.owner, token_program) && e.data.len()
            == MINT_RECORD_LEN,
        Lookup::Key { key } => keys_equal(&e.key, key),
    }
}

/// Position of the first record of `ev` that `l` looks for.
pub fn find_first(ev: &[EvidenceItem], l: &Lookup) -> (r: Option<usize>)
    ensures
        match r {
            Some(i) => first_match(ev@, *l) == Some(i as int),
            None => first_match(ev@, *l) is None,
        },
{
    let token_program = spl_token_program_id();
    let mut i: usize = 0;
    while i < ev.len()
        invariant
            0 <= i <= ev@.len(),
            token_program@ == token_program_key(),
            forall|j: int| 0 <= j < i ==> !matches_lookup(#[trigger] ev@[j], *l),
        decreases ev@.len() - i,
    {
        if item_matches(&ev[i], l, &token_program) {
            proof {
                lemma_first_match_is(ev@, *l, i as int);
            }
            return Some(i);
        }
        i += 1;
    }
    None
}

} // verus!
