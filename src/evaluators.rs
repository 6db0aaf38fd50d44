//! The constraint evaluators: each checks the evidence for one ingredient and
//! yields the fragment that records what was proven.

use vstd::prelude::*;
use vstd::bytes::{spec_u64_from_le_bytes, spec_u64_to_le_bytes, u64_from_le_bytes, u64_to_le_bytes};
use vstd::slice::slice_subrange;
use crate::addresses::{
    associated_token_address, associated_token_address_of, key_vec, metadata_program_key,
    program_address_of,
};
use crate::errors::ForgeError;
use crate::evidence::{find_first, first_match, EvidenceItem, Lookup};
use crate::hashing::{byte_parts, hashv, sha256_of};
use crate::ingredients::IngredientConstraint;
use crate::keys::{key_less, keys_equal, lex_lt, push_all, read_key, tagged};
use crate::token_metadata::{derive_metadata_pda, metadata_seeds};

verus! {

/// Fragment tag of a signer constraint.
pub const SIGNER_TAG: u8 = 0;

/// Fragment tag of a custom-seeds constraint.
pub const CUSTOM_SEEDS_TAG: u8 = 1;

/// Fragment tag of a token-mint constraint.
pub const TOKEN_MINT_TAG: u8 = 2;

/// Fragment tag of a collection-NFT constraint.
pub const COLLECTION_NFT_TAG: u8 = 3;

/// Fragment tag of an allowlist constraint.
pub const ALLOWLIST_TAG: u8 = 4;

/// Shortest token account record that holds mint, owner and amount.
pub const TOKEN_RECORD_MIN_LEN: usize = 72;

/// Shortest metadata record that holds the mint it describes.
pub const METADATA_RECORD_MIN_LEN: usize = 65;

/// The byte strings of an evaluation's result.
pub open spec fn fragment_view(r: Result<Vec<u8>, ForgeError>) -> Result<Seq<u8>, ForgeError> {
    match r {
        Ok(v) => Ok(v@),
        Err(e) => Err(e),
    }
}

/// Mint named by a token account record.
pub open spec fn record_mint(d: Seq<u8>) -> Seq<u8> {
    d.subrange(0, 32)
}

/// Owner named by a token account record.
pub open spec fn record_owner(d: Seq<u8>) -> Seq<u8> {
    d.subrange(32, 64)
}

/// Balance held by a token account record (little-endian).
pub open spec fn record_amount(d: Seq<u8>) -> u64 {
    spec_u64_from_le_bytes(d.subrange(64, 72))
}

/// Mint that a metadata record describes.
pub open spec fn metadata_mint(d: Seq<u8>) -> Seq<u8> {
    d.subrange(33, 65)
}

/// Fragment of a signer constraint: tag, then the authority.
pub open spec fn signer_fragment(authority: Seq<u8>) -> Seq<u8> {
    seq![SIGNER_TAG] + authority
}

/// Fragment of a custom-seeds constraint: tag, then the seeds.
pub open spec fn seeds_fragment(seeds: Seq<u8>) -> Seq<u8> {
    seq![CUSTOM_SEEDS_TAG] + seeds
}

/// Fragment of a token-mint constraint: tag, mint, then the amount (little-endian).
pub open spec fn token_mint_fragment(mint: Seq<u8>, amount: u64) -> Seq<u8> {
    seq![TOKEN_MINT_TAG] + mint + spec_u64_to_le_bytes(amount)
}

/// Fragment of a collection-NFT constraint: tag, then the collection mint.
pub open spec fn collection_fragment(collection_mint: Seq<u8>) -> Seq<u8> {
    seq![COLLECTION_NFT_TAG] + collection_mint
}

/// Fragment of an allowlist constraint: tag, then the Merkle root.
pub open spec fn allowlist_fragment(root: Seq<u8>) -> Seq<u8> {
    seq![ALLOWLIST_TAG] + root
}

/// A signer constraint holds when the forger is the authority or a signing
/// record of the evidence has the authority's address.
pub open spec fn signer_outcome(forger: Seq<u8>, authority: Seq<u8>, ev: Seq<EvidenceItem>) -> Result<
    Seq<u8>,
    ForgeError,
> {
    if forger == authority || exists|i: int|
        0 <= i < ev.len() && #[trigger] ev[i].is_signer && ev[i].key@ == authority {
        Ok(signer_fragment(authority))
    } else {
        Err(ForgeError::MissingRequiredSigner)
    }
}

/// Outcome of a token-mint constraint: the first token account record of the
/// evidence must belong to the forger, be of `mint` and hold at least `amount`.
pub open spec fn token_mint_outcome(
    forger: Seq<u8>,
    mint: Seq<u8>,
    amount: u64,
    ev: Seq<EvidenceItem>,
) -> Result<Seq<u8>, ForgeError> {
    match first_match(ev, Lookup::TokenAccount) {
        None => Err(ForgeError::MissingTokenAccount),
        Some(i) => {
            let d = ev[i].data@;
            if d.len() < TOKEN_RECORD_MIN_LEN {
                Err(ForgeError::MissingTokenAccount)
            } else if record_owner(d) != forger {
                Err(ForgeError::TokenAccountOwnerMismatch)
            } else if record_mint(d) != mint {
                Err(ForgeError::TokenMintMismatch)
            } else if record_amount(d) < amount {
                Err(ForgeError::InsufficientTokenBalance)
            } else {
                Ok(token_mint_fragment(mint, amount))
            }
        },
    }
}

/// Outcome of the metadata check of a collection NFT: the metadata record of
/// `nft` must be in the evidence and describe `nft`.
pub open spec fn nft_metadata_outcome(
    nft: Seq<u8>,
    collection_mint: Seq<u8>,
    ev: Seq<EvidenceItem>,
) -> Result<Seq<u8>, ForgeError> {
    match program_address_of(metadata_seeds(nft), metadata_program_key()) {
        None => Err(ForgeError::MissingCollectionNft),
        Some(found) => match first_match(ev, Lookup::Key { key: found.0 }) {
            None => Err(ForgeError::MissingCollectionNft),
            Some(k) => {
                let d = ev[k].data@;
                if d.len() < METADATA_RECORD_MIN_LEN {
                    Err(ForgeError::MissingCollectionNft)
                } else if metadata_mint(d) != nft {
                    Err(ForgeError::TokenMintMismatch)
                } else {
                    Ok(collection_fragment(collection_mint))
                }
            },
        },
    }
}

/// Outcome of a collection-NFT constraint: the first mint record of the
/// evidence names the NFT; the forger's associated token account for it must
/// be in the evidence, belong to the forger and hold at least one token; then
/// the NFT's metadata is checked. Membership in `collection_mint` itself is
/// not checked.
pub open spec fn collection_nft_outcome(
    forger: Seq<u8>,
    collection_mint: Seq<u8>,
    ev: Seq<EvidenceItem>,
) -> Result<Seq<u8>, ForgeError> {
    match first_match(ev, Lookup::MintAccount) {
        None => Err(ForgeError::MissingCollectionNft),
        Some(m) => {
            let nft = ev[m].key@;
            match associated_token_address_of(forger, nft) {
                None => Err(ForgeError::MissingTokenAccount),
                Some(ata) => match first_match(ev, Lookup::Key { key: ata }) {
                    None => Err(ForgeError::MissingTokenAccount),
                    Some(t) => {
                        let d = ev[t].data@;
                        if d.len() < TOKEN_RECORD_MIN_LEN {
                            Err(ForgeError::MissingTokenAccount)
                        } else if record_owner(d) != forger {
                            Err(ForgeError::TokenAccountOwnerMismatch)
                        } else if record_amount(d) < 1 {
                            Err(ForgeError::InsufficientTokenBalance)
                        } else {
                            nft_metadata_outcome(nft, collection_mint, ev)
                        }
                    },
                },
            }
        },
    }
}

/// Parent of two Merkle nodes: the hash of the smaller followed by the larger.
pub open spec fn merkle_parent(a: Seq<u8>, b: Seq<u8>) -> Seq<u8> {
    if lex_lt(a, b) {
        sha256_of(a + b)
    } else {
        sha256_of(b + a)
    }
}

/// The node reached from `leaf` by combining it with the first 32 bytes of
/// each record of `path`, in order.
pub open spec fn merkle_fold(leaf: Seq<u8>, path: Seq<EvidenceItem>) -> Seq<u8>
    decreases path.len(),
{
    if path.len() == 0 {
        leaf
    } else {
        merkle_parent(merkle_fold(leaf, path.drop_last()), path.last().data@.subrange(0, 32))
    }
}

/// Outcome of an allowlist constraint: the first record holds the leaf, the
/// others the sibling path, and the path must lead to `root`.
pub open spec fn allowlist_outcome(root: Seq<u8>, ev: Seq<EvidenceItem>) -> Result<
    Seq<u8>,
    ForgeError,
> {
    if ev.len() == 0 {
        Err(ForgeError::MissingAllowlistProof)
    } else if exists|i: int| 0 <= i < ev.len() && #[trigger] ev[i].data@.len() < 32 {
        Err(ForgeError::MissingAllowlistProof)
    } else if merkle_fold(ev[0].data@.subrange(0, 32), ev.drop_first()) != root {
        Err(ForgeError::IngredientHashMismatch)
    } else {
        Ok(allowlist_fragment(root))
    }
}

/// Outcome of evaluating one constraint.
pub open spec fn constraint_outcome(
    c: IngredientConstraint,
    forger: Seq<u8>,
    ev: Seq<EvidenceItem>,
) -> Result<Seq<u8>, ForgeError> {
    match c {
        IngredientConstraint::Signer { authority } => signer_outcome(forger, authority@, ev),
        IngredientConstraint::CustomSeeds { seeds } => Ok(seeds_fragment(seeds@)),
        IngredientConstraint::TokenMint { mint, amount } => token_mint_outcome(
            forger,
            mint@,
            amount,
            ev,
        ),
        IngredientConstraint::CollectionNft { collection_mint } => collection_nft_outcome(
            forger,
            collection_mint@,
            ev,
        ),
        IngredientConstraint::Allowlist { merkle_root } => allowlist_outcome(merkle_root@, ev),
    }
}

/// The fragment a constraint yields whenever its evaluation succeeds.
pub open spec fn constraint_fragment(c: IngredientConstraint) -> Seq<u8> {
    match c {
        IngredientConstraint::Signer { authority } => signer_fragment(authority@),
        IngredientConstraint::CustomSeeds { seeds } => seeds_fragment(seeds@),
        IngredientConstraint::TokenMint { mint, amount } => token_mint_fragment(mint@, amount),
        IngredientConstraint::CollectionNft { collection_mint } => collection_fragment(
            collection_mint@,
        ),
        IngredientConstraint::Allowlist { merkle_root } => allowlist_fragment(merkle_root@),
    }
}

/// Outcome of evaluating constraints in order: the first failure, or the
/// fragments of all of them.
pub open spec fn constraints_outcome(
    cs: Seq<IngredientConstraint>,
    forger: Seq<u8>,
    ev: Seq<EvidenceItem>,
) -> Result<Seq<Seq<u8>>, ForgeError>
    decreases cs.len(),
{
    if cs.len() == 0 {
        Ok(Seq::empty())
    } else {
        match constraints_outcome(cs.drop_last(), forger, ev) {
            Err(e) => Err(e),
            Ok(fragments) => match constraint_outcome(cs.last(), forger, ev) {
                Err(e) => Err(e),
                Ok(f) => Ok(fragments.push(f)),
            },
        }
    }
}

/// The byte strings of a list evaluation's result.
pub open spec fn fragments_view(r: Result<Vec<Vec<u8>>, ForgeError>) -> Result<
    Seq<Seq<u8>>,
    ForgeError,
> {
    match r {
        Ok(v) => Ok(byte_parts(v@)),
        Err(e) => Err(e),
    }
}

/// Checks a signer constraint.
pub fn verify_signer(forger: &[u8; 32], authority: &[u8; 32], evidence: &[EvidenceItem]) -> (r:
    Result<Vec<u8>, ForgeError>)
    ensures
        fragment_view(r) == signer_outcome(forger@, authority@, evidence@),
{
    let mut matched = keys_equal(forger, authority);
    let mut i: usize = 0;
    while !matched && i < evidence.len()
        invariant
            0 <= i <= evidence@.len(),
            matched ==> forger@ == authority@ || exists|j: int|
                0 <= j < evidence@.len() && #[trigger] evidence@[j].is_signer && evidence@[j].key@
                    == authority@,
            !matched ==> forger@ != authority@ && forall|j: int|
                0 <= j < i ==> !(#[trigger] evidence@[j].is_signer && evidence@[j].key@
                    == authority@),
        decreases evidence@.len() - i,
    {
        let item = &evidence[i];
        if item.is_signer && keys_equal(&item.key, authority) {
            matched = true;
        }
        i += 1;
    }
    if !matched {
        return Err(ForgeError::MissingRequiredSigner);
    }
    Ok(tagged(SIGNER_TAG, authority.as_slice()))
}

/// Checks a token-mint constraint: the forger holds at least
/// `required_amount` of `mint`.
pub fn verify_token_mint(
    forger: &[u8; 32],
    mint: &[u8; 32],
    required_amount: u64,
    evidence: &[EvidenceItem],
) -> (r: Result<Vec<u8>, ForgeError>)
    ensures
        fragment_view(r) == token_mint_outcome(forger@, mint@, required_amount, evidence@),
{
    let index = match find_first(evidence, &Lookup::TokenAccount) {
        Some(i) => i,
        None => return Err(ForgeError::MissingTokenAccount),
    };
    let data = evidence[index].data.as_slice();
    if data.len() < TOKEN_RECORD_MIN_LEN {
        return Err(ForgeError::MissingTokenAccount);
    }
    let account_mint = read_key(data, 0);
    let account_owner = read_key(data, 32);
    let account_amount = u64_from_le_bytes(slice_subrange(data, 64, 72));
    if !keys_equal(&account_owner, forger) {
        return Err(ForgeError::TokenAccountOwnerMismatch);
    }
    if !keys_equal(&account_mint, mint) {
        return Err(ForgeError::TokenMintMismatch);
    }
    if account_amount < required_amount {
        return Err(ForgeError::InsufficientTokenBalance);
    }
    let mut chunk = tagged(TOKEN_MINT_TAG, mint.as_slice());
    let amount_bytes = u64_to_le_bytes(required_amount);
    push_all(&mut chunk, amount_bytes.as_slice());
    Ok(chunk)
}

fn verify_nft_metadata(nft: &[u8; 32], collection_mint: &[u8; 32], evidence: &[EvidenceItem]) -> (r:
    Result<Vec<u8>, ForgeError>)
    ensures
        fragment_view(r) == nft_metadata_outcome(nft@, collection_mint@, evidence@),
{
    let metadata_address = match derive_metadata_pda(nft) {
        Some(found) => found.0,
        None => return Err(ForgeError::MissingCollectionNft),
    };
    let index = match find_first(evidence, &Lookup::Key { key: metadata_address }) {
        Some(i) => i,
        None => return Err(ForgeError::MissingCollectionNft),
    };
    let data = evidence[index].data.as_slice();
    if data.len() < METADATA_RECORD_MIN_LEN {
        return Err(ForgeError::MissingCollectionNft);
    }
    let described = read_key(data, 33);
    if !keys_equal(&described, nft) {
        return Err(ForgeError::TokenMintMismatch);
    }
    Ok(tagged(COLLECTION_NFT_TAG, collection_mint.as_slice()))
}

/// Checks a collection-NFT constraint: the forger holds an NFT whose metadata
/// record is supplied. Membership in `collection_mint` itself is not checked.
pub fn verify_collection_nft(
    forger: &[u8; 32],
    collection_mint: &[u8; 32],
    evidence: &[EvidenceItem],
) -> (r: Result<Vec<u8>, ForgeError>)
    ensures
        fragment_view(r) == collection_nft_outcome(forger@, collection_mint@, evidence@),
{
    let mint_index = match find_first(evidence, &Lookup::MintAccount) {
        Some(i) => i,
        None => return Err(ForgeError::MissingCollectionNft),
    };
    let nft = evidence[mint_index].key;
    let ata = match associated_token_address(forger, &nft) {
        Some(a) => a,
        None => return Err(ForgeError::MissingTokenAccount),
    };
    let index = match find_first(evidence, &Lookup::Key { key: ata }) {
        Some(i) => i,
        None => return Err(ForgeError::MissingTokenAccount),
    };
    let data = evidence[index].data.as_slice();
    if data.len() < TOKEN_RECORD_MIN_LEN {
        return Err(ForgeError::MissingTokenAccount);
    }
    let account_owner = read_key(data, 32);
    if !keys_equal(&account_owner, forger) {
        return Err(ForgeError::TokenAccountOwnerMismatch);
    }
    let account_amount = u64_from_le_bytes(slice_subrange(data, 64, 72));
    if account_amount < 1 {
        return Err(ForgeError::InsufficientTokenBalance);
    }
    verify_nft_metadata(&nft, collection_mint, evidence)
}

proof fn lemma_flatten_pair(a: Seq<u8>, b: Seq<u8>)
    ensures
        seq![a, b].flatten() == a + b,
{
    let s = seq![a, b];
    assert(s.drop_first() =~= seq![b]);
    seq![b].lemma_flatten_one_element();
    assert(s.flatten() =~= a + b);
}

/// The parent of two Merkle nodes.
pub fn merkle_parent_of(a: &[u8; 32], b: &[u8; 32]) -> (r: [u8; 32])
    ensures
        r@ == merkle_parent(a@, b@),
{
    let mut parts: Vec<Vec<u8>> = Vec::new();
    if key_less(a, b) {
        parts.push(key_vec(a));
        parts.push(key_vec(b));
        assert(byte_parts(parts@) =~= seq![a@, b@]);
        proof {
            lemma_flatten_pair(a@, b@);
        }
    } else {
        parts.push(key_vec(b));
        parts.push(key_vec(a));
        assert(byte_parts(parts@) =~= seq![b@, a@]);
        proof {
            lemma_flatten_pair(b@, a@);
        }
    }
    hashv(&parts)
}

/// Checks an allowlist constraint: the first record of the evidence holds the
/// leaf and the others the sibling path up to `merkle_root`.
pub fn verify_allowlist(merkle_root: &[u8; 32], evidence: &[EvidenceItem]) -> (r: Result<
    Vec<u8>,
    ForgeError,
>)
    ensures
        fragment_view(r) == allowlist_outcome(merkle_root@, evidence@),
{
    if evidence.len() == 0 {
        return Err(ForgeError::MissingAllowlistProof);
    }
    let leaf_data = evidence[0].data.as_slice();
    if leaf_data.len() < 32 {
        assert(evidence@[0].data@.len() < 32);
        return Err(ForgeError::MissingAllowlistProof);
    }
    let leaf = read_key(leaf_data, 0);
    let mut current = leaf;
    let mut i: usize = 1;
    while i < evidence.len()
        invariant
            1 <= i <= evidence@.len(),
            forall|j: int| 0 <= j < i ==> #[trigger] evidence@[j].data@.len() >= 32,
            current@ == merkle_fold(leaf@, evidence@.subrange(1, i as int)),
            leaf@ == evidence@[0].data@.subrange(0, 32),
        decreases evidence@.len() - i,
    {
        let proof_data = evidence[i].data.as_slice();
        if proof_data.len() < 32 {
            assert(evidence@[i as int].data@.len() < 32);
            return Err(ForgeError::MissingAllowlistProof);
        }
        let sibling = read_key(proof_data, 0);
        let ghost before = evidence@.subrange(1, i as int);
        current = merkle_parent_of(&current, &sibling);
        i += 1;
        assert(evidence@.subrange(1, i as int).drop_last() =~= before);
    }
    assert(evidence@.subrange(1, evidence@.len() as int) =~= evidence@.drop_first());
    if !keys_equal(&current, merkle_root) {
        return Err(ForgeError::IngredientHashMismatch);
    }
    Ok(tagged(ALLOWLIST_TAG, merkle_root.as_slice()))
}

/// Evaluates one constraint against the evidence.
pub fn evaluate_constraint(
    constraint: &IngredientConstraint,
    forger: &[u8; 32],
    evidence: &[EvidenceItem],
) -> (r: Result<Vec<u8>, ForgeError>)
    ensures
        fragment_view(r) == constraint_outcome(*constraint, forger@, evidence@),
{
    match constraint {
        IngredientConstraint::Signer { authority } => verify_signer(forger, authority, evidence),
        IngredientConstraint::CustomSeeds { seeds } => Ok(
            tagged(CUSTOM_SEEDS_TAG, seeds.as_slice()),
        ),
        IngredientConstraint::TokenMint { mint, amount } => verify_token_mint(
            forger,
            mint,
            *amount,
            evidence,
        ),
        IngredientConstraint::CollectionNft { collection_mint } => verify_collection_nft(
            forger,
            collection_mint,
            evidence,
        ),
        IngredientConstraint::Allowlist { merkle_root } => verify_allowlist(merkle_root, evidence),
    }
}

/// A failure among the first `k` constraints is the failure of the whole list.
pub proof fn lemma_prefix_failure(
    cs: Seq<IngredientConstraint>,
    k: int,
    forger: Seq<u8>,
    ev: Seq<EvidenceItem>,
)
    requires
        0 <= k <= cs.len(),
        constraints_outcome(cs.take(k), forger, ev) is Err,
    ensures
        constraints_outcome(cs, forger, ev) == constraints_outcome(cs.take(k), forger, ev),
    decreases cs.len() - k,
{
    if k == cs.len() {
        assert(cs.take(k) =~= cs);
    } else {
        assert(cs.drop_last().take(k) =~= cs.take(k));
        lemma_prefix_failure(cs.drop_last(), k, forger, ev);
    }
}

/// Evaluates every constraint in order, collecting their fragments.
pub fn evaluate_constraints(
    constraints: &[IngredientConstraint],
    forger: &[u8; 32],
    evidence: &[EvidenceItem],
) -> (r: Result<Vec<Vec<u8>>, ForgeError>)
    ensures
        fragments_view(r) == constraints_outcome(constraints@, forger@, evidence@),
{
    let mut fragments: Vec<Vec<u8>> = Vec::new();
    let mut i: usize = 0;
    assert(constraints@.take(0) =~= Seq::<IngredientConstraint>::empty());
    assert(byte_parts(fragments@) =~= Seq::<Seq<u8>>::empty());
    while i < constraints.len()
        invariant
            0 <= i <= constraints@.len(),
            constraints_outcome(constraints@.take(i as int), forger@, evidence@) == Ok::<
                Seq<Seq<u8>>,
                ForgeError,
            >(byte_parts(fragments@)),
        decreases constraints@.len() - i,
    {
        let ghost prefix = constraints@.take(i as int);
        let ghost before = fragments@;
        assert(constraints@.take(i + 1).drop_last() =~= prefix);
        assert(constraints@.take(i + 1).last() == constraints@[i as int]);
        match evaluate_constraint(&constraints[i], forger, evidence) {
            Ok(fragment) => {
                fragments.push(fragment);
                assert(byte_parts(fragments@) =~= byte_parts(before).push(fragment@));
            },
            Err(e) => {
                proof {
                    lemma_prefix_failure(constraints@, i + 1, forger@, evidence@);
                }
                return Err(e);
            },
        }
        i += 1;
    }
    assert(constraints@.take(constraints@.len() as int) =~= constraints@);
    Ok(fragments)
}

} // verus!
