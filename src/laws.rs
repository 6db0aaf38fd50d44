//! Properties that hold across the forge's operations.

use vstd::prelude::*;
use crate::commitment::commitment_of;
use crate::errors::ForgeError;
use crate::evaluators::{
    allowlist_fragment, allowlist_outcome, constraint_fragment, constraints_outcome, merkle_fold,
};
use crate::evidence::EvidenceItem;
use crate::forge::{completion_outcome, forge_outcome, recipe_after_forge};
use crate::forge_config::ForgeConfig;
use crate::ingredients::{IngredientConstraint, RecipeStatus};
use crate::recipe::Recipe;
use crate::recipes::{create_outcome, status_outcome, CreateRecipeArgs};

verus! {

/// The fragments that constraints yield when their evaluation succeeds, in order.
pub open spec fn constraint_fragments(cs: Seq<IngredientConstraint>) -> Seq<Seq<u8>> {
    cs.map_values(|c: IngredientConstraint| constraint_fragment(c))
}

/// A successful evaluation yields exactly the constraints' own fragments.
pub proof fn lemma_fragments_of_success(
    cs: Seq<IngredientConstraint>,
    forger: Seq<u8>,
    evidence: Seq<EvidenceItem>,
)
    ensures
        constraints_outcome(cs, forger, evidence) matches Ok(fragments) ==> fragments
            == constraint_fragments(cs),
    decreases cs.len(),
{
    if cs.len() > 0 {
        lemma_fragments_of_success(cs.drop_last(), forger, evidence);
        assert(constraint_fragments(cs) =~= constraint_fragments(cs.drop_last()).push(
            constraint_fragment(cs.last()),
        ));
    } else {
        assert(constraint_fragments(cs) =~= Seq::<Seq<u8>>::empty());
    }
}

/// Determinism of the commitment: whenever a recipe's constraints are all
/// satisfied, the digest is the same, whoever forges and whatever evidence
/// (in whatever order) was supplied; it is the digest of the constraints'
/// fragments in their stored order.
pub proof fn lemma_commitment_deterministic(
    cs: Seq<IngredientConstraint>,
    forger1: Seq<u8>,
    evidence1: Seq<EvidenceItem>,
    forger2: Seq<u8>,
    evidence2: Seq<EvidenceItem>,
)
    requires
        constraints_outcome(cs, forger1, evidence1) is Ok,
        constraints_outcome(cs, forger2, evidence2) is Ok,
    ensures
        commitment_of(constraints_outcome(cs, forger1, evidence1)->Ok_0) == commitment_of(
            constraints_outcome(cs, forger2, evidence2)->Ok_0,
        ),
        commitment_of(constraints_outcome(cs, forger1, evidence1)->Ok_0) == commitment_of(
            constraint_fragments(cs),
        ),
{
    lemma_fragments_of_success(cs, forger1, evidence1);
    lemma_fragments_of_success(cs, forger2, evidence2);
}

/// At most once: after a forge of `input_hash` is recorded for a recipe, a
/// second recording of the same pair fails as a replay, and a new forge
/// request with that digest is refused, whoever sends it with whatever
/// evidence.
pub proof fn lemma_forge_at_most_once(
    recipe: Recipe,
    recipe_key: Seq<u8>,
    used: Set<(Seq<u8>, Seq<u8>)>,
    input_hash: Seq<u8>,
    forger: Seq<u8>,
    evidence: Seq<EvidenceItem>,
    now: i64,
)
    requires
        completion_outcome(recipe, recipe_key, used, input_hash) is Ok,
    ensures
        completion_outcome(
            recipe_after_forge(recipe),
            recipe_key,
            used.insert((recipe_key, input_hash)),
            input_hash,
        ) == Err::<(), ForgeError>(ForgeError::DuplicateRecipeUse),
        forge_outcome(
            recipe_after_forge(recipe),
            recipe_key,
            used.insert((recipe_key, input_hash)),
            forger,
            input_hash,
            evidence,
            now,
        ) is Err,
        apply_completion(
            apply_completion((recipe, used), recipe_key, input_hash),
            recipe_key,
            input_hash,
        ) == apply_completion((recipe, used), recipe_key, input_hash),
{
}

/// The recipe and consumed pairs after recording one forge attempt of
/// `input_hash`; a refused attempt changes nothing.
pub open spec fn apply_completion(
    state: (Recipe, Set<(Seq<u8>, Seq<u8>)>),
    recipe_key: Seq<u8>,
    input_hash: Seq<u8>,
) -> (Recipe, Set<(Seq<u8>, Seq<u8>)>) {
    if completion_outcome(state.0, recipe_key, state.1, input_hash) is Ok {
        (recipe_after_forge(state.0), state.1.insert((recipe_key, input_hash)))
    } else {
        state
    }
}

/// The recipe and consumed pairs after recording forge attempts in the order
/// in which they were serialized.
pub open spec fn apply_completions(
    state: (Recipe, Set<(Seq<u8>, Seq<u8>)>),
    recipe_key: Seq<u8>,
    attempts: Seq<Seq<u8>>,
) -> (Recipe, Set<(Seq<u8>, Seq<u8>)>)
    decreases attempts.len(),
{
    if attempts.len() == 0 {
        state
    } else {
        apply_completion(
            apply_completions(state, recipe_key, attempts.drop_last()),
            recipe_key,
            attempts.last(),
        )
    }
}

/// The supply cap holds under any serialization of forge attempts: starting
/// within its cap, a recipe stays within it.
pub proof fn lemma_cap_never_exceeded(
    recipe: Recipe,
    used: Set<(Seq<u8>, Seq<u8>)>,
    recipe_key: Seq<u8>,
    attempts: Seq<Seq<u8>>,
)
    requires
        recipe.within_cap(),
    ensures
        apply_completions((recipe, used), recipe_key, attempts).0.within_cap(),
        apply_completions((recipe, used), recipe_key, attempts).0.supply_cap == recipe.supply_cap,
    decreases attempts.len(),
{
    if attempts.len() > 0 {
        lemma_cap_never_exceeded(recipe, used, recipe_key, attempts.drop_last());
    }
}

/// At most once, over any serialization of forge attempts: every recorded
/// forge consumes a pair that had not been consumed, for this recipe and one
/// of the attempted digests, so the minted count grows by exactly the number
/// of newly consumed pairs and each digest is counted at most once.
pub proof fn lemma_each_digest_counted_once(
    recipe: Recipe,
    used: Set<(Seq<u8>, Seq<u8>)>,
    recipe_key: Seq<u8>,
    attempts: Seq<Seq<u8>>,
)
    requires
        used.finite(),
    ensures
        ({
            let (after, consumed) = apply_completions((recipe, used), recipe_key, attempts);
            &&& consumed.finite()
            &&& used.subset_of(consumed)
            &&& after.minted == recipe.minted + consumed.len() - used.len()
            &&& forall|p: (Seq<u8>, Seq<u8>)|
                #[trigger] consumed.contains(p) && !used.contains(p) ==> p.0 == recipe_key
                    && attempts.contains(p.1)
        }),
    decreases attempts.len(),
{
    if attempts.len() > 0 {
        let prefix = attempts.drop_last();
        lemma_each_digest_counted_once(recipe, used, recipe_key, prefix);
        let state = apply_completions((recipe, used), recipe_key, prefix);
        let h = attempts.last();
        assert(state.1.insert((recipe_key, h)).len() == state.1.len() + if state.1.contains(
            (recipe_key, h),
        ) {
            0int
        } else {
            1int
        }) by {
            vstd::set::axiom_set_insert_len(state.1, (recipe_key, h));
        }
        assert forall|p: (Seq<u8>, Seq<u8>)|
            #[trigger] apply_completions((recipe, used), recipe_key, attempts).1.contains(p)
                && !used.contains(p) implies p.0 == recipe_key && attempts.contains(p.1) by {
            if state.1.contains(p) {
                assert(prefix.contains(p.1));
                let i = choose|i: int| 0 <= i < prefix.len() && prefix[i] == p.1;
                assert(attempts[i] == p.1);
            } else {
                assert(attempts[attempts.len() - 1] == p.1);
            }
        }
    }
}

/// Allowlist proofs: once every record holds at least 32 bytes, the proof is
/// accepted exactly when the leaf and its sibling path lead to the root, and
/// any path that leads elsewhere (a changed sibling included) is refused as a
/// hash mismatch.
pub proof fn lemma_allowlist_accepts_exactly_the_root(root: Seq<u8>, evidence: Seq<EvidenceItem>)
    requires
        evidence.len() > 0,
        forall|i: int| 0 <= i < evidence.len() ==> #[trigger] evidence[i].data@.len() >= 32,
    ensures
        merkle_fold(evidence[0].data@.subrange(0, 32), evidence.drop_first()) == root
            ==> allowlist_outcome(root, evidence) == Ok::<Seq<u8>, ForgeError>(
            allowlist_fragment(root),
        ),
        merkle_fold(evidence[0].data@.subrange(0, 32), evidence.drop_first()) != root
            ==> allowlist_outcome(root, evidence) == Err::<Seq<u8>, ForgeError>(
            ForgeError::IngredientHashMismatch,
        ),
{
}

/// `Retired` is terminal: no status change out of it is accepted.
pub proof fn lemma_retired_is_terminal(config: ForgeConfig, signer: [u8; 32], next: RecipeStatus)
    ensures
        status_outcome(config, RecipeStatus::Retired, signer, next) is Err,
{
}

/// No recipe is created directly into `Retired`.
pub proof fn lemma_no_retired_creation(config: ForgeConfig, signer: [u8; 32], args: CreateRecipeArgs)
    requires
        args.status == RecipeStatus::Retired,
    ensures
        create_outcome(config, signer, args) is Err,
{
}

} // verus!
