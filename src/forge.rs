//! The forge authorization flow: lifecycle gates, ingredient evaluation,
//! commitment check and replay check, then the recording of a forged asset.

use vstd::prelude::*;
use crate::commitment::{commitment_of, compute_commitment};
use crate::errors::ForgeError;
use crate::evaluators::{constraints_outcome, evaluate_constraints};
use crate::events::AssetForged;
use crate::evidence::EvidenceItem;
use crate::forge_config::ForgeConfig;
use crate::ingredients::{OutputKind, RecipeStatus};
use crate::keys::keys_equal;
use crate::minting::{is_mint_request_for, mint_edition, mint_semi_fungible, one_of_one_request, MintRequest};
use crate::recipe::Recipe;
use crate::recipe_use::{RecipeUse, UsageLedger};

verus! {

/// A forge request: the digest the forger claims for its evidence.
#[derive(Clone, Copy, Debug)]
pub struct ForgeAssetArgs {
    pub input_hash: [u8; 32],
}

/// Outcome of the lifecycle and capacity gates at time `now`: the recipe must
/// be active, live, and below its supply cap.
pub open spec fn gates_outcome(recipe: Recipe, now: i64) -> Result<(), ForgeError> {
    if recipe.status != RecipeStatus::Active {
        Err(ForgeError::RecipeInactive)
    } else if recipe.go_live_unix_time matches Some(go_live) && now < go_live {
        Err(ForgeError::RecipeNotLive)
    } else if recipe.supply_cap matches Some(cap) && recipe.minted >= cap {
        Err(ForgeError::SupplyCapReached)
    } else {
        Ok(())
    }
}

/// Outcome of a forge request against `recipe` (stored at `recipe_key`) with
/// the consumed pairs `used`: the gates, then every constraint in order, then
/// the claimed digest against the computed one, then the replay check, then
/// the output kind.
pub open spec fn forge_outcome(
    recipe: Recipe,
    recipe_key: Seq<u8>,
    used: Set<(Seq<u8>, Seq<u8>)>,
    forger: Seq<u8>,
    input_hash: Seq<u8>,
    evidence: Seq<EvidenceItem>,
    now: i64,
) -> Result<(), ForgeError> {
    match gates_outcome(recipe, now) {
        Err(e) => Err(e),
        Ok(()) => match constraints_outcome(recipe.ingredient_constraints@, forger, evidence) {
            Err(e) => Err(e),
            Ok(fragments) => if commitment_of(fragments) != input_hash {
                Err(ForgeError::IngredientHashMismatch)
            } else if used.contains((recipe_key, input_hash)) {
                Err(ForgeError::DuplicateRecipeUse)
            } else if !(recipe.output_kind is OneOfOne) {
                Err(ForgeError::MintingNotImplemented)
            } else {
                Ok(())
            },
        },
    }
}

/// Decides a forge request by `forger` at time `now`. On success it returns
/// what the minting service must be asked for; the forge is then recorded by
/// `complete_forge` once the asset exists. Nothing is changed here.
pub fn forge_asset(
    forge_config: &ForgeConfig,
    recipe: &Recipe,
    recipe_key: &[u8; 32],
    ledger: &UsageLedger,
    forger: &[u8; 32],
    args: &ForgeAssetArgs,
    evidence: &[EvidenceItem],
    now: i64,
) -> (r: Result<MintRequest, ForgeError>)
    ensures
        r is Ok <==> forge_outcome(
            *recipe,
            recipe_key@,
            ledger@,
            forger@,
            args.input_hash@,
            evidence@,
            now,
        ) is Ok,
        r matches Err(e) ==> forge_outcome(
            *recipe,
            recipe_key@,
            ledger@,
            forger@,
            args.input_hash@,
            evidence@,
            now,
        ) == Err::<(), ForgeError>(e),
        r matches Ok(request) ==> is_mint_request_for(
            request,
            *recipe,
            forge_config.default_royalty_bps,
        ),
{
    if recipe.status != RecipeStatus::Active {
        return Err(ForgeError::RecipeInactive);
    }
    if let Some(go_live) = recipe.go_live_unix_time {
        if now < go_live {
            return Err(ForgeError::RecipeNotLive);
        }
    }
    if let Some(cap) = recipe.supply_cap {
        if recipe.minted >= cap {
            return Err(ForgeError::SupplyCapReached);
        }
    }
    let fragments = match evaluate_constraints(
        recipe.ingredient_constraints.as_slice(),
        forger,
        evidence,
    ) {
        Ok(f) => f,
        Err(e) => return Err(e),
    };
    let computed_hash = compute_commitment(&fragments);
    if !keys_equal(&computed_hash, &args.input_hash) {
        return Err(ForgeError::IngredientHashMismatch);
    }
    if ledger.contains(recipe_key, &args.input_hash) {
        return Err(ForgeError::DuplicateRecipeUse);
    }
    match recipe.output_kind {
        OutputKind::OneOfOne => {},
        OutputKind::Edition { parent_mint } => {
            if let Err(e) = mint_edition(
                recipe,
                &parent_mint,
                recipe.creators.as_slice(),
                recipe.metadata_uri.as_str(),
            ) {
                return Err(e);
            }
        },
        OutputKind::SemiFungible => {
            if let Err(e) = mint_semi_fungible(
                recipe,
                recipe.creators.as_slice(),
                recipe.metadata_uri.as_str(),
            ) {
                return Err(e);
            }
        },
    }
    Ok(one_of_one_request(recipe, forge_config.default_royalty_bps))
}

/// Outcome of recording a forge of `input_hash` for the recipe stored at
/// `recipe_key`: the pair must not have been consumed, the cap must leave
/// room, and the minted count must not overflow.
pub open spec fn completion_outcome(
    recipe: Recipe,
    recipe_key: Seq<u8>,
    used: Set<(Seq<u8>, Seq<u8>)>,
    input_hash: Seq<u8>,
) -> Result<(), ForgeError> {
    if used.contains((recipe_key, input_hash)) {
        Err(ForgeError::DuplicateRecipeUse)
    } else if recipe.supply_cap matches Some(cap) && recipe.minted >= cap {
        Err(ForgeError::SupplyCapReached)
    } else if recipe.minted == u64::MAX {
        Err(ForgeError::ArithmeticOverflow)
    } else {
        Ok(())
    }
}

/// The recipe after one more recorded forge.
pub open spec fn recipe_after_forge(recipe: Recipe) -> Recipe {
    Recipe { minted: (recipe.minted + 1) as u64, ..recipe }
}

/// Records that the minting service produced `minted_mint` for an authorized
/// request of `forger`: consumes `input_hash` for the recipe and counts the
/// asset, all or nothing. The usage record gets `forged_at = now` and the bump
/// seed `use_bump` of its address.
pub fn complete_forge(
    forge_config_key: [u8; 32],
    recipe: &mut Recipe,
    recipe_key: [u8; 32],
    ledger: &mut UsageLedger,
    forger: [u8; 32],
    input_hash: [u8; 32],
    minted_mint: [u8; 32],
    now: i64,
    use_bump: u8,
) -> (r: Result<(RecipeUse, AssetForged), ForgeError>)
    ensures
        r is Ok <==> completion_outcome(*old(recipe), recipe_key@, old(ledger)@, input_hash@) is Ok,
        r matches Err(e) ==> {
            &&& completion_outcome(*old(recipe), recipe_key@, old(ledger)@, input_hash@) == Err::<
                (),
                ForgeError,
            >(e)
            &&& *final(recipe) == *old(recipe)
            &&& *final(ledger) == *old(ledger)
        },
        r matches Ok((record, event)) ==> {
            &&& *final(recipe) == recipe_after_forge(*old(recipe))
            &&& final(ledger)@ == old(ledger)@.insert((recipe_key@, input_hash@))
            &&& record == (RecipeUse {
                recipe: recipe_key,
                input_hash,
                forged_at: now,
                bump: use_bump,
            })
            &&& event == (AssetForged {
                forge_config: forge_config_key,
                recipe: recipe_key,
                forger,
                mint: minted_mint,
                minted_count: final(recipe).minted,
                supply_cap: old(recipe).supply_cap,
                input_hash,
            })
        },
        old(recipe).wf() ==> final(recipe).wf(),
{
    if ledger.contains(&recipe_key, &input_hash) {
        return Err(ForgeError::DuplicateRecipeUse);
    }
    if let Some(cap) = recipe.supply_cap {
        if recipe.minted >= cap {
            return Err(ForgeError::SupplyCapReached);
        }
    }
    let new_minted = match recipe.minted.checked_add(1) {
        Some(n) => n,
        None => return Err(ForgeError::ArithmeticOverflow),
    };
    let record = match ledger.reserve(recipe_key, input_hash, now, use_bump) {
        Ok(u) => u,
        Err(e) => return Err(e),
    };
    recipe.minted = new_minted;
    Ok(
        (
            record,
            AssetForged {
                forge_config: forge_config_key,
                recipe: recipe_key,
                forger,
                mint: minted_mint,
                minted_count: recipe.minted,
                supply_cap: recipe.supply_cap,
                input_hash,
            },
        ),
    )
}

} // verus!
