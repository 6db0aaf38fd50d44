//! Creating recipes, updating their fields and moving them through their lifecycle.

use vstd::prelude::*;
use crate::errors::ForgeError;
use crate::events::{RecipeCreated, RecipeStatusChanged, RecipeUpdated};
use crate::forge_config::ForgeConfig;
use crate::ingredients::{CreatorShare, IngredientConstraint, OutputKind, RecipeStatus};
use crate::keys::keys_equal;
use crate::recipe::{ingredients_outcome, lengths_outcome, Recipe};

verus! {

/// Definition of a new recipe.
#[derive(Clone, Debug)]
pub struct CreateRecipeArgs {
    pub slug: String,
    pub version: u16,
    pub output_kind: OutputKind,
    pub supply_cap: Option<u64>,
    pub metadata_uri: String,
    pub creators: Vec<CreatorShare>,
    pub collection_mint: Option<[u8; 32]>,
    pub go_live_unix_time: Option<i64>,
    pub ingredient_constraints: Vec<IngredientConstraint>,
    pub status: RecipeStatus,
    pub previous_version: Option<[u8; 32]>,
}

/// Fields to change in a recipe; `None` keeps the field.
#[derive(Clone, Debug)]
pub struct UpdateRecipeArgs {
    pub metadata_uri: Option<String>,
    pub creators: Option<Vec<CreatorShare>>,
    pub collection_mint: Option<Option<[u8; 32]>>,
    pub go_live_unix_time: Option<Option<i64>>,
    pub ingredient_constraints: Option<Vec<IngredientConstraint>>,
    pub supply_cap: Option<Option<u64>>,
    pub output_kind: Option<OutputKind>,
}

/// The requested status of a recipe.
#[derive(Clone, Copy, Debug)]
pub struct SetRecipeStatusArgs {
    pub status: RecipeStatus,
}

/// Outcome of creating a recipe as `signer` requests: creation must be
/// enabled, the signer must be the authority, the initial status must not be
/// `Retired`, the bounds must hold and a supply cap must be positive.
pub open spec fn create_outcome(config: ForgeConfig, signer: [u8; 32], args: CreateRecipeArgs) -> Result<
    (),
    ForgeError,
> {
    if !config.recipe_creation_enabled {
        Err(ForgeError::RecipeCreationDisabled)
    } else if signer@ != config.authority@ {
        Err(ForgeError::UnauthorizedAuthority)
    } else if args.status == RecipeStatus::Retired {
        Err(ForgeError::RecipeInvalidInitialStatus)
    } else if lengths_outcome(args.slug@, args.metadata_uri@, args.creators@.len()) is Err {
        lengths_outcome(args.slug@, args.metadata_uri@, args.creators@.len())
    } else if ingredients_outcome(args.ingredient_constraints@.len()) is Err {
        ingredients_outcome(args.ingredient_constraints@.len())
    } else if args.supply_cap == Some(0u64) {
        Err(ForgeError::SupplyCapReached)
    } else {
        Ok(())
    }
}

/// `recipe` is the fresh recipe that `args` describes.
pub open spec fn is_created_from(
    recipe: Recipe,
    forge_config_key: [u8; 32],
    bump: u8,
    args: CreateRecipeArgs,
) -> bool {
    &&& recipe.forge_config == forge_config_key
    &&& recipe.slug@ == args.slug@
    &&& recipe.version == args.version
    &&& recipe.output_kind == args.output_kind
    &&& recipe.supply_cap == args.supply_cap
    &&& recipe.minted == 0
    &&& recipe.metadata_uri@ == args.metadata_uri@
    &&& recipe.creators@ == args.creators@
    &&& recipe.collection_mint == args.collection_mint
    &&& recipe.go_live_unix_time == args.go_live_unix_time
    &&& recipe.ingredient_constraints@ == args.ingredient_constraints@
    &&& recipe.status == args.status
    &&& recipe.previous_version == args.previous_version
    &&& recipe.bump == bump
}

/// Creates the recipe that `args` describes under the configuration at
/// `forge_config_key`, to be stored at `recipe_key` with bump seed `bump`.
pub fn create_recipe(
    forge_config: &ForgeConfig,
    forge_config_key: [u8; 32],
    recipe_key: [u8; 32],
    bump: u8,
    signer: [u8; 32],
    args: CreateRecipeArgs,
) -> (r: Result<(Recipe, RecipeCreated), ForgeError>)
    ensures
        r is Ok <==> create_outcome(*forge_config, signer, args) is Ok,
        r matches Err(e) ==> create_outcome(*forge_config, signer, args) == Err::<(), ForgeError>(
            e,
        ),
        r matches Ok((recipe, event)) ==> {
            &&& is_created_from(recipe, forge_config_key, bump, args)
            &&& recipe.wf()
            &&& event.forge_config == forge_config_key
            &&& event.recipe == recipe_key
            &&& event.slug@ == args.slug@
            &&& event.version == args.version
            &&& event.status == args.status
        },
{
    if !forge_config.recipe_creation_enabled {
        return Err(ForgeError::RecipeCreationDisabled);
    }
    if !keys_equal(&signer, &forge_config.authority) {
        return Err(ForgeError::UnauthorizedAuthority);
    }
    if args.status == RecipeStatus::Retired {
        return Err(ForgeError::RecipeInvalidInitialStatus);
    }
    if let Err(e) = Recipe::validate_lengths(
        args.slug.as_str(),
        args.metadata_uri.as_str(),
        args.creators.as_slice(),
    ) {
        return Err(e);
    }
    if let Err(e) = Recipe::validate_ingredients(args.ingredient_constraints.as_slice()) {
        return Err(e);
    }
    if let Some(cap) = args.supply_cap {
        if cap == 0 {
            return Err(ForgeError::SupplyCapReached);
        }
    }
    let event = RecipeCreated {
        forge_config: forge_config_key,
        recipe: recipe_key,
        slug: args.slug.clone(),
        version: args.version,
        status: args.status,
    };
    let recipe = Recipe {
        forge_config: forge_config_key,
        slug: args.slug,
        version: args.version,
        output_kind: args.output_kind,
        supply_cap: args.supply_cap,
        minted: 0,
        metadata_uri: args.metadata_uri,
        creators: args.creators,
        collection_mint: args.collection_mint,
        go_live_unix_time: args.go_live_unix_time,
        ingredient_constraints: args.ingredient_constraints,
        status: args.status,
        previous_version: args.previous_version,
        bump,
    };
    Ok((recipe, event))
}

/// Outcome of updating `recipe` as `signer` requests: the signer must be the
/// authority, the recipe must not be retired, the new fields must keep the
/// bounds and a new supply cap must not be below the minted count.
pub open spec fn update_outcome(
    config: ForgeConfig,
    recipe: Recipe,
    signer: [u8; 32],
    args: UpdateRecipeArgs,
) -> Result<(), ForgeError> {
    let updated = recipe_with(recipe, args);
    if signer@ != config.authority@ {
        Err(ForgeError::UnauthorizedAuthority)
    } else if recipe.status == RecipeStatus::Retired {
        Err(ForgeError::RecipeRetiredImmutable)
    } else if lengths_outcome(updated.slug@, updated.metadata_uri@, updated.creators@.len()) is Err {
        lengths_outcome(updated.slug@, updated.metadata_uri@, updated.creators@.len())
    } else if ingredients_outcome(updated.ingredient_constraints@.len()) is Err {
        ingredients_outcome(updated.ingredient_constraints@.len())
    } else if updated.supply_cap matches Some(cap) && cap < recipe.minted {
        Err(ForgeError::SupplyCapBelowMinted)
    } else {
        Ok(())
    }
}

/// The recipe with the requested changes applied.
pub open spec fn recipe_with(recipe: Recipe, args: UpdateRecipeArgs) -> Recipe {
    Recipe {
        metadata_uri: match args.metadata_uri {
            Some(u) => u,
            None => recipe.metadata_uri,
        },
        creators: match args.creators {
            Some(c) => c,
            None => recipe.creators,
        },
        collection_mint: match args.collection_mint {
            Some(c) => c,
            None => recipe.collection_mint,
        },
        go_live_unix_time: match args.go_live_unix_time {
            Some(t) => t,
            None => recipe.go_live_unix_time,
        },
        ingredient_constraints: match args.ingredient_constraints {
            Some(i) => i,
            None => recipe.ingredient_constraints,
        },
        supply_cap: match args.supply_cap {
            Some(c) => c,
            None => recipe.supply_cap,
        },
        output_kind: match args.output_kind {
            Some(k) => k,
            None => recipe.output_kind,
        },
        ..recipe
    }
}

/// Updates the fields of `recipe` (stored at `recipe_key`) as `signer`
/// requests; the update is all or nothing. The slug, version, status and
/// minted count are never changed here.
pub fn update_recipe(
    forge_config: &ForgeConfig,
    recipe: &mut Recipe,
    recipe_key: [u8; 32],
    signer: [u8; 32],
    args: UpdateRecipeArgs,
) -> (r: Result<RecipeUpdated, ForgeError>)
    ensures
        r is Ok <==> update_outcome(*forge_config, *old(recipe), signer, args) is Ok,
        r matches Err(e) ==> update_outcome(*forge_config, *old(recipe), signer, args) == Err::<
            (),
            ForgeError,
        >(e) && *final(recipe) == *old(recipe),
        r matches Ok(event) ==> {
            &&& *final(recipe) == recipe_with(*old(recipe), args)
            &&& event.forge_config == old(recipe).forge_config
            &&& event.recipe == recipe_key
            &&& event.slug@ == old(recipe).slug@
            &&& event.version == old(recipe).version
        },
        old(recipe).wf() ==> final(recipe).wf(),
{
    if !keys_equal(&signer, &forge_config.authority) {
        return Err(ForgeError::UnauthorizedAuthority);
    }
    if recipe.status == RecipeStatus::Retired {
        return Err(ForgeError::RecipeRetiredImmutable);
    }
    let lengths = {
        let new_metadata_uri: &str = match &args.metadata_uri {
            Some(u) => u.as_str(),
            None => recipe.metadata_uri.as_str(),
        };
        let new_creators: &[CreatorShare] = match &args.creators {
            Some(c) => c.as_slice(),
            None => recipe.creators.as_slice(),
        };
        Recipe::validate_lengths(recipe.slug.as_str(), new_metadata_uri, new_creators)
    };
    if let Err(e) = lengths {
        return Err(e);
    }
    let ingredients = {
        let new_ingredients: &[IngredientConstraint] = match &args.ingredient_constraints {
            Some(i) => i.as_slice(),
            None => recipe.ingredient_constraints.as_slice(),
        };
        Recipe::validate_ingredients(new_ingredients)
    };
    if let Err(e) = ingredients {
        return Err(e);
    }
    let new_supply_cap = match args.supply_cap {
        Some(c) => c,
        None => recipe.supply_cap,
    };
    if let Some(cap) = new_supply_cap {
        if cap < recipe.minted {
            return Err(ForgeError::SupplyCapBelowMinted);
        }
    }
    if let Some(u) = args.metadata_uri {
        recipe.metadata_uri = u;
    }
    if let Some(c) = args.creators {
        recipe.creators = c;
    }
    if let Some(c) = args.collection_mint {
        recipe.collection_mint = c;
    }
    if let Some(t) = args.go_live_unix_time {
        recipe.go_live_unix_time = t;
    }
    if let Some(i) = args.ingredient_constraints {
        recipe.ingredient_constraints = i;
    }
    if let Some(k) = args.output_kind {
        recipe.output_kind = k;
    }
    recipe.supply_cap = new_supply_cap;
    Ok(
        RecipeUpdated {
            forge_config: recipe.forge_config,
            recipe: recipe_key,
            slug: recipe.slug.clone(),
            version: recipe.version,
        },
    )
}

/// Outcome of moving a recipe from status `current` to `next` as `signer`
/// requests: the signer must be the authority, the status must change, and a
/// retired recipe stays retired.
pub open spec fn status_outcome(
    config: ForgeConfig,
    current: RecipeStatus,
    signer: [u8; 32],
    next: RecipeStatus,
) -> Result<(), ForgeError> {
    if signer@ != config.authority@ {
        Err(ForgeError::UnauthorizedAuthority)
    } else if current == next {
        Err(ForgeError::RecipeStatusUnchanged)
    } else if current == RecipeStatus::Retired {
        Err(ForgeError::RecipeRetiredImmutable)
    } else {
        Ok(())
    }
}

/// Moves `recipe` (stored at `recipe_key`) to the requested status.
pub fn set_recipe_status(
    forge_config: &ForgeConfig,
    recipe: &mut Recipe,
    recipe_key: [u8; 32],
    signer: [u8; 32],
    args: SetRecipeStatusArgs,
) -> (r: Result<RecipeStatusChanged, ForgeError>)
    ensures
        r is Ok <==> status_outcome(*forge_config, old(recipe).status, signer, args.status) is Ok,
        r matches Err(e) ==> status_outcome(*forge_config, old(recipe).status, signer, args.status)
            == Err::<(), ForgeError>(e) && *final(recipe) == *old(recipe),
        r matches Ok(event) ==> {
            &&& *final(recipe) == (Recipe { status: args.status, ..*old(recipe) })
            &&& event == (RecipeStatusChanged {
                forge_config: old(recipe).forge_config,
                recipe: recipe_key,
                previous: old(recipe).status,
                next: args.status,
            })
        },
        old(recipe).wf() ==> final(recipe).wf(),
{
    if !keys_equal(&signer, &forge_config.authority) {
        return Err(ForgeError::UnauthorizedAuthority);
    }
    if recipe.status == args.status {
        return Err(ForgeError::RecipeStatusUnchanged);
    }
    if recipe.status == RecipeStatus::Retired {
        return Err(ForgeError::RecipeRetiredImmutable);
    }
    let previous = recipe.status;
    recipe.status = args.status;
    Ok(
        RecipeStatusChanged {
            forge_config: recipe.forge_config,
            recipe: recipe_key,
            previous,
            next: args.status,
        },
    )
}

} // verus!
