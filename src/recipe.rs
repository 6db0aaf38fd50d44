//! The recipe record, its bounds and its storage size.

use vstd::prelude::*;
use vstd::utf8::encode_utf8;
use crate::constants::{MAX_CREATORS, MAX_INGREDIENTS, MAX_METADATA_URI_LENGTH, MAX_RECIPE_SLUG_LENGTH};
use crate::errors::ForgeError;
use crate::ingredients::{CreatorShare, IngredientConstraint, OutputKind, RecipeStatus};

verus! {

/// Number of bytes of the UTF-8 encoding of a string.
pub open spec fn byte_len(s: Seq<char>) -> nat {
    encode_utf8(s).len()
}

/// Definition of a forgeable recipe.
#[derive(Clone, Debug)]
pub struct Recipe {
    /// The configuration the recipe belongs to.
    pub forge_config: [u8; 32],
    /// Human-readable slug used to reference the recipe.
    pub slug: String,
    /// Version of the recipe.
    pub version: u16,
    /// Output asset semantics.
    pub output_kind: OutputKind,
    /// Optional supply cap (`None` = unlimited).
    pub supply_cap: Option<u64>,
    /// Number of successful forges recorded for this recipe.
    pub minted: u64,
    /// Metadata URI of forged assets.
    pub metadata_uri: String,
    /// Creators assigned to the forged assets' metadata.
    pub creators: Vec<CreatorShare>,
    /// Optional override of the collection mint.
    pub collection_mint: Option<[u8; 32]>,
    /// Optional go-live timestamp (Unix seconds).
    pub go_live_unix_time: Option<i64>,
    /// Ingredient constraints that must be satisfied to forge, in order.
    pub ingredient_constraints: Vec<IngredientConstraint>,
    /// Lifecycle status of the recipe.
    pub status: RecipeStatus,
    /// Optional pointer to a previous recipe version.
    pub previous_version: Option<[u8; 32]>,
    /// Bump seed of the recipe's address.
    pub bump: u8,
}

/// Sum of the encoded sizes of the constraints.
pub open spec fn ingredients_size(s: Seq<IngredientConstraint>) -> nat
    decreases s.len(),
{
    if s.len() == 0 {
        0
    } else {
        ingredients_size(s.drop_last()) + s.last().spec_size()
    }
}

/// Number of bytes of a stored recipe with fields of these sizes.
pub open spec fn recipe_space(
    slug_len: nat,
    output_kind: OutputKind,
    metadata_uri_len: nat,
    n_creators: nat,
    ingredients: Seq<IngredientConstraint>,
) -> nat {
    8 + 32 + 4 + slug_len + 2 + output_kind.spec_size() + 1 + 8 + 8 + 4 + metadata_uri_len + 4
        + n_creators * 34 + 1 + 32 + 1 + 8 + 4 + ingredients_size(ingredients) + 1 + 1 + 32 + 1
        + 7
}

/// Outcome of checking a slug, a metadata URI and a creator list against
/// their bounds, in that order.
pub open spec fn lengths_outcome(slug: Seq<char>, metadata_uri: Seq<char>, n_creators: nat) -> Result<
    (),
    ForgeError,
> {
    if byte_len(slug) > MAX_RECIPE_SLUG_LENGTH {
        Err(ForgeError::SlugTooLong)
    } else if byte_len(metadata_uri) > MAX_METADATA_URI_LENGTH {
        Err(ForgeError::MetadataUriTooLong)
    } else if n_creators > MAX_CREATORS {
        Err(ForgeError::TooManyCreators)
    } else {
        Ok(())
    }
}

/// Outcome of checking a constraint list against its bound.
pub open spec fn ingredients_outcome(n_ingredients: nat) -> Result<(), ForgeError> {
    if n_ingredients > MAX_INGREDIENTS {
        Err(ForgeError::TooManyIngredients)
    } else {
        Ok(())
    }
}

/// The sizes of a prefix of the constraints sum to no more than all of them.
pub proof fn lemma_ingredients_size_prefix(s: Seq<IngredientConstraint>, k: int)
    requires
        0 <= k <= s.len(),
    ensures
        ingredients_size(s.take(k)) <= ingredients_size(s),
    decreases s.len() - k,
{
    if k == s.len() {
        assert(s.take(k) =~= s);
    } else {
        assert(s.drop_last().take(k) =~= s.take(k));
        lemma_ingredients_size_prefix(s.drop_last(), k);
    }
}

impl Recipe {
    /// The minted count is within the supply cap, if there is one.
    pub open spec fn within_cap(&self) -> bool {
        match self.supply_cap {
            Some(cap) => self.minted <= cap,
            None => true,
        }
    }

    /// A stored recipe keeps its bounds and its supply cap.
    pub open spec fn wf(&self) -> bool {
        &&& self.within_cap()
        &&& lengths_outcome(self.slug@, self.metadata_uri@, self.creators@.len()) is Ok
        &&& ingredients_outcome(self.ingredient_constraints@.len()) is Ok
    }

    /// Number of bytes required for a recipe with the provided data.
    pub fn space(
        slug_len: usize,
        output_kind: &OutputKind,
        metadata_uri_len: usize,
        creators: &[CreatorShare],
        ingredient_constraints: &[IngredientConstraint],
    ) -> (r: usize)
        requires
            recipe_space(
                slug_len as nat,
                *output_kind,
                metadata_uri_len as nat,
                creators@.len(),
                ingredient_constraints@,
            ) <= usize::MAX,
        ensures
            r == recipe_space(
                slug_len as nat,
                *output_kind,
                metadata_uri_len as nat,
                creators@.len(),
                ingredient_constraints@,
            ),
    {
        let ghost total = recipe_space(
            slug_len as nat,
            *output_kind,
            metadata_uri_len as nat,
            creators@.len(),
            ingredient_constraints@,
        );
        let ghost s = ingredient_constraints@;
        let mut ingredients_sum: usize = 0;
        let mut i: usize = 0;
        assert(s.take(0) =~= Seq::<IngredientConstraint>::empty());
        while i < ingredient_constraints.len()
            invariant
                0 <= i <= s.len(),
                s == ingredient_constraints@,
                total <= usize::MAX,
                ingredients_size(s) <= total,
                ingredients_sum == ingredients_size(s.take(i as int)),
            decreases s.len() - i,
        {
            assert(s.take(i + 1).drop_last() =~= s.take(i as int));
            proof {
                lemma_ingredients_size_prefix(s, i + 1);
            }
            let size = ingredient_constraints[i].size();
            ingredients_sum = ingredients_sum + size;
            i += 1;
        }
        assert(s.take(s.len() as int) =~= s);
        let creators_size = 4 + creators.len() * CreatorShare::SIZE;
        let ingredient_size = 4 + ingredients_sum;
        8 + 32 + 4 + slug_len + 2 + output_kind.size() + 1 + 8 + 8 + 4 + metadata_uri_len
            + creators_size + 1 + 32 + 1 + 8 + ingredient_size + RecipeStatus::SIZE + 1 + 32 + 1
            + 7
    }

    /// Checks the slug, metadata URI and creator list against their bounds.
    pub fn validate_lengths(slug: &str, metadata_uri: &str, creators: &[CreatorShare]) -> (r:
        Result<(), ForgeError>)
        ensures
            r == lengths_outcome(slug@, metadata_uri@, creators@.len()),
    {
        if slug.as_bytes().len() > MAX_RECIPE_SLUG_LENGTH {
            return Err(ForgeError::SlugTooLong);
        }
        if metadata_uri.as_bytes().len() > MAX_METADATA_URI_LENGTH {
            return Err(ForgeError::MetadataUriTooLong);
        }
        if creators.len() > MAX_CREATORS {
            return Err(ForgeError::TooManyCreators);
        }
        Ok(())
    }

    /// Checks the number of ingredient constraints against its bound.
    pub fn validate_ingredients(ingredients: &[IngredientConstraint]) -> (r: Result<(), ForgeError>)
        ensures
            r == ingredients_outcome(ingredients@.len()),
    {
        if ingredients.len() > MAX_INGREDIENTS {
            return Err(ForgeError::TooManyIngredients);
        }
        Ok(())
    }
}

} // verus!
