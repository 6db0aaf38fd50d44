//! Bounds and seed prefixes shared by the forge's records.

use vstd::prelude::*;

verus! {

/// Maximum number of creators allowed per recipe metadata.
pub const MAX_CREATORS: usize = 5;

/// Maximum length of the recipe slug (in bytes).
pub const MAX_RECIPE_SLUG_LENGTH: usize = 32;

/// Maximum length of the metadata URI stored on a recipe (in bytes).
pub const MAX_METADATA_URI_LENGTH: usize = 200;

/// Maximum number of ingredient constraints supported by a recipe.
pub const MAX_INGREDIENTS: usize = 10;

/// Size of a 32-byte hash.
pub const HASH_BYTES: usize = 32;

/// Largest royalty rate, in basis points.
pub const MAX_ROYALTY_BPS: u16 = 10000;

} // verus!
