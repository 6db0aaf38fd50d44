//! Recipe-based forging: ingredient verification, commitment digests,
//! replay protection and the recipe lifecycle.

pub mod addresses;
pub mod commitment;
pub mod config;
pub mod constants;
pub mod errors;
pub mod evaluators;
pub mod events;
pub mod evidence;
pub mod forge;
pub mod forge_config;
pub mod hashing;
pub mod ingredients;
pub mod initialize;
pub mod keys;
pub mod laws;
pub mod minting;
pub mod recipe;
pub mod recipe_use;
pub mod recipes;
pub mod token_metadata;
