//! Records of what each operation did, for the event stream.

use vstd::prelude::*;
use crate::ingredients::RecipeStatus;

verus! {

/// A forge configuration was initialized.
#[derive(Clone, Debug)]
pub struct ForgeInitialized {
    pub forge_config: [u8; 32],
    pub authority: [u8; 32],
    pub collection_mint: Option<[u8; 32]>,
    pub freeze_authority: Option<[u8; 32]>,
    pub default_royalty_bps: u16,
    pub recipe_creation_enabled: bool,
}

/// Forge configuration fields were updated.
#[derive(Clone, Debug)]
pub struct ForgeConfigUpdated {
    pub forge_config: [u8; 32],
    pub authority: [u8; 32],
    pub collection_mint: Option<[u8; 32]>,
    pub freeze_authority: Option<[u8; 32]>,
    pub default_royalty_bps: u16,
    pub recipe_creation_enabled: bool,
}

/// A recipe was created.
#[derive(Clone, Debug)]
pub struct RecipeCreated {
    pub forge_config: [u8; 32],
    pub recipe: [u8; 32],
    pub slug: String,
    pub version: u16,
    pub status: RecipeStatus,
}

/// A recipe was updated.
#[derive(Clone, Debug)]
pub struct RecipeUpdated {
    pub forge_config: [u8; 32],
    pub recipe: [u8; 32],
    pub slug: String,
    pub version: u16,
}

/// A recipe's status changed.
#[derive(Clone, Debug)]
pub struct RecipeStatusChanged {
    pub forge_config: [u8; 32],
    pub recipe: [u8; 32],
    pub previous: RecipeStatus,
    pub next: RecipeStatus,
}

/// An asset was forged.
#[derive(Clone, Debug)]
pub struct AssetForged {
    pub forge_config: [u8; 32],
    pub recipe: [u8; 32],
    pub forger: [u8; 32],
    pub mint: [u8; 32],
    pub minted_count: u64,
    pub supply_cap: Option<u64>,
    pub input_hash: [u8; 32],
}

} // verus!
