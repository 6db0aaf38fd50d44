//! The configuration root of a forge.

use vstd::prelude::*;
use crate::constants::MAX_ROYALTY_BPS;

verus! {

/// Global settings of one authority's forge.
#[derive(Clone, Copy, Debug)]
pub struct ForgeConfig {
    /// Authority permitted to manage configuration and recipes.
    pub authority: [u8; 32],
    /// Optional collection mint to associate newly forged assets with.
    pub collection_mint: Option<[u8; 32]>,
    /// Optional freeze authority to assign to minted assets.
    pub freeze_authority: Option<[u8; 32]>,
    /// Default seller fee applied to forged assets, in basis points.
    pub default_royalty_bps: u16,
    /// Whether new recipes can currently be created.
    pub recipe_creation_enabled: bool,
    /// Bump seed of the configuration's address.
    pub bump: u8,
}

impl ForgeConfig {
    /// Number of bytes of a stored configuration.
    pub const SIZE: usize = 8 + 32 + 1 + 32 + 1 + 32 + 2 + 1 + 1 + 5;

    /// The royalty rate is at most 10000 basis points.
    pub open spec fn wf(&self) -> bool {
        self.default_royalty_bps <= MAX_ROYALTY_BPS
    }
}

} // verus!
