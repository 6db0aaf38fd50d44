//! Creating a forge configuration.

use vstd::prelude::*;
use crate::constants::MAX_ROYALTY_BPS;
use crate::errors::ForgeError;
use crate::events::ForgeInitialized;
use crate::forge_config::ForgeConfig;

verus! {

/// Settings of a new forge configuration.
#[derive(Clone, Copy, Debug, Default)]
pub struct InitializeForgeArgs {
    pub collection_mint: Option<[u8; 32]>,
    pub freeze_authority: Option<[u8; 32]>,
    pub default_royalty_bps: u16,
    pub recipe_creation_enabled: bool,
}

/// Creates the configuration of `authority`'s forge, stored at
/// `forge_config_key` with bump seed `bump`. The royalty rate must be at most
/// 10000 basis points.
pub fn initialize_forge(
    forge_config_key: [u8; 32],
    authority: [u8; 32],
    bump: u8,
    args: InitializeForgeArgs,
) -> (r: Result<(ForgeConfig, ForgeInitialized), ForgeError>)
    ensures
        r is Ok <==> args.default_royalty_bps <= MAX_ROYALTY_BPS,
        args.default_royalty_bps > MAX_ROYALTY_BPS <==> r == Err::<
            (ForgeConfig, ForgeInitialized),
            ForgeError,
        >(ForgeError::InvalidRoyaltyBasisPoints),
        r matches Ok((config, event)) ==> {
            &&& config == (ForgeConfig {
                authority,
                collection_mint: args.collection_mint,
                freeze_authority: args.freeze_authority,
                default_royalty_bps: args.default_royalty_bps,
                recipe_creation_enabled: args.recipe_creation_enabled,
                bump,
            })
            &&& config.wf()
            &&& event == (ForgeInitialized {
                forge_config: forge_config_key,
                authority,
                collection_mint: args.collection_mint,
                freeze_authority: args.freeze_authority,
                default_royalty_bps: args.default_royalty_bps,
                recipe_creation_enabled: args.recipe_creation_enabled,
            })
        },
{
    if args.default_royalty_bps > MAX_ROYALTY_BPS {
        return Err(ForgeError::InvalidRoyaltyBasisPoints);
    }
    let config = ForgeConfig {
        authority,
        collection_mint: args.collection_mint,
        freeze_authority: args.freeze_authority,
        default_royalty_bps: args.default_royalty_bps,
        recipe_creation_enabled: args.recipe_creation_enabled,
        bump,
    };
    let event = ForgeInitialized {
        forge_config: forge_config_key,
        authority,
        collection_mint: args.collection_mint,
        freeze_authority: args.freeze_authority,
        default_royalty_bps: args.default_royalty_bps,
        recipe_creation_enabled: args.recipe_creation_enabled,
    };
    Ok((config, event))
}

} // verus!
