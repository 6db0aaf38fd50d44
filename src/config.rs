//! Changing a forge configuration.

use vstd::prelude::*;
use crate::constants::MAX_ROYALTY_BPS;
use crate::errors::ForgeError;
use crate::events::ForgeConfigUpdated;
use crate::forge_config::ForgeConfig;
use crate::keys::keys_equal;

verus! {

/// Fields to change in a forge configuration; `None` keeps the field.
#[derive(Clone, Copy, Debug, Default)]
pub struct SetForgeConfigArgs {
    pub collection_mint: Option<Option<[u8; 32]>>,
    pub freeze_authority: Option<Option<[u8; 32]>>,
    pub default_royalty_bps: Option<u16>,
    pub recipe_creation_enabled: Option<bool>,
}

/// Outcome of a configuration change requested by `signer`.
pub open spec fn set_config_outcome(config: ForgeConfig, signer: [u8; 32], args: SetForgeConfigArgs) -> Result<
    (),
    ForgeError,
> {
    if signer@ != config.authority@ {
        Err(ForgeError::UnauthorizedAuthority)
    } else if args.default_royalty_bps matches Some(bps) && bps > MAX_ROYALTY_BPS {
        Err(ForgeError::InvalidRoyaltyBasisPoints)
    } else {
        Ok(())
    }
}

/// The configuration with the requested changes applied.
pub open spec fn config_with(config: ForgeConfig, args: SetForgeConfigArgs) -> ForgeConfig {
    ForgeConfig {
        collection_mint: match args.collection_mint {
            Some(c) => c,
            None => config.collection_mint,
        },
        freeze_authority: match args.freeze_authority {
            Some(f) => f,
            None => config.freeze_authority,
        },
        default_royalty_bps: match args.default_royalty_bps {
            Some(bps) => bps,
            None => config.default_royalty_bps,
        },
        recipe_creation_enabled: match args.recipe_creation_enabled {
            Some(e) => e,
            None => config.recipe_creation_enabled,
        },
        ..config
    }
}

/// Changes the configuration at `forge_config_key` as `signer` requests. Only
/// the configuration's authority may do so; the change is all or nothing.
pub fn set_forge_config(
    forge_config: &mut ForgeConfig,
    forge_config_key: [u8; 32],
    signer: [u8; 32],
    args: SetForgeConfigArgs,
) -> (r: Result<ForgeConfigUpdated, ForgeError>)
    ensures
        r is Ok <==> set_config_outcome(*old(forge_config), signer, args) is Ok,
        r matches Err(e) ==> set_config_outcome(*old(forge_config), signer, args) == Err::<
            (),
            ForgeError,
        >(e) && *final(forge_config) == *old(forge_config),
        r matches Ok(event) ==> {
            &&& *final(forge_config) == config_with(*old(forge_config), args)
            &&& event == (ForgeConfigUpdated {
                forge_config: forge_config_key,
                authority: signer,
                collection_mint: final(forge_config).collection_mint,
                freeze_authority: final(forge_config).freeze_authority,
                default_royalty_bps: final(forge_config).default_royalty_bps,
                recipe_creation_enabled: final(forge_config).recipe_creation_enabled,
            })
        },
        old(forge_config).wf() ==> final(forge_config).wf(),
{
    if !keys_equal(&signer, &forge_config.authority) {
        return Err(ForgeError::UnauthorizedAuthority);
    }
    if let Some(bps) = args.default_royalty_bps {
        if bps > MAX_ROYALTY_BPS {
            return Err(ForgeError::InvalidRoyaltyBasisPoints);
        }
    }
    if let Some(target_collection_mint) = args.collection_mint {
        forge_config.collection_mint = target_collection_mint;
    }
    if let Some(target_freeze_authority) = args.freeze_authority {
        forge_config.freeze_authority = target_freeze_authority;
    }
    if let Some(bps) = args.default_royalty_bps {
        forge_config.default_royalty_bps = bps;
    }
    if let Some(enabled) = args.recipe_creation_enabled {
        forge_config.recipe_creation_enabled = enabled;
    }
    Ok(
        ForgeConfigUpdated {
            forge_config: forge_config_key,
            authority: signer,
            collection_mint: forge_config.collection_mint,
            freeze_authority: forge_config.freeze_authority,
            default_royalty_bps: forge_config.default_royalty_bps,
            recipe_creation_enabled: forge_config.recipe_creation_enabled,
        },
    )
}

} // verus!
