//! The forge's error kinds.

use vstd::prelude::*;

verus! {

/// Every way a forge operation can fail; each request fails with one kind.
#[derive(Debug, Clone, Copy, PartialEq, Eq, Structural)]
pub enum ForgeError {
    Unimplemented,
    SlugTooLong,
    MetadataUriTooLong,
    TooManyCreators,
    TooManyIngredients,
    MissingBump,
    UnauthorizedAuthority,
    InvalidRoyaltyBasisPoints,
    RecipeCreationDisabled,
    SupplyCapReached,
    SupplyCapBelowMinted,
    RecipeStatusUnchanged,
    RecipeRetiredImmutable,
    RecipeInvalidInitialStatus,
    RecipeInactive,
    RecipeNotLive,
    DuplicateRecipeUse,
    ArithmeticOverflow,
    MissingRequiredSigner,
    IngredientTypeUnsupported,
    IngredientHashMismatch,
    MissingTokenAccount,
    TokenAccountOwnerMismatch,
    TokenMintMismatch,
    InsufficientTokenBalance,
    MissingCollectionNft,
    MissingAllowlistProof,
    MintingNotImplemented,
}

impl ForgeError {
    /// Human-readable description of the error.
    pub fn message(&self) -> &'static str {
        match self {
            ForgeError::Unimplemented => "This functionality has not been implemented yet.",
            ForgeError::SlugTooLong => "Recipe slug exceeds maximum length.",
            ForgeError::MetadataUriTooLong => "Metadata URI exceeds maximum length.",
            ForgeError::TooManyCreators => "Provided creator list exceeds maximum supported size.",
            ForgeError::TooManyIngredients => "Ingredient constraint list exceeds maximum supported size.",
            ForgeError::MissingBump => "Expected bump seed not found in context.",
            ForgeError::UnauthorizedAuthority => "Caller is not authorized to perform this action.",
            ForgeError::InvalidRoyaltyBasisPoints => "Royalty basis points must be between 0 and 10_000.",
            ForgeError::RecipeCreationDisabled => "Recipe creation is currently disabled.",
            ForgeError::SupplyCapReached => "Recipe already reached the configured supply cap.",
            ForgeError::SupplyCapBelowMinted => "Requested supply cap is below the already minted quantity.",
            ForgeError::RecipeStatusUnchanged => "Recipe status is unchanged.",
            ForgeError::RecipeRetiredImmutable => "Recipe is retired and cannot transition to another status.",
            ForgeError::RecipeInvalidInitialStatus => "Recipe status cannot be set to retired during creation.",
            ForgeError::RecipeInactive => "Recipe is not active.",
            ForgeError::RecipeNotLive => "Recipe is not live yet.",
            ForgeError::DuplicateRecipeUse => "Recipe input has already been consumed.",
            ForgeError::ArithmeticOverflow => "Arithmetic overflow while updating recipe state.",
            ForgeError::MissingRequiredSigner => "Ingredient verification failed for signer requirement.",
            ForgeError::IngredientTypeUnsupported => "Ingredient type currently unsupported by on-chain verifier.",
            ForgeError::IngredientHashMismatch => "Computed ingredient hash does not match provided digest.",
            ForgeError::MissingTokenAccount => "Required token account not found in remaining accounts.",
            ForgeError::TokenAccountOwnerMismatch => "Token account owner does not match forger.",
            ForgeError::TokenMintMismatch => "Token account mint does not match required mint.",
            ForgeError::InsufficientTokenBalance => "Token account balance is insufficient for requirement.",
            ForgeError::MissingCollectionNft => "Required collection NFT not found in remaining accounts.",
            ForgeError::MissingAllowlistProof => "Allowlist proof not provided in remaining accounts.",
            ForgeError::MintingNotImplemented => "Asset minting functionality is not yet implemented.",
        }
    }
}

} // verus!
