//! Output kinds, lifecycle states, creator shares and ingredient constraints.

use vstd::prelude::*;

verus! {

/// The kind of asset a recipe produces.
#[derive(Clone, Copy, Debug, PartialEq, Eq)]
pub enum OutputKind {
    OneOfOne,
    Edition { parent_mint: [u8; 32] },
    SemiFungible,
}

impl OutputKind {
    /// Encoded size of the output kind: a variant tag, plus the parent mint
    /// for editions.
    pub open spec fn spec_size(&self) -> nat {
        match self {
            OutputKind::Edition { .. } => 33,
            _ => 1,
        }
    }

    /// Number of bytes required to serialize this output kind.
    pub fn size(&self) -> (r: usize)
        ensures
            r == self.spec_size(),
    {
        match self {
            OutputKind::OneOfOne | OutputKind::SemiFungible => 1,
            OutputKind::Edition { .. } => 1 + 32,
        }
    }
}

/// Lifecycle status of a recipe.
#[derive(Clone, Copy, Debug, PartialEq, Eq, Structural)]
pub enum RecipeStatus {
    Draft,
    Active,
    Paused,
    Retired,
}

impl RecipeStatus {
    /// Encoded size of a status.
    pub const SIZE: usize = 1;
}

/// Creator entry of the metadata given to forged assets.
#[derive(Clone, Copy, Debug, PartialEq, Eq)]
pub struct CreatorShare {
    pub address: [u8; 32],
    pub verified: bool,
    pub share: u8,
}

impl CreatorShare {
    /// Encoded size of a creator entry.
    pub const SIZE: usize = 32 + 1 + 1;
}

/// One fact a forger must prove to use a recipe.
#[derive(Clone, Debug, PartialEq, Eq)]
pub enum IngredientConstraint {
    /// Holding at least `amount` of the token `mint`.
    TokenMint { mint: [u8; 32], amount: u64 },
    /// Holding an NFT of the collection `collection_mint`.
    CollectionNft { collection_mint: [u8; 32] },
    /// Inclusion in the allowlist whose Merkle root is `merkle_root`.
    Allowlist { merkle_root: [u8; 32] },
    /// A signature by `authority`.
    Signer { authority: [u8; 32] },
    /// An opaque derived-fact marker taken as recipe data.
    CustomSeeds { seeds: Vec<u8> },
}

impl IngredientConstraint {
    /// Encoded size of the constraint: a variant tag and its fields, with a
    /// four-byte length before the seeds.
    pub open spec fn spec_size(&self) -> nat {
        match self {
            IngredientConstraint::TokenMint { .. } => 41,
            IngredientConstraint::CustomSeeds { seeds } => 5 + seeds@.len(),
            _ => 33,
        }
    }

    /// Number of bytes required to encode this constraint.
    pub fn size(&self) -> (r: usize)
        requires
            self.spec_size() <= usize::MAX,
        ensures
            r == self.spec_size(),
    {
        match self {
            IngredientConstraint::TokenMint { .. } => 1 + 32 + 8,
            IngredientConstraint::CollectionNft { .. } => 1 + 32,
            IngredientConstraint::Allowlist { .. } => 1 + 32,
            IngredientConstraint::Signer { .. } => 1 + 32,
            IngredientConstraint::CustomSeeds { seeds } => 1 + 4 + seeds.len(),
        }
    }
}

} // verus!
