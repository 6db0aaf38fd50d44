//! What the minting service is asked to do for a forge.

use vstd::prelude::*;
use vstd::string::StringExecFns;
use crate::errors::ForgeError;
use crate::ingredients::CreatorShare;
use crate::recipe::Recipe;
use crate::token_metadata::MetadataCreator;

verus! {

/// Symbol given to every forged asset (`"FORGE"`).
pub open spec fn forged_symbol() -> Seq<char> {
    seq!['F', 'O', 'R', 'G', 'E']
}

/// Everything the minting service needs to mint a one-of-one asset.
#[derive(Clone, Debug)]
pub struct MintRequest {
    /// Creators of the metadata; `None` when the recipe lists none.
    pub creators: Option<Vec<MetadataCreator>>,
    /// Metadata URI of the asset.
    pub metadata_uri: String,
    /// Seller fee of the asset, in basis points.
    pub seller_fee_basis_points: u16,
    /// Name of the asset: the recipe's slug.
    pub name: String,
    /// Symbol of the asset.
    pub symbol: String,
}

/// `m` records the creator share `c`.
pub open spec fn same_creator(m: MetadataCreator, c: CreatorShare) -> bool {
    m.address == c.address && m.verified == c.verified && m.share == c.share
}

/// The metadata creator list of a recipe's creators: absent when there are
/// none, else one entry per creator in order.
pub fn metadata_creators(creators: &[CreatorShare]) -> (r: Option<Vec<MetadataCreator>>)
    ensures
        creators@.len() == 0 <==> r is None,
        r matches Some(list) ==> list@.len() == creators@.len() && forall|i: int|
            0 <= i < creators@.len() ==> same_creator(#[trigger] list@[i], creators@[i]),
{
    if creators.len() == 0 {
        return None;
    }
    let mut list: Vec<MetadataCreator> = Vec::new();
    let mut i: usize = 0;
    while i < creators.len()
        invariant
            0 <= i <= creators@.len(),
            list@.len() == i,
            forall|j: int| 0 <= j < i ==> same_creator(#[trigger] list@[j], creators@[j]),
        decreases creators@.len() - i,
    {
        let c = creators[i];
        list.push(MetadataCreator { address: c.address, verified: c.verified, share: c.share });
        i += 1;
    }
    Some(list)
}

/// The request to mint a recipe's one-of-one asset with the given royalty.
pub open spec fn is_mint_request_for(req: MintRequest, recipe: Recipe, royalty_bps: u16) -> bool {
    &&& recipe.creators@.len() == 0 <==> req.creators is None
    &&& req.creators matches Some(list) ==> list@.len() == recipe.creators@.len() && forall|i: int|
        0 <= i < recipe.creators@.len() ==> same_creator(#[trigger] list@[i], recipe.creators@[i])
    &&& req.metadata_uri@ == recipe.metadata_uri@
    &&& req.seller_fee_basis_points == royalty_bps
    &&& req.name@ == recipe.slug@
    &&& req.symbol@ == forged_symbol()
}

/// Builds the request to mint a recipe's one-of-one asset.
pub fn one_of_one_request(recipe: &Recipe, royalty_bps: u16) -> (r: MintRequest)
    ensures
        is_mint_request_for(r, *recipe, royalty_bps),
{
    proof {
        reveal_strlit("FORGE");
    }
    let symbol = <String as StringExecFns>::from_str("FORGE");
    assert(symbol@ =~= forged_symbol());
    MintRequest {
        creators: metadata_creators(recipe.creators.as_slice()),
        metadata_uri: recipe.metadata_uri.clone(),
        seller_fee_basis_points: royalty_bps,
        name: recipe.slug.clone(),
        symbol,
    }
}

/// Minting of numbered editions is not available: always fails with
/// `MintingNotImplemented`.
pub fn mint_edition(
    recipe: &Recipe,
    parent_mint: &[u8; 32],
    creators: &[CreatorShare],
    metadata_uri: &str,
) -> (r: Result<[u8; 32], ForgeError>)
    ensures
        r == Err::<[u8; 32], ForgeError>(ForgeError::MintingNotImplemented),
{
    Err(ForgeError::MintingNotImplemented)
}

/// Minting of semi-fungible assets is not available: always fails with
/// `MintingNotImplemented`.
pub fn mint_semi_fungible(recipe: &Recipe, creators: &[CreatorShare], metadata_uri: &str) -> (r:
    Result<[u8; 32], ForgeError>)
    ensures
        r == Err::<[u8; 32], ForgeError>(ForgeError::MintingNotImplemented),
{
    Err(ForgeError::MintingNotImplemented)
}

} // verus!
