use forge::commitment::compute_commitment;
use forge::errors::ForgeError;
use forge::evaluators::{
    evaluate_constraints, merkle_parent_of, verify_allowlist, verify_collection_nft,
    verify_signer, verify_token_mint,
};
use forge::evidence::EvidenceItem;
use forge::forge::{complete_forge, forge_asset, ForgeAssetArgs};
use forge::forge_config::ForgeConfig;
use forge::ingredients::{CreatorShare, IngredientConstraint, OutputKind, RecipeStatus};
use forge::recipe::Recipe;
use forge::recipe_use::UsageLedger;
use forge::token_metadata::{
    derive_edition_marker_pda, derive_master_edition_pda, derive_metadata_pda,
    token_metadata_program_id,
};
use solana_program::hash::hashv;
use solana_program::pubkey::Pubkey;

const FORGER: [u8; 32] = [1u8; 32];
const CONFIG_KEY: [u8; 32] = [2u8; 32];
const RECIPE_KEY: [u8; 32] = [3u8; 32];

fn token_program() -> [u8; 32] {
    anchor_spl::token::ID.to_bytes()
}

fn item(key: [u8; 32], owner: [u8; 32], is_signer: bool, data: Vec<u8>) -> EvidenceItem {
    EvidenceItem {
        key,
        owner,
        is_signer,
        data,
    }
}

fn token_record(mint: [u8; 32], owner: [u8; 32], amount: u64) -> Vec<u8> {
    let mut data = Vec::new();
    data.extend_from_slice(&mint);
    data.extend_from_slice(&owner);
    data.extend_from_slice(&amount.to_le_bytes());
    data.extend_from_slice(&[0u8; 93]);
    data
}

fn config() -> ForgeConfig {
    ForgeConfig {
        authority: [9u8; 32],
        collection_mint: None,
        freeze_authority: None,
        default_royalty_bps: 500,
        recipe_creation_enabled: true,
        bump: 255,
    }
}

fn recipe(constraints: Vec<IngredientConstraint>, supply_cap: Option<u64>) -> Recipe {
    Recipe {
        forge_config: CONFIG_KEY,
        slug: "potion".to_string(),
        version: 1,
        output_kind: OutputKind::OneOfOne,
        supply_cap,
        minted: 0,
        metadata_uri: "ipfs://potion".to_string(),
        creators: vec![CreatorShare {
            address: [9u8; 32],
            verified: true,
            share: 100,
        }],
        collection_mint: None,
        go_live_unix_time: None,
        ingredient_constraints: constraints,
        status: RecipeStatus::Active,
        previous_version: None,
        bump: 1,
    }
}

fn digest_of(fragments: &[Vec<u8>]) -> [u8; 32] {
    let parts: Vec<&[u8]> = fragments.iter().map(|f| f.as_slice()).collect();
    hashv(&parts).to_bytes()
}

fn signer_digest(authority: [u8; 32]) -> [u8; 32] {
    let mut fragment = vec![0u8];
    fragment.extend_from_slice(&authority);
    digest_of(&[fragment])
}

fn sorted_parent(a: [u8; 32], b: [u8; 32]) -> [u8; 32] {
    if a < b {
        hashv(&[&a, &b]).to_bytes()
    } else {
        hashv(&[&b, &a]).to_bytes()
    }
}

#[test]
fn commitment_of_no_fragments_is_empty_digest() {
    let expected: [u8; 32] = [
        227, 176, 196, 66, 152, 252, 28, 20, 154, 251, 244, 200, 153, 111, 185, 36, 39, 174, 65,
        228, 100, 155, 147, 76, 164, 149, 153, 27, 120, 82, 184, 85,
    ];
    assert_eq!(compute_commitment(&vec![]), expected);
}

#[test]
fn commitment_hashes_fragments_in_order() {
    let a = vec![0u8, 1, 2];
    let b = vec![4u8, 5];
    let digest = compute_commitment(&vec![a.clone(), b.clone()]);
    assert_eq!(digest, digest_of(&[a.clone(), b.clone()]));
    assert_ne!(digest, compute_commitment(&vec![b, a]));
}

#[test]
fn commitment_is_deterministic_across_evidence() {
    let authority = [5u8; 32];
    let constraints = vec![
        IngredientConstraint::Signer { authority },
        IngredientConstraint::CustomSeeds { seeds: vec![7, 7] },
    ];
    let signer = item(authority, [0u8; 32], true, vec![]);
    let other = item([6u8; 32], [0u8; 32], false, vec![1, 2, 3]);
    let first = evaluate_constraints(&constraints, &FORGER, &[signer.clone(), other.clone()]).unwrap();
    let second = evaluate_constraints(&constraints, &FORGER, &[other, signer]).unwrap();
    let again = evaluate_constraints(&constraints, &authority, &[]).unwrap();
    assert_eq!(compute_commitment(&first), compute_commitment(&second));
    assert_eq!(compute_commitment(&first), compute_commitment(&again));
    let mut seeds_fragment = vec![1u8];
    seeds_fragment.extend_from_slice(&[7, 7]);
    assert_eq!(first[1], seeds_fragment);
}

#[test]
fn signer_constraint() {
    let authority = [5u8; 32];
    let mut expected = vec![0u8];
    expected.extend_from_slice(&authority);
    assert_eq!(verify_signer(&authority, &authority, &[]), Ok(expected.clone()));
    let cosigner = item(authority, [0u8; 32], true, vec![]);
    assert_eq!(verify_signer(&FORGER, &authority, &[cosigner]), Ok(expected));
    let not_signed = item(authority, [0u8; 32], false, vec![]);
    assert_eq!(
        verify_signer(&FORGER, &authority, &[not_signed]),
        Err(ForgeError::MissingRequiredSigner)
    );
}

#[test]
fn token_mint_balance_threshold() {
    let mint = [4u8; 32];
    let short = item([10u8; 32], token_program(), false, token_record(mint, FORGER, 3));
    assert_eq!(
        verify_token_mint(&FORGER, &mint, 5, &[short]),
        Err(ForgeError::InsufficientTokenBalance)
    );
    let enough = item([10u8; 32], token_program(), false, token_record(mint, FORGER, 5));
    let mut expected = vec![2u8];
    expected.extend_from_slice(&mint);
    expected.extend_from_slice(&5u64.to_le_bytes());
    assert_eq!(verify_token_mint(&FORGER, &mint, 5, &[enough]), Ok(expected));
}

#[test]
fn token_mint_errors() {
    let mint = [4u8; 32];
    assert_eq!(
        verify_token_mint(&FORGER, &mint, 1, &[]),
        Err(ForgeError::MissingTokenAccount)
    );
    let not_token = item([10u8; 32], [0u8; 32], false, token_record(mint, FORGER, 9));
    assert_eq!(
        verify_token_mint(&FORGER, &mint, 1, &[not_token]),
        Err(ForgeError::MissingTokenAccount)
    );
    let truncated = item([10u8; 32], token_program(), false, vec![0u8; 71]);
    assert_eq!(
        verify_token_mint(&FORGER, &mint, 1, &[truncated]),
        Err(ForgeError::MissingTokenAccount)
    );
    let foreign = item([10u8; 32], token_program(), false, token_record(mint, [8u8; 32], 9));
    assert_eq!(
        verify_token_mint(&FORGER, &mint, 1, &[foreign]),
        Err(ForgeError::TokenAccountOwnerMismatch)
    );
    let other_mint = item([10u8; 32], token_program(), false, token_record([6u8; 32], FORGER, 9));
    assert_eq!(
        verify_token_mint(&FORGER, &mint, 1, &[other_mint]),
        Err(ForgeError::TokenMintMismatch)
    );
}

fn metadata_address(nft: [u8; 32]) -> [u8; 32] {
    let program = mpl_token_metadata::ID;
    Pubkey::find_program_address(&[b"metadata", program.as_ref(), &nft], &program)
        .0
        .to_bytes()
}

fn collection_evidence(nft: [u8; 32], amount: u64, described: [u8; 32]) -> Vec<EvidenceItem> {
    let ata = anchor_spl::associated_token::get_associated_token_address(
        &Pubkey::new_from_array(FORGER),
        &Pubkey::new_from_array(nft),
    )
    .to_bytes();
    let mut metadata = vec![4u8];
    metadata.extend_from_slice(&[9u8; 32]);
    metadata.extend_from_slice(&described);
    vec![
        item(nft, token_program(), false, vec![0u8; 82]),
        item(ata, token_program(), false, token_record(nft, FORGER, amount)),
        item(metadata_address(nft), mpl_token_metadata::ID.to_bytes(), false, metadata),
    ]
}

#[test]
fn collection_nft_constraint() {
    let nft = [12u8; 32];
    let collection = [13u8; 32];
    let mut expected = vec![3u8];
    expected.extend_from_slice(&collection);
    let evidence = collection_evidence(nft, 1, nft);
    assert_eq!(verify_collection_nft(&FORGER, &collection, &evidence), Ok(expected));
    assert_eq!(
        verify_collection_nft(&FORGER, &collection, &collection_evidence(nft, 0, nft)),
        Err(ForgeError::InsufficientTokenBalance)
    );
    assert_eq!(
        verify_collection_nft(&FORGER, &collection, &collection_evidence(nft, 1, [1u8; 32])),
        Err(ForgeError::TokenMintMismatch)
    );
    assert_eq!(
        verify_collection_nft(&FORGER, &collection, &evidence[1..]),
        Err(ForgeError::MissingCollectionNft)
    );
    assert_eq!(
        verify_collection_nft(&FORGER, &collection, &[evidence[0].clone(), evidence[2].clone()]),
        Err(ForgeError::MissingTokenAccount)
    );
    assert_eq!(
        verify_collection_nft(&FORGER, &collection, &evidence[..2]),
        Err(ForgeError::MissingCollectionNft)
    );
    assert_eq!(
        verify_collection_nft(&[14u8; 32], &collection, &evidence),
        Err(ForgeError::MissingTokenAccount)
    );
}

#[test]
fn metadata_addresses_match_the_metadata_program() {
    let nft = [12u8; 32];
    let program = mpl_token_metadata::ID;
    assert_eq!(token_metadata_program_id(), program.to_bytes());
    let (address, bump) = derive_metadata_pda(&nft).unwrap();
    let expected = Pubkey::find_program_address(&[b"metadata", program.as_ref(), &nft], &program);
    assert_eq!((address, bump), (expected.0.to_bytes(), expected.1));
    let (edition, _) = derive_master_edition_pda(&nft).unwrap();
    let expected =
        Pubkey::find_program_address(&[b"metadata", program.as_ref(), &nft, b"edition"], &program);
    assert_eq!(edition, expected.0.to_bytes());
    let (marker, _) = derive_edition_marker_pda(&nft, 500).unwrap();
    let expected = Pubkey::find_program_address(
        &[b"metadata", program.as_ref(), &nft, b"edition", &2u64.to_le_bytes()],
        &program,
    );
    assert_eq!(marker, expected.0.to_bytes());
}

fn leaf_item(bytes: [u8; 32]) -> EvidenceItem {
    item([0u8; 32], [0u8; 32], false, bytes.to_vec())
}

#[test]
fn allowlist_four_leaf_tree() {
    let leaves: Vec<[u8; 32]> = (0u8..4)
        .map(|i| hashv(&[&[i; 32]]).to_bytes())
        .collect();
    let left = sorted_parent(leaves[0], leaves[1]);
    let right = sorted_parent(leaves[2], leaves[3]);
    let root = sorted_parent(left, right);
    assert_eq!(merkle_parent_of(&leaves[0], &leaves[1]), left);

    let proof = vec![leaf_item(leaves[2]), leaf_item(leaves[3]), leaf_item(left)];
    let mut expected = vec![4u8];
    expected.extend_from_slice(&root);
    assert_eq!(verify_allowlist(&root, &proof), Ok(expected));

    let mut flipped = leaves[3];
    flipped[0] ^= 1;
    let bad = vec![leaf_item(leaves[2]), leaf_item(flipped), leaf_item(left)];
    assert_eq!(verify_allowlist(&root, &bad), Err(ForgeError::IngredientHashMismatch));
}

#[test]
fn allowlist_missing_proof() {
    let root = [1u8; 32];
    assert_eq!(verify_allowlist(&root, &[]), Err(ForgeError::MissingAllowlistProof));
    let short = item([0u8; 32], [0u8; 32], false, vec![0u8; 31]);
    assert_eq!(
        verify_allowlist(&root, &[leaf_item(root), short]),
        Err(ForgeError::MissingAllowlistProof)
    );
    let mut expected = vec![4u8];
    expected.extend_from_slice(&root);
    assert_eq!(verify_allowlist(&root, &[leaf_item(root)]), Ok(expected));
}

#[test]
fn forge_once_then_cap_then_replay() {
    let authority = FORGER;
    let config = config();
    let mut recipe = recipe(vec![IngredientConstraint::Signer { authority }], Some(1));
    let mut ledger = UsageLedger::new();
    let args = ForgeAssetArgs {
        input_hash: signer_digest(authority),
    };

    let request = forge_asset(&config, &recipe, &RECIPE_KEY, &ledger, &FORGER, &args, &[], 0).unwrap();
    assert_eq!(request.name, "potion");
    assert_eq!(request.symbol, "FORGE");
    assert_eq!(request.metadata_uri, "ipfs://potion");
    assert_eq!(request.seller_fee_basis_points, 500);
    assert_eq!(request.creators.as_ref().map(|c| c.len()), Some(1));

    let asset = [77u8; 32];
    let (record, event) = complete_forge(
        CONFIG_KEY, &mut recipe, RECIPE_KEY, &mut ledger, FORGER, args.input_hash, asset, 42, 7,
    )
    .unwrap();
    assert_eq!(recipe.minted, 1);
    assert_eq!(event.mint, asset);
    assert_eq!(event.minted_count, 1);
    assert_eq!(event.supply_cap, Some(1));
    assert_eq!(record.forged_at, 42);
    assert_eq!(record.input_hash, args.input_hash);
    assert!(ledger.contains(&RECIPE_KEY, &args.input_hash));

    assert_eq!(
        forge_asset(&config, &recipe, &RECIPE_KEY, &ledger, &FORGER, &args, &[], 0).err(),
        Some(ForgeError::SupplyCapReached)
    );

    recipe.supply_cap = None;
    assert_eq!(
        forge_asset(&config, &recipe, &RECIPE_KEY, &ledger, &FORGER, &args, &[], 0).err(),
        Some(ForgeError::DuplicateRecipeUse)
    );
    assert_eq!(recipe.minted, 1);
}

#[test]
fn second_completion_is_a_replay() {
    let mut recipe = recipe(vec![], None);
    let mut ledger = UsageLedger::new();
    let digest = compute_commitment(&vec![]);
    assert!(complete_forge(CONFIG_KEY, &mut recipe, RECIPE_KEY, &mut ledger, FORGER, digest, [1u8; 32], 0, 0).is_ok());
    assert_eq!(
        complete_forge(CONFIG_KEY, &mut recipe, RECIPE_KEY, &mut ledger, FORGER, digest, [2u8; 32], 0, 0).err(),
        Some(ForgeError::DuplicateRecipeUse)
    );
    assert_eq!(recipe.minted, 1);
    // The same digest is free for another recipe.
    assert!(complete_forge(CONFIG_KEY, &mut recipe, [4u8; 32], &mut ledger, FORGER, digest, [3u8; 32], 0, 0).is_ok());
    assert_eq!(recipe.minted, 2);
}

#[test]
fn cap_holds_across_many_forges() {
    let mut recipe = recipe(vec![], Some(2));
    let mut ledger = UsageLedger::new();
    for i in 0u8..5 {
        let result = complete_forge(CONFIG_KEY, &mut recipe, RECIPE_KEY, &mut ledger, FORGER, [i; 32], [i; 32], 0, 0);
        if i < 2 {
            assert!(result.is_ok());
        } else {
            assert_eq!(result.err(), Some(ForgeError::SupplyCapReached));
        }
        assert!(recipe.minted <= 2);
    }
    assert_eq!(recipe.minted, 2);
}

#[test]
fn minted_counter_overflow() {
    let mut recipe = recipe(vec![], None);
    recipe.minted = u64::MAX;
    let mut ledger = UsageLedger::new();
    assert_eq!(
        complete_forge(CONFIG_KEY, &mut recipe, RECIPE_KEY, &mut ledger, FORGER, [0u8; 32], [0u8; 32], 0, 0).err(),
        Some(ForgeError::ArithmeticOverflow)
    );
    assert!(!ledger.contains(&RECIPE_KEY, &[0u8; 32]));
}

#[test]
fn forge_gates_and_digest() {
    let config = config();
    let ledger = UsageLedger::new();
    let digest = compute_commitment(&vec![]);
    let args = ForgeAssetArgs { input_hash: digest };
    let mut r = recipe(vec![], None);
    assert!(forge_asset(&config, &r, &RECIPE_KEY, &ledger, &FORGER, &args, &[], 0).is_ok());

    let wrong = ForgeAssetArgs { input_hash: [0u8; 32] };
    assert_eq!(
        forge_asset(&config, &r, &RECIPE_KEY, &ledger, &FORGER, &wrong, &[], 0).err(),
        Some(ForgeError::IngredientHashMismatch)
    );

    r.go_live_unix_time = Some(100);
    assert_eq!(
        forge_asset(&config, &r, &RECIPE_KEY, &ledger, &FORGER, &args, &[], 99).err(),
        Some(ForgeError::RecipeNotLive)
    );
    assert!(forge_asset(&config, &r, &RECIPE_KEY, &ledger, &FORGER, &args, &[], 100).is_ok());

    r.status = RecipeStatus::Paused;
    assert_eq!(
        forge_asset(&config, &r, &RECIPE_KEY, &ledger, &FORGER, &args, &[], 100).err(),
        Some(ForgeError::RecipeInactive)
    );

    r.status = RecipeStatus::Active;
    r.output_kind = OutputKind::SemiFungible;
    assert_eq!(
        forge_asset(&config, &r, &RECIPE_KEY, &ledger, &FORGER, &args, &[], 100).err(),
        Some(ForgeError::MintingNotImplemented)
    );
    r.output_kind = OutputKind::Edition {
        parent_mint: [5u8; 32],
    };
    assert_eq!(
        forge_asset(&config, &r, &RECIPE_KEY, &ledger, &FORGER, &args, &[], 100).err(),
        Some(ForgeError::MintingNotImplemented)
    );
}

#[test]
fn forge_with_token_requirement() {
    let config = config();
    let ledger = UsageLedger::new();
    let mint = [4u8; 32];
    let r = recipe(vec![IngredientConstraint::TokenMint { mint, amount: 5 }], None);
    let mut fragment = vec![2u8];
    fragment.extend_from_slice(&mint);
    fragment.extend_from_slice(&5u64.to_le_bytes());
    let args = ForgeAssetArgs {
        input_hash: digest_of(&[fragment]),
    };
    let poor = item([10u8; 32], token_program(), false, token_record(mint, FORGER, 3));
    assert_eq!(
        forge_asset(&config, &r, &RECIPE_KEY, &ledger, &FORGER, &args, &[poor], 0).err(),
        Some(ForgeError::InsufficientTokenBalance)
    );
    let rich = item([10u8; 32], token_program(), false, token_record(mint, FORGER, 5));
    assert!(forge_asset(&config, &r, &RECIPE_KEY, &ledger, &FORGER, &args, &[rich], 0).is_ok());
}

#[test]
fn recipe_without_creators_gives_no_creator_list() {
    let config = config();
    let ledger = UsageLedger::new();
    let mut r = recipe(vec![], None);
    r.creators = vec![];
    let args = ForgeAssetArgs {
        input_hash: compute_commitment(&vec![]),
    };
    let request = forge_asset(&config, &r, &RECIPE_KEY, &ledger, &FORGER, &args, &[], 0).unwrap();
    assert!(request.creators.is_none());
}

#[test]
fn allowlist_equal_sibling() {
    let leaf = [6u8; 32];
    let root = hashv(&[&leaf, &leaf]).to_bytes();
    assert_eq!(merkle_parent_of(&leaf, &leaf), root);
    let mut expected = vec![4u8];
    expected.extend_from_slice(&root);
    assert_eq!(verify_allowlist(&root, &[leaf_item(leaf), leaf_item(leaf)]), Ok(expected));
}

#[test]
fn token_lookup_uses_first_token_record() {
    let mint = [4u8; 32];
    let first = item([10u8; 32], token_program(), false, token_record(mint, FORGER, 1));
    let second = item([11u8; 32], token_program(), false, token_record(mint, FORGER, 50));
    assert_eq!(
        verify_token_mint(&FORGER, &mint, 5, &[first.clone(), second.clone()]),
        Err(ForgeError::InsufficientTokenBalance)
    );
    assert!(verify_token_mint(&FORGER, &mint, 5, &[second, first]).is_ok());
}
