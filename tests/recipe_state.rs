use forge::constants::{MAX_INGREDIENTS, MAX_RECIPE_SLUG_LENGTH};
use forge::errors::ForgeError;
use forge::ingredients::{CreatorShare, IngredientConstraint, OutputKind};
use forge::recipe::Recipe;
use solana_program::pubkey::Pubkey;

fn unique_key() -> [u8; 32] {
    Pubkey::new_unique().to_bytes()
}

fn sample_creators() -> Vec<CreatorShare> {
    vec![CreatorShare {
        address: unique_key(),
        verified: false,
        share: 100,
    }]
}

#[test]
fn test_forge_program_compiles() {
    assert!(true);
}

#[test]
fn recipe_space_scales_with_metadata() {
    let creators = sample_creators();
    let ingredients = vec![
        IngredientConstraint::Signer {
            authority: unique_key(),
        },
        IngredientConstraint::CustomSeeds {
            seeds: vec![1, 2, 3],
        },
    ];
    let size = Recipe::space(4, &OutputKind::OneOfOne, 32, &creators, &ingredients);
    assert!(size > 0);
}

#[test]
fn validate_lengths_enforces_limits() {
    let creators = sample_creators();
    assert!(Recipe::validate_lengths("abcd", "uri", &creators).is_ok());
    let long_slug = "s".repeat(MAX_RECIPE_SLUG_LENGTH + 1);
    assert!(Recipe::validate_lengths(&long_slug, "uri", &creators).is_err());
}

#[test]
fn validate_ingredients_enforces_limit() {
    let ingredients = vec![IngredientConstraint::Signer {
        authority: unique_key(),
    }];
    assert!(Recipe::validate_ingredients(&ingredients).is_ok());

    let too_many = vec![
        IngredientConstraint::CustomSeeds {
            seeds: vec![0u8; 1],
        };
        MAX_INGREDIENTS + 1
    ];
    assert!(Recipe::validate_ingredients(&too_many).is_err());
}

#[test]
fn recipe_space_exact_value() {
    let creators = sample_creators();
    let ingredients = vec![
        IngredientConstraint::Signer {
            authority: unique_key(),
        },
        IngredientConstraint::CustomSeeds {
            seeds: vec![1, 2, 3],
        },
    ];
    assert_eq!(
        Recipe::space(4, &OutputKind::OneOfOne, 32, &creators, &ingredients),
        271
    );
    let edition = OutputKind::Edition {
        parent_mint: unique_key(),
    };
    assert_eq!(Recipe::space(4, &edition, 32, &creators, &ingredients), 303);
    assert_eq!(Recipe::space(0, &OutputKind::SemiFungible, 0, &[], &[]), 160);
}

#[test]
fn constraint_and_output_sizes() {
    assert_eq!(OutputKind::OneOfOne.size(), 1);
    assert_eq!(OutputKind::SemiFungible.size(), 1);
    assert_eq!(
        OutputKind::Edition {
            parent_mint: [0u8; 32]
        }
        .size(),
        33
    );
    assert_eq!(
        IngredientConstraint::TokenMint {
            mint: [0u8; 32],
            amount: 1
        }
        .size(),
        41
    );
    assert_eq!(
        IngredientConstraint::CustomSeeds { seeds: vec![9; 10] }.size(),
        15
    );
    assert_eq!(
        IngredientConstraint::Allowlist {
            merkle_root: [0u8; 32]
        }
        .size(),
        33
    );
}

#[test]
fn validate_lengths_reports_each_bound() {
    let creators = sample_creators();
    let exact_slug = "s".repeat(MAX_RECIPE_SLUG_LENGTH);
    assert_eq!(Recipe::validate_lengths(&exact_slug, "uri", &creators), Ok(()));
    let long_slug = "s".repeat(MAX_RECIPE_SLUG_LENGTH + 1);
    assert_eq!(
        Recipe::validate_lengths(&long_slug, "uri", &creators),
        Err(ForgeError::SlugTooLong)
    );
    let long_uri = "u".repeat(201);
    assert_eq!(
        Recipe::validate_lengths("abcd", &long_uri, &creators),
        Err(ForgeError::MetadataUriTooLong)
    );
    let many = vec![creators[0]; 6];
    assert_eq!(
        Recipe::validate_lengths("abcd", "uri", &many),
        Err(ForgeError::TooManyCreators)
    );
    let five = vec![creators[0]; 5];
    assert_eq!(Recipe::validate_lengths("abcd", "uri", &five), Ok(()));
    // Multi-byte characters count by their encoded bytes.
    let wide_slug = "é".repeat(17);
    assert_eq!(
        Recipe::validate_lengths(&wide_slug, "uri", &creators),
        Err(ForgeError::SlugTooLong)
    );
}

#[test]
fn validate_ingredients_accepts_the_bound() {
    let ten = vec![IngredientConstraint::CustomSeeds { seeds: vec![] }; MAX_INGREDIENTS];
    assert_eq!(Recipe::validate_ingredients(&ten), Ok(()));
    let eleven = vec![IngredientConstraint::CustomSeeds { seeds: vec![] }; MAX_INGREDIENTS + 1];
    assert_eq!(
        Recipe::validate_ingredients(&eleven),
        Err(ForgeError::TooManyIngredients)
    );
}

#[test]
fn error_messages() {
    assert_eq!(
        ForgeError::DuplicateRecipeUse.message(),
        "Recipe input has already been consumed."
    );
    assert_eq!(
        ForgeError::InvalidRoyaltyBasisPoints.message(),
        "Royalty basis points must be between 0 and 10_000."
    );
}

#[test]
fn metadata_uri_at_the_bound() {
    let creators = sample_creators();
    assert_eq!(Recipe::validate_lengths("abcd", &"u".repeat(200), &creators), Ok(()));
    assert_eq!(Recipe::validate_lengths("", "", &[]), Ok(()));
}
