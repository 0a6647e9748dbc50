use scenic_review::address::Key;
use scenic_review::error::ScenicReviewError;
use scenic_review::registry::{
    create_default_scenic_spots, create_scenic_spot, get_default_scenic_spots, initialize_all,
    sync_scenic_review_count, update_scenic_rating, InitializeContext,
};
use scenic_review::state::{Config, ScenicIdRegistry, ScenicSpot};

fn key(b: u8) -> Key {
    [b; 32]
}

fn fresh() -> (Config, ScenicIdRegistry) {
    let ctx = InitializeContext {
        admin: key(1),
        token_mint: key(2),
        token_mint_decimals: 9,
        treasury: key(3),
        vault_authority: key(4),
        config_bump: 250,
        vault_bump: 251,
        registry_bump: 252,
    };
    initialize_all(&ctx, key(2)).unwrap()
}

fn add(reg: &mut ScenicIdRegistry, name: &str) -> Result<ScenicSpot, ScenicReviewError> {
    create_scenic_spot(
        reg,
        name.to_string(),
        "Somewhere".to_string(),
        4.5f64.to_bits(),
        "A place".to_string(),
        "tag".to_string(),
        key(1),
        1_700_000_000,
    )
}

#[test]
fn initialize_sets_config_and_empty_registry() {
    let (config, reg) = fresh();
    assert_eq!(config.admin, key(1));
    assert_eq!(config.token_mint, key(2));
    assert_eq!(config.treasury, key(3));
    assert_eq!(config.oracle, [0u8; 32]);
    assert_eq!(config.vault_authority, key(4));
    assert_eq!(config.bump, 250);
    assert_eq!(config.vault_bump, 251);
    assert!(!config.default_spots_created);
    assert!(!config.default_coupons_created);
    assert_eq!(reg.bump, 252);
    assert_eq!(reg.next_id, 1);
    assert_eq!(reg.total_count, 0);
    assert!(reg.name_to_id.is_empty() && reg.id_to_name.is_empty() && reg.extra_scenic_data.is_empty());
}

#[test]
fn initialize_refuses_another_mint() {
    let ctx = InitializeContext {
        admin: key(1),
        token_mint: key(2),
        token_mint_decimals: 9,
        treasury: key(3),
        vault_authority: key(4),
        config_bump: 0,
        vault_bump: 0,
        registry_bump: 0,
    };
    assert_eq!(initialize_all(&ctx, key(9)).err(), Some(ScenicReviewError::InvalidTokenMint));
}

#[test]
fn create_spot_registers_under_next_id() {
    let (_, mut reg) = fresh();
    let spot = add(&mut reg, "West Lake").unwrap();
    assert_eq!(spot.id, 1);
    assert_eq!(spot.name, "West Lake");
    assert_eq!(spot.base_rating_bits, 4.5f64.to_bits());
    assert!(spot.is_active);
    assert_eq!(spot.created_at, 1_700_000_000);
    assert_eq!(reg.next_id, 2);
    assert_eq!(reg.total_count, 1);
    assert_eq!(reg.name_to_id[0].name, "West Lake");
    assert_eq!(reg.id_to_name[0].id, 1);
    assert_eq!(reg.extra_scenic_data[0].location, "Somewhere");
    assert_eq!(reg.scenic_accepted_reviews[0].count, 0);
    let spot2 = add(&mut reg, "Great Wall").unwrap();
    assert_eq!(spot2.id, 2);
}

#[test]
fn create_spot_refusals() {
    let (_, mut reg) = fresh();
    add(&mut reg, "West Lake").unwrap();
    assert_eq!(add(&mut reg, "West Lake").err(), Some(ScenicReviewError::ScenicSpotNameDuplicate));
    let long = "x".repeat(51);
    assert_eq!(add(&mut reg, &long).err(), Some(ScenicReviewError::ScenicSpotNameTooLong));
    // 17 three-byte characters: 51 bytes, although only 17 characters.
    let wide = "景".repeat(17);
    assert_eq!(add(&mut reg, &wide).err(), Some(ScenicReviewError::ScenicSpotNameTooLong));
    let desc = create_scenic_spot(&mut reg, "A".into(), "L".into(), 0, "d".repeat(51), "t".into(), key(1), 0);
    assert_eq!(desc.err(), Some(ScenicReviewError::ScenicSpotDescriptionTooLong));
    let tags = create_scenic_spot(&mut reg, "A".into(), "L".into(), 0, "d".into(), "t".repeat(101), key(1), 0);
    assert_eq!(tags.err(), Some(ScenicReviewError::ScenicSpotTagsTooLong));
    assert_eq!(reg.total_count, 1);
    assert_eq!(reg.next_id, 2);
}

#[test]
fn create_spot_limit_is_ten() {
    let (_, mut reg) = fresh();
    for i in 0..10 {
        add(&mut reg, &format!("Spot {}", i)).unwrap();
    }
    assert_eq!(add(&mut reg, "Eleventh").err(), Some(ScenicReviewError::ScenicSpotLimitReached));
    assert_eq!(reg.total_count, 10);
}

#[test]
fn default_spots_are_created_once() {
    let (mut config, mut reg) = fresh();
    let out = create_default_scenic_spots(&mut config, &mut reg, key(1), 77).unwrap();
    assert_eq!(out.spots.len(), 8);
    assert_eq!(out.event.count, 8);
    assert_eq!(out.event.timestamp, 77);
    assert_eq!(out.spots[0].name, "Eiffel Tower");
    assert_eq!(out.spots[7].name, "Giza Pyramids");
    assert_eq!(out.spots[7].id, 8);
    assert_eq!(out.spots[1].location, "Anhui, China");
    assert!(out.spots.iter().all(|s| s.is_active && s.base_rating_bits == 0.0f64.to_bits()));
    assert_eq!(reg.next_id, 9);
    assert_eq!(reg.total_count, 8);
    assert_eq!(reg.name_to_id.len(), 8);
    assert!(reg.scenic_accepted_reviews.is_empty());
    assert!(config.default_spots_created);
    let again = create_default_scenic_spots(&mut config, &mut reg, key(1), 78);
    assert_eq!(again.err(), Some(ScenicReviewError::DefaultSpotsAlreadyCreated));
    assert_eq!(reg.total_count, 8);
}

#[test]
fn default_spots_skip_registered_names() {
    let (mut config, mut reg) = fresh();
    add(&mut reg, "Huangshan").unwrap();
    let out = create_default_scenic_spots(&mut config, &mut reg, key(1), 5).unwrap();
    assert_eq!(out.event.count, 7);
    assert_eq!(out.spots[1].id, 0);
    assert!(!out.spots[1].is_active);
    assert_eq!(out.spots[1].name, "");
    assert_eq!(out.spots[2].name, "Taj Mahal");
    assert_eq!(reg.total_count, 8);
    assert_eq!(reg.next_id, 9);
    let names: Vec<&str> = reg.name_to_id.iter().map(|e| e.name.as_str()).collect();
    assert_eq!(names.iter().filter(|n| **n == "Huangshan").count(), 1);
}

#[test]
fn default_spots_can_repeat_an_id_taken_before() {
    let (mut config, mut reg) = fresh();
    add(&mut reg, "West Lake").unwrap();
    create_default_scenic_spots(&mut config, &mut reg, key(1), 5).unwrap();
    let ones = reg.id_to_name.iter().filter(|e| e.id == 1).count();
    assert_eq!(ones, 2);
    assert_eq!(reg.next_id, 9);
}

#[test]
fn spot_query_names_from_registry() {
    let (mut config, mut reg) = fresh();
    create_default_scenic_spots(&mut config, &mut reg, key(1), 5).unwrap();
    let spots = get_default_scenic_spots(&reg);
    assert_eq!(spots.len(), 8);
    assert_eq!(spots[3].id, 4);
    assert_eq!(spots[3].name, "Sydney Opera House");
    assert_eq!(spots[3].tags, "Shell-Shaped,Coastal Scenery");
    reg.id_to_name.remove(3);
    let spots = get_default_scenic_spots(&reg);
    assert_eq!(spots[3].name, "");
}

#[test]
fn rating_update_reaches_spot_and_registry() {
    let (_, mut reg) = fresh();
    let mut spot = add(&mut reg, "West Lake").unwrap();
    update_scenic_rating(&mut spot, &mut reg, 1, 3.5f64.to_bits(), true).unwrap();
    assert_eq!(spot.base_rating_bits, 3.5f64.to_bits());
    assert_eq!(reg.extra_scenic_data[0].rating_bits, 3.5f64.to_bits());
    let r = update_scenic_rating(&mut spot, &mut reg, 42, 1.0f64.to_bits(), true);
    assert_eq!(r.err(), Some(ScenicReviewError::ScenicSpotNotFound));
    assert_eq!(spot.base_rating_bits, 3.5f64.to_bits());
}

#[test]
fn rating_update_bounds_are_one_and_five() {
    let (_, mut reg) = fresh();
    let mut spot = add(&mut reg, "West Lake").unwrap();
    for ok in [1.0f64, 2.5, 5.0] {
        assert!(update_scenic_rating(&mut spot, &mut reg, 1, ok.to_bits(), true).is_ok());
    }
    for bad in [0.0f64, 0.9, 5.1, -1.0, -0.0, f64::NAN, f64::INFINITY] {
        let r = update_scenic_rating(&mut spot, &mut reg, 1, bad.to_bits(), true);
        assert_eq!(r.err(), Some(ScenicReviewError::InvalidRating));
    }
    let r = update_scenic_rating(&mut spot, &mut reg, 1, 3.25f64.to_bits(), false);
    assert_eq!(r.err(), Some(ScenicReviewError::InvalidRatingPrecision));
    let r = update_scenic_rating(&mut spot, &mut reg, 42, 9.0f64.to_bits(), true);
    assert_eq!(r.err(), Some(ScenicReviewError::InvalidRating));
    assert_eq!(spot.base_rating_bits, 5.0f64.to_bits());
}

#[test]
fn sync_count_sets_and_announces_batches() {
    let (config, mut reg) = fresh();
    add(&mut reg, "West Lake").unwrap();
    assert!(sync_scenic_review_count(&config, &mut reg, key(1), 1, 19, 10).unwrap().is_none());
    assert_eq!(reg.scenic_accepted_reviews[0].count, 19);
    let b = sync_scenic_review_count(&config, &mut reg, key(1), 1, 40, 11).unwrap().unwrap();
    assert_eq!(b.total_reviews, 40);
    assert_eq!(b.batch_size, 20);
    assert_eq!(b.scenic_pda, [0u8; 32]);
    assert_eq!(b.trigger_time, 11);
    assert!(sync_scenic_review_count(&config, &mut reg, key(1), 7, 0, 12).unwrap().is_none());
    assert_eq!(reg.scenic_accepted_reviews.len(), 2);
    assert_eq!(reg.scenic_accepted_reviews[1].scenic_id, 7);
}

#[test]
fn only_the_admin_manages_the_registry() {
    let (mut config, mut reg) = fresh();
    add(&mut reg, "West Lake").unwrap();
    let before = reg.scenic_accepted_reviews.len();
    let r = sync_scenic_review_count(&config, &mut reg, key(9), 1, 20, 10);
    assert_eq!(r.err(), Some(ScenicReviewError::NotAdmin));
    assert_eq!(reg.scenic_accepted_reviews.len(), before);
    let r = create_default_scenic_spots(&mut config, &mut reg, key(9), 0);
    assert_eq!(r.err(), Some(ScenicReviewError::NotAdmin));
    assert!(!config.default_spots_created);
    assert_eq!(reg.total_count, 1);
}

#[test]
fn initialize_refuses_a_mint_with_other_decimals() {
    let ctx = InitializeContext {
        admin: key(1),
        token_mint: key(2),
        token_mint_decimals: 6,
        treasury: key(3),
        vault_authority: key(4),
        config_bump: 0,
        vault_bump: 0,
        registry_bump: 0,
    };
    assert_eq!(initialize_all(&ctx, key(2)).err(), Some(ScenicReviewError::InvalidTokenMint));
}
