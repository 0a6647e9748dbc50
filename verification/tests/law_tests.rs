use scenic_review::access::{
    check_admin, check_ai_summary_author, check_config_mint, check_mint_decimals, check_oracle,
    check_review_pending, check_user_registered, check_user_wallet,
};
use scenic_review::address::Key;
use scenic_review::error::ScenicReviewError;
use scenic_review::registry::{
    create_default_scenic_spots, create_scenic_spot, initialize_all, InitializeContext,
};
use scenic_review::review::{oracle_confirm_review, submit_review, ConfirmReviewContext, SubmitReviewContext};
use scenic_review::state::{Config, ReviewStatus, ScenicIdRegistry};
use scenic_review::user::create_user_account;

fn key(b: u8) -> Key {
    [b; 32]
}

fn oracle_config() -> Config {
    let ctx = InitializeContext {
        admin: key(1),
        token_mint: key(2),
        token_mint_decimals: 9,
        treasury: key(3),
        vault_authority: key(4),
        config_bump: 0,
        vault_bump: 0,
        registry_bump: 0,
    };
    let (mut config, _) = initialize_all(&ctx, key(2)).unwrap();
    config.oracle = key(20);
    config
}

fn fresh() -> (Config, ScenicIdRegistry) {
    let ctx = InitializeContext {
        admin: key(1),
        token_mint: key(2),
        token_mint_decimals: 9,
        treasury: key(3),
        vault_authority: key(4),
        config_bump: 0,
        vault_bump: 0,
        registry_bump: 0,
    };
    initialize_all(&ctx, key(2)).unwrap()
}

fn well_formed(reg: &ScenicIdRegistry) -> bool {
    let n = reg.total_count as usize;
    reg.name_to_id.len() == n
        && reg.id_to_name.len() == n
        && reg.extra_scenic_data.len() == n
        && (0..n).all(|i| {
            reg.name_to_id[i].id == reg.id_to_name[i].id
                && reg.name_to_id[i].name == reg.id_to_name[i].name
                && reg.extra_scenic_data[i].id == reg.name_to_id[i].id
        })
        && (0..n).all(|i| (i + 1..n).all(|j| reg.name_to_id[i].name != reg.name_to_id[j].name))
}

#[test]
fn registry_stays_well_formed() {
    let (mut config, mut reg) = fresh();
    assert!(well_formed(&reg));
    create_scenic_spot(&mut reg, "Mount Fuji".into(), "L".into(), 0, "D".into(), "T".into(), key(1), 0).unwrap();
    assert!(well_formed(&reg));
    let _ = create_scenic_spot(&mut reg, "Mount Fuji".into(), "L".into(), 0, "D".into(), "T".into(), key(1), 0);
    assert!(well_formed(&reg));
    create_default_scenic_spots(&mut config, &mut reg, key(1), 0).unwrap();
    assert!(well_formed(&reg));
    assert_eq!(reg.total_count, 8);
}

#[test]
fn corrected_reward_is_not_corrected_again() {
    let (_, mut reg) = fresh();
    create_scenic_spot(&mut reg, "Huangshan".into(), "L".into(), 0, "D".into(), "T".into(), key(1), 0).unwrap();
    let mut user = create_user_account(key(10), 0);
    user.reward_per_review = 3;
    let sctx = SubmitReviewContext { user: key(10), user_account_key: key(11), review_key: key(12), now: 1 };
    let cctx = ConfirmReviewContext {
        oracle: key(20),
        user_wallet: key(10),
        token_mint: key(2),
        review_key: key(12),
        user_account_key: key(11),
        vault_bump: 0,
        treasury_balance: u64::MAX,
        user_token_account_exists: true,
        program_id: key(30),
        now: 2,
    };
    for _ in 0..2 {
        let (mut rv, _) = submit_review(&mut user, &reg, 1, 1, 3.0f32.to_bits(), String::new(), &sctx).unwrap();
        let out = oracle_confirm_review(&oracle_config(), &mut rv, &mut user, &mut reg, 1, 1, 1, &cctx).unwrap();
        assert_eq!(out.payment.unwrap().amount, 3_000_000_000);
        assert_eq!(rv.status, ReviewStatus::Accepted);
    }
    assert_eq!(user.reward_per_review, 3_000_000_000);
    assert_eq!(user.accepted_reviews, 2);
    assert_eq!(user.total_reviews, 2);
}

#[test]
fn access_checks() {
    let (mut config, _) = fresh();
    config.oracle = key(20);
    assert!(check_admin(&config, &key(1)).is_ok());
    assert_eq!(check_admin(&config, &key(2)), Err(ScenicReviewError::NotAdmin));
    assert!(check_oracle(&config, &key(20)).is_ok());
    assert_eq!(check_oracle(&config, &key(1)), Err(ScenicReviewError::InvalidOracle));
    assert_eq!(check_ai_summary_author(&config, &key(1)), Err(ScenicReviewError::NotAuthorizedForAiUpdate));
    assert!(check_config_mint(&config, &key(2)).is_ok());
    assert_eq!(check_config_mint(&config, &key(3)), Err(ScenicReviewError::InvalidTokenMint));
    assert!(check_mint_decimals(9).is_ok());
    assert_eq!(check_mint_decimals(6), Err(ScenicReviewError::InvalidTokenMint));
    let mut user = create_user_account(key(10), 0);
    assert!(check_user_registered(&user).is_ok());
    assert!(check_user_wallet(&user, &key(10)).is_ok());
    assert_eq!(check_user_wallet(&user, &key(11)), Err(ScenicReviewError::InvalidUser));
    user.user_wallet = [0; 32];
    assert_eq!(check_user_registered(&user), Err(ScenicReviewError::UserAccountNotFound));
}

#[test]
fn processed_review_stays_processed() {
    let (_, mut reg) = fresh();
    create_scenic_spot(&mut reg, "Huangshan".into(), "L".into(), 0, "D".into(), "T".into(), key(1), 0).unwrap();
    let mut user = create_user_account(key(10), 0);
    let sctx = SubmitReviewContext { user: key(10), user_account_key: key(11), review_key: key(12), now: 1 };
    let (mut rv, _) = submit_review(&mut user, &reg, 1, 1, 3.0f32.to_bits(), String::new(), &sctx).unwrap();
    assert!(check_review_pending(&rv).is_ok());
    let cctx = ConfirmReviewContext {
        oracle: key(20),
        user_wallet: key(10),
        token_mint: key(2),
        review_key: key(12),
        user_account_key: key(11),
        vault_bump: 0,
        treasury_balance: u64::MAX,
        user_token_account_exists: true,
        program_id: key(30),
        now: 2,
    };
    oracle_confirm_review(&oracle_config(), &mut rv, &mut user, &mut reg, 1, 1, 1, &cctx).unwrap();
    assert_eq!(check_review_pending(&rv), Err(ScenicReviewError::ReviewNotPending));
    for code in [1u8, 2] {
        let r = oracle_confirm_review(&oracle_config(), &mut rv, &mut user, &mut reg, 1, 1, code, &cctx);
        assert!(r.is_err());
    }
    assert_eq!(user.accepted_reviews, 1);
    assert_eq!(reg.scenic_accepted_reviews[0].count, 1);
}

#[test]
fn accepted_and_pending_never_exceed_submitted() {
    let (_, mut reg) = fresh();
    create_scenic_spot(&mut reg, "West Lake".into(), "L".into(), 0, "D".into(), "T".into(), key(1), 0).unwrap();
    let mut user = create_user_account(key(10), 0);
    let sctx = SubmitReviewContext { user: key(10), user_account_key: key(11), review_key: key(12), now: 1 };
    let cctx = ConfirmReviewContext {
        oracle: key(20),
        user_wallet: key(10),
        token_mint: key(2),
        review_key: key(12),
        user_account_key: key(11),
        vault_bump: 0,
        treasury_balance: u64::MAX,
        user_token_account_exists: true,
        program_id: key(30),
        now: 2,
    };
    let mut reviews = Vec::new();
    for id in 0..4u64 {
        let (rv, _) = submit_review(&mut user, &reg, 1, id, 5.0f32.to_bits(), String::new(), &sctx).unwrap();
        reviews.push(rv);
    }
    oracle_confirm_review(&oracle_config(), &mut reviews[0], &mut user, &mut reg, 1, 0, 1, &cctx).unwrap();
    oracle_confirm_review(&oracle_config(), &mut reviews[1], &mut user, &mut reg, 1, 1, 2, &cctx).unwrap();
    oracle_confirm_review(&oracle_config(), &mut reviews[2], &mut user, &mut reg, 1, 2, 1, &cctx).unwrap();
    assert!(oracle_confirm_review(&oracle_config(), &mut reviews[0], &mut user, &mut reg, 1, 0, 1, &cctx).is_err());
    let pending = reviews.iter().filter(|r| r.status == ReviewStatus::Pending).count() as u32;
    assert_eq!(user.total_reviews, 4);
    assert_eq!(user.accepted_reviews, 2);
    assert_eq!(pending, 1);
    assert!(user.accepted_reviews + pending <= user.total_reviews);
}
