use anchor_lang::prelude::Pubkey;
use scenic_review::address::Key;
use scenic_review::coupon::{
    buy_coupon, create_coupon, create_default_coupons, get_default_coupon_templates,
    get_user_coupons, redeem_coupon, update_coupon_template, BuyCouponContext, CouponAccount,
    RedeemCouponContext,
};
use scenic_review::error::{InstructionError, ScenicReviewError};
use scenic_review::registry::{initialize_all, InitializeContext};
use scenic_review::state::{CouponTemplate, TxType, UserCoupon};
use scenic_review::user::{create_user_account, fix_user_reward_data, set_oracle, upgrade_user_level, UpgradeContext};
use std::str::FromStr;

fn key(b: u8) -> Key {
    [b; 32]
}

fn program() -> Pubkey {
    Pubkey::from_str("2QWH1NEeJyo8RB4hGymgsj9jwKNCjumKr46yim7bhk9x").unwrap()
}

fn upgrade_ctx(balance: u64) -> UpgradeContext {
    UpgradeContext { user: key(10), user_account_key: key(11), user_token_balance: balance, now: 500 }
}

#[test]
fn new_user_starts_at_level_one() {
    let u = create_user_account(key(10), 123);
    assert_eq!(u.user_wallet, key(10));
    assert_eq!(u.level, 1);
    assert_eq!(u.reward_per_review, 5_000_000_000);
    assert_eq!(u.total_reviews, 0);
    assert_eq!(u.accepted_reviews, 0);
    assert_eq!(u.created_at, 123);
    assert!(u.coupons.is_empty());
}

#[test]
fn upgrade_costs_twenty_thirty_forty() {
    let mut u = create_user_account(key(10), 0);
    let out = upgrade_user_level(&mut u, 2, &upgrade_ctx(u64::MAX)).unwrap();
    assert_eq!(out.cost, 20_000_000_000);
    assert_eq!(u.level, 2);
    assert_eq!(u.reward_per_review, 10_000_000_000);
    assert_eq!(out.tx_record.tx_name, "1_up_2_consume");
    assert_eq!(out.tx_record.related_id, "level_up_1_2");
    assert_eq!(out.tx_record.tx_type, TxType::Expense);
    assert_eq!(out.tx_record.amount, 20_000_000_000);
    assert_eq!(out.tx_record.user_pda, key(11));
    assert_eq!(out.tx_record.timestamp, 500);
    assert_eq!(out.tx_record.tx_hash, Pubkey::new_from_array(key(10)).to_string());
    assert_eq!(out.event.previous_level, 1);
    assert_eq!(out.event.new_level, 2);
    assert_eq!(out.event.tokens_spent, 20_000_000_000);
    let out = upgrade_user_level(&mut u, 3, &upgrade_ctx(u64::MAX)).unwrap();
    assert_eq!(out.cost, 30_000_000_000);
    assert_eq!(u.reward_per_review, 15_000_000_000);
    let mut v = create_user_account(key(10), 0);
    let out = upgrade_user_level(&mut v, 3, &upgrade_ctx(40_000_000_000)).unwrap();
    assert_eq!(out.cost, 40_000_000_000);
    assert_eq!(v.level, 3);
}

#[test]
fn upgrade_refusals() {
    let mut u = create_user_account(key(10), 0);
    for bad in [0u8, 1, 4, 255] {
        assert_eq!(upgrade_user_level(&mut u, bad, &upgrade_ctx(u64::MAX)).err(), Some(ScenicReviewError::InvalidUpgradePath));
    }
    let r = upgrade_user_level(&mut u, 2, &upgrade_ctx(19_999_999_999));
    assert_eq!(r.err(), Some(ScenicReviewError::InsufficientFundsForUpgrade));
    assert_eq!(u.level, 1);
    u.level = 3;
    assert_eq!(upgrade_user_level(&mut u, 2, &upgrade_ctx(u64::MAX)).err(), Some(ScenicReviewError::InvalidUpgradePath));
}

#[test]
fn fix_sets_reward_of_level() {
    let mut u = create_user_account(key(10), 0);
    for (level, reward) in [(1u8, 5_000_000_000u64), (2, 10_000_000_000), (3, 15_000_000_000), (7, 5_000_000_000)] {
        u.level = level;
        u.reward_per_review = 1;
        fix_user_reward_data(&mut u);
        assert_eq!(u.reward_per_review, reward);
    }
}

#[test]
fn set_oracle_changes_only_the_oracle() {
    let ctx = InitializeContext {
        admin: key(1),
        token_mint: key(2),
        token_mint_decimals: 9,
        treasury: key(3),
        vault_authority: key(4),
        config_bump: 5,
        vault_bump: 6,
        registry_bump: 7,
    };
    let (mut config, _) = initialize_all(&ctx, key(2)).unwrap();
    set_oracle(&mut config, key(9));
    assert_eq!(config.oracle, key(9));
    assert_eq!(config.admin, key(1));
    assert_eq!(config.vault_bump, 6);
}

#[test]
fn default_coupons_are_created_once() {
    let ctx = InitializeContext {
        admin: key(1),
        token_mint: key(2),
        token_mint_decimals: 9,
        treasury: key(3),
        vault_authority: key(4),
        config_bump: 5,
        vault_bump: 6,
        registry_bump: 7,
    };
    let (mut config, _) = initialize_all(&ctx, key(2)).unwrap();
    let out = create_default_coupons(&mut config, key(1), 1000).unwrap();
    assert_eq!(out.templates.len(), 4);
    let t = &out.templates[0];
    assert_eq!(t.coupon_id, "COUPON_001");
    assert_eq!(t.name, "黄山门票8折券");
    assert_eq!(t.token_price, 10_000_000_000);
    assert_eq!(t.total_supply, 100);
    assert_eq!(t.remaining, 100);
    assert_eq!(t.expire_date, 1000 + 30 * 86400);
    assert_eq!(t.valid_duration, 30 * 86400);
    assert_eq!(out.templates[1].total_supply, 50);
    assert_eq!(out.templates[2].total_supply, 200);
    assert_eq!(out.templates[3].token_price, 20_000_000_000);
    assert_eq!(out.templates[3].total_supply, 80);
    assert_eq!(out.templates[3].description, "故宫文创产品满100减20");
    assert_eq!(out.created[2].coupon_id, "COUPON_003");
    assert_eq!(out.summary.count, 4);
    assert!(config.default_coupons_created);
    assert_eq!(create_default_coupons(&mut config, key(1), 2000).err(), Some(ScenicReviewError::DefaultCouponsAlreadyCreated));
    assert_eq!(create_default_coupons(&mut config, key(9), 2000).err(), Some(ScenicReviewError::NotAdmin));
}

fn template(id: &str, remaining: u32, expire: i64) -> CouponTemplate {
    let (mut t, ev) = create_coupon(key(1), id.to_string(), "Boat ride".to_string(), "Half price".to_string(), 10, 3, expire, 3600, 50);
    assert_eq!(ev.coupon_id, id);
    assert_eq!(ev.timestamp, 50);
    t.remaining = remaining;
    t
}

fn pda(seeds: &[&[u8]]) -> Key {
    Pubkey::find_program_address(seeds, &program()).0.to_bytes()
}

fn buy_ctx(id: &str, purchase_id: u64, now: i64) -> BuyCouponContext {
    let ua = key(11);
    BuyCouponContext {
        user: key(10),
        user_account_key: ua,
        template_key: pda(&[b"coupon_template", id.as_bytes()]),
        user_coupon_key: pda(&[b"user_coupon", &ua, id.as_bytes(), &purchase_id.to_be_bytes()]),
        tx_record_key: pda(&[b"tx_record", &ua, id.as_bytes(), &purchase_id.to_be_bytes()]),
        program_id: program().to_bytes(),
        now,
    }
}

#[test]
fn buying_takes_one_from_the_supply() {
    let mut t = template("BOAT", 3, 10_000);
    let mut u = create_user_account(key(10), 0);
    let ctx = buy_ctx("BOAT", 7, 100);
    let (uc, tx) = buy_coupon(&mut t, &mut u, "BOAT".to_string(), 7, 10, &ctx).unwrap();
    assert_eq!(t.remaining, 2);
    assert_eq!(uc.coupon_id, "BOAT");
    assert_eq!(uc.user_pda, key(11));
    assert_eq!(uc.purchase_id, 7);
    assert!(!uc.is_used);
    assert_eq!(uc.obtain_time, 100);
    assert_eq!(uc.expire_time, 3700);
    assert_eq!(uc.redeem_time, 0);
    assert_eq!(tx.tx_type, TxType::Expense);
    assert_eq!(tx.amount, 10);
    assert_eq!(tx.tx_name, "buy_coupon_Boat ride");
    assert_eq!(tx.related_id, format!("coupon_BOAT_user_{}_pid_7", Pubkey::new_from_array(key(11))));
    assert_eq!(tx.tx_hash, Pubkey::new_from_array(key(10)).to_string());
    assert_eq!(u.coupons, vec![ctx.user_coupon_key]);
    // The same coupon address is listed once.
    let mut t2 = template("BOAT", 3, 10_000);
    buy_coupon(&mut t2, &mut u, "BOAT".to_string(), 7, 10, &ctx).unwrap();
    assert_eq!(u.coupons.len(), 1);
}

#[test]
fn buying_refusals() {
    let mut u = create_user_account(key(10), 0);
    let mut t = template("BOAT", 3, 10_000);
    let r = buy_coupon(&mut t, &mut u, "SHIP".to_string(), 7, 10, &buy_ctx("SHIP", 7, 100));
    assert_eq!(r.err(), Some(InstructionError::Scenic(ScenicReviewError::InvalidCouponId)));
    let r = buy_coupon(&mut t, &mut u, "BOAT".to_string(), 7, 10, &buy_ctx("BOAT", 7, 10_000));
    assert_eq!(r.err(), Some(InstructionError::Scenic(ScenicReviewError::CouponExpired)));
    let mut empty = template("BOAT", 0, 10_000);
    let r = buy_coupon(&mut empty, &mut u, "BOAT".to_string(), 7, 10, &buy_ctx("BOAT", 7, 100));
    assert_eq!(r.err(), Some(InstructionError::Scenic(ScenicReviewError::CouponSoldOut)));
    let mut wrong = buy_ctx("BOAT", 7, 100);
    wrong.template_key = key(77);
    let r = buy_coupon(&mut t, &mut u, "BOAT".to_string(), 7, 10, &wrong);
    assert_eq!(r.err(), Some(InstructionError::Scenic(ScenicReviewError::InvalidCouponId)));
    let mut wrong = buy_ctx("BOAT", 7, 100);
    wrong.user_coupon_key = key(77);
    let r = buy_coupon(&mut t, &mut u, "BOAT".to_string(), 7, 10, &wrong);
    assert_eq!(r.err(), Some(InstructionError::Scenic(ScenicReviewError::InvalidCouponId)));
    let mut wrong = buy_ctx("BOAT", 7, 100);
    wrong.tx_record_key = key(77);
    let r = buy_coupon(&mut t, &mut u, "BOAT".to_string(), 7, 10, &wrong);
    assert_eq!(r.err(), Some(InstructionError::Scenic(ScenicReviewError::BumpNotFound)));
    assert_eq!(t.remaining, 3);
    assert!(u.coupons.is_empty());
}

#[test]
fn long_template_name_is_refused_in_the_record() {
    let mut u = create_user_account(key(10), 0);
    let mut t = template("BOAT", 3, 10_000);
    t.name = "n".repeat(90);
    let r = buy_coupon(&mut t, &mut u, "BOAT".to_string(), 7, 10, &buy_ctx("BOAT", 7, 100));
    assert_eq!(r.err(), Some(InstructionError::Scenic(ScenicReviewError::ReviewContentTooLong)));
    t.name = "n".repeat(89);
    assert!(buy_coupon(&mut t, &mut u, "BOAT".to_string(), 7, 10, &buy_ctx("BOAT", 7, 100)).is_ok());
}

#[test]
fn coupon_id_too_long_for_a_seed_has_no_address() {
    let mut u = create_user_account(key(10), 0);
    let id = "C".repeat(33);
    let mut t = template(&id, 3, 10_000);
    let ctx = BuyCouponContext {
        user: key(10),
        user_account_key: key(11),
        template_key: key(1),
        user_coupon_key: key(2),
        tx_record_key: key(3),
        program_id: program().to_bytes(),
        now: 100,
    };
    assert_eq!(buy_coupon(&mut t, &mut u, id, 7, 10, &ctx).err(), Some(InstructionError::NoProgramAddress));
}

fn bought(expire_time: i64) -> UserCoupon {
    UserCoupon {
        coupon_id: "BOAT".to_string(),
        user_pda: key(11),
        purchase_id: 7,
        is_used: false,
        obtain_time: 100,
        expire_time,
        redeem_time: 0,
    }
}

fn redeem_ctx(now: i64) -> RedeemCouponContext {
    RedeemCouponContext { user: key(10), nft_mint: key(30), program_id: program().to_bytes(), now }
}

#[test]
fn redeeming_marks_used_and_names_the_nft() {
    let t = template("BOAT", 3, 10_000);
    let mut c = bought(3700);
    let out = redeem_coupon(&mut c, &t, "BOAT".to_string(), 7, &redeem_ctx(3700)).unwrap();
    assert!(c.is_used);
    assert_eq!(c.redeem_time, 3700);
    assert_eq!(out.metadata.name, "Boat ride");
    assert_eq!(out.metadata.symbol, "SCENIC");
    assert!(out.metadata.uri.starts_with("https://coffee-official-centipede-389.mypinata.cloud/ipfs/"));
    let (_, bump) = Pubkey::find_program_address(&[b"nft_authority_seed"], &program());
    assert_eq!(out.nft_authority_bump, bump);
    assert_eq!(out.event.coupon_id, "BOAT");
    assert_eq!(out.event.nft_mint, key(30));
    assert_eq!(out.event.user, key(10));
    let again = redeem_coupon(&mut c, &t, "BOAT".to_string(), 7, &redeem_ctx(3700));
    assert_eq!(again.err(), Some(InstructionError::Scenic(ScenicReviewError::CouponAlreadyUsed)));
}

#[test]
fn redeeming_refusals() {
    let t = template("BOAT", 3, 10_000);
    let mut c = bought(3700);
    let r = redeem_coupon(&mut c, &t, "SHIP".to_string(), 7, &redeem_ctx(100));
    assert_eq!(r.err(), Some(InstructionError::Scenic(ScenicReviewError::InvalidCouponId)));
    let r = redeem_coupon(&mut c, &t, "BOAT".to_string(), 8, &redeem_ctx(100));
    assert_eq!(r.err(), Some(InstructionError::Scenic(ScenicReviewError::InvalidCouponId)));
    let r = redeem_coupon(&mut c, &t, "BOAT".to_string(), 7, &redeem_ctx(3701));
    assert_eq!(r.err(), Some(InstructionError::Scenic(ScenicReviewError::CouponExpired)));
    assert!(!c.is_used);
}

#[test]
fn template_update_refills_supply() {
    let mut t = template("BOAT", 1, 10_000);
    update_coupon_template(&mut t, 60, 20_000, 9);
    assert_eq!(t.valid_duration, 60);
    assert_eq!(t.expire_date, 20_000);
    assert_eq!(t.total_supply, 9);
    assert_eq!(t.remaining, 9);
}

#[test]
fn template_query_marks_expiry() {
    let ts = vec![template("A", 3, 100), template("B", 2, 101)];
    let infos = get_default_coupon_templates(&ts, 100);
    assert!(infos[0].is_expired);
    assert!(!infos[1].is_expired);
    assert_eq!(infos[1].coupon_id, "B");
    assert_eq!(infos[1].remaining, 2);
    assert_eq!(infos[1].valid_duration, 3600);
}

#[test]
fn user_coupon_query() {
    let p = program().to_bytes();
    let mut u = create_user_account(key(10), 0);
    u.coupons = vec![key(40), key(41), key(42)];
    let accounts = vec![
        CouponAccount { key: key(42), owner: p, coupon: Some(bought(9)) },
        CouponAccount { key: key(40), owner: p, coupon: Some(bought(8)) },
        CouponAccount { key: key(41), owner: key(3), coupon: None },
    ];
    let infos = get_user_coupons(&u, &accounts, &p).unwrap();
    assert_eq!(infos.len(), 2);
    assert_eq!(infos[0].expire_time, 8);
    assert_eq!(infos[1].expire_time, 9);
    let missing = vec![CouponAccount { key: key(40), owner: p, coupon: Some(bought(8)) }];
    assert_eq!(get_user_coupons(&u, &missing, &p).err(), Some(InstructionError::Scenic(ScenicReviewError::CouponNotFound)));
    let undecodable = vec![
        CouponAccount { key: key(40), owner: p, coupon: None },
        CouponAccount { key: key(41), owner: p, coupon: Some(bought(8)) },
    ];
    assert_eq!(get_user_coupons(&u, &undecodable, &p).err(), Some(InstructionError::AccountDidNotDeserialize));
}

#[test]
fn base58_text_of_a_key_is_at_most_44_ascii_characters() {
    for k in [[0u8; 32], [255u8; 32], key(7)] {
        let text = Pubkey::new_from_array(k).to_string();
        assert!(text.len() <= 44);
        assert!(text.is_ascii());
    }
    assert_eq!(Pubkey::new_from_array([255u8; 32]).to_string().len(), 44);
}
