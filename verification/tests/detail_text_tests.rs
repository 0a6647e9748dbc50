use anchor_lang::prelude::Pubkey;
use scenic_review::address::{contains_key, key_bytes, keys_equal, u32_be_bytes, u64_be_bytes, Key};
use scenic_review::detail::{
    get_scenic_latest_detail, inner_get_scenic_latest_detail, update_scenic_detail, AccountState,
    DetailAccount, SourceAccount, UpdateDetailContext,
};
use scenic_review::error::{InstructionError, ScenicReviewError};
use scenic_review::registry::{create_scenic_spot, initialize_all, InitializeContext};
use scenic_review::state::{
    account_exists, Config, CouponTemplate, Review, ScenicDetail, ScenicIdRegistry, ScenicReviewSummary,
    ScenicSpot, UserCoupon,
};
use scenic_review::text::format_decimal;
use std::str::FromStr;

fn key(b: u8) -> Key {
    [b; 32]
}

fn program() -> Key {
    Pubkey::from_str("2QWH1NEeJyo8RB4hGymgsj9jwKNCjumKr46yim7bhk9x").unwrap().to_bytes()
}

fn oracle_config() -> Config {
    let ctx = InitializeContext {
        admin: key(1),
        token_mint: key(2),
        token_mint_decimals: 9,
        treasury: key(3),
        vault_authority: key(4),
        config_bump: 0,
        vault_bump: 0,
        registry_bump: 0,
    };
    let (mut config, _) = initialize_all(&ctx, key(2)).unwrap();
    config.oracle = key(20);
    config
}

fn setup() -> (ScenicIdRegistry, ScenicSpot) {
    let ctx = InitializeContext {
        admin: key(1),
        token_mint: key(2),
        token_mint_decimals: 9,
        treasury: key(3),
        vault_authority: key(4),
        config_bump: 0,
        vault_bump: 0,
        registry_bump: 0,
    };
    let (_, mut reg) = initialize_all(&ctx, key(2)).unwrap();
    let spot = create_scenic_spot(&mut reg, "Huangshan".into(), "Anhui".into(), 0, "D".into(), "T".into(), key(1), 0).unwrap();
    (reg, spot)
}

fn detail_ctx() -> UpdateDetailContext {
    UpdateDetailContext { scenic_spot_key: key(50), oracle: key(20), program_id: program(), now: 900, slot: 77 }
}

#[test]
fn detail_update_keeps_twenty_sources() {
    let (mut reg, mut spot) = setup();
    let p = program();
    let mut sources: Vec<SourceAccount> = (0..25u8).map(|i| SourceAccount { key: key(100 + i), owner: p, data_len: 10 }).collect();
    sources[0].owner = key(9);
    sources[1].data_len = 0;
    let (d, ev) = update_scenic_detail(&oracle_config(), &mut spot, &mut reg, 1, 3, "ipfs://x".into(), "h".into(), 4.0f64.to_bits(), &sources, &detail_ctx()).unwrap();
    assert_eq!(d.source_review_ids.len(), 20);
    assert_eq!(d.source_review_ids[0], key(102));
    assert_eq!(d.source_review_ids[19], key(121));
    assert_eq!(d.version, 3);
    assert_eq!(d.scenic_spot_pda, key(50));
    assert_eq!(d.oracle_signature, key(20));
    assert_eq!(d.update_time, 900);
    assert_eq!(spot.base_rating_bits, 4.0f64.to_bits());
    assert_eq!(reg.extra_scenic_data[0].rating_bits, 4.0f64.to_bits());
    assert_eq!(reg.scenic_latest_detail_version.len(), 1);
    assert_eq!(reg.scenic_latest_detail_version[0].latest_version, 3);
    assert_eq!(ev.summary_length, 8);
    assert_eq!(ev.update_slot, 77);
    update_scenic_detail(&oracle_config(), &mut spot, &mut reg, 1, 4, "s".into(), "h".into(), 0, &Vec::new(), &detail_ctx()).unwrap();
    assert_eq!(reg.scenic_latest_detail_version.len(), 1);
    assert_eq!(reg.scenic_latest_detail_version[0].latest_version, 4);
}

#[test]
fn detail_update_refusals() {
    let (mut reg, mut spot) = setup();
    let r = update_scenic_detail(&oracle_config(), &mut spot, &mut reg, 2, 1, "s".into(), "h".into(), 0, &Vec::new(), &detail_ctx());
    assert_eq!(r.err(), Some(ScenicReviewError::InvalidScenicSpotId));
    let r = update_scenic_detail(&oracle_config(), &mut spot, &mut reg, 1, 1, "s".repeat(257), "h".into(), 0, &Vec::new(), &detail_ctx());
    assert_eq!(r.err(), Some(ScenicReviewError::AiSummaryTooLong));
    let mut other = oracle_config();
    other.oracle = key(21);
    let r = update_scenic_detail(&other, &mut spot, &mut reg, 2, 1, "s".repeat(257), "h".into(), 0, &Vec::new(), &detail_ctx());
    assert_eq!(r.err(), Some(ScenicReviewError::InvalidOracle));
    assert!(reg.scenic_latest_detail_version.is_empty());
}

#[test]
fn written_detail_is_read_back() {
    let (mut reg, mut spot) = setup();
    let (written, _) = update_scenic_detail(&oracle_config(), &mut spot, &mut reg, 1, 7, "summary".into(), "hash".into(), 0, &Vec::new(), &detail_ctx()).unwrap();
    let live = AccountState { lamports: 10, data_len: 100 };
    let acc = DetailAccount { key: detail_key(7), lamports: 10, data_len: 100, detail: Some(written.clone()) };
    let d = get_scenic_latest_detail(1, &live, &reg, acc, &program()).unwrap();
    assert_eq!(d.version, 7);
    assert_eq!(d.ai_summary, "summary");
    assert_eq!(d.hash, "hash");
    assert_eq!(d.scenic_spot_id, 1);
}

fn stored_detail() -> ScenicDetail {
    ScenicDetail {
        scenic_spot_id: 1,
        scenic_spot_pda: key(50),
        version: 3,
        ai_summary: "sum".into(),
        hash: "h".into(),
        update_time: 9,
        oracle_signature: key(20),
        source_review_ids: vec![key(1)],
    }
}

fn detail_key(version: u32) -> Key {
    Pubkey::find_program_address(
        &[b"scenic_detail", &1u64.to_be_bytes(), &version.to_be_bytes()],
        &Pubkey::new_from_array(program()),
    )
    .0
    .to_bytes()
}

#[test]
fn latest_detail_is_read_at_its_address() {
    let (mut reg, mut spot) = setup();
    update_scenic_detail(&oracle_config(), &mut spot, &mut reg, 1, 3, "sum".into(), "h".into(), 0, &Vec::new(), &detail_ctx()).unwrap();
    let live = AccountState { lamports: 10, data_len: 100 };
    let acc = DetailAccount { key: detail_key(3), lamports: 10, data_len: 100, detail: Some(stored_detail()) };
    let d = get_scenic_latest_detail(1, &live, &reg, acc, &program()).unwrap();
    assert_eq!(d.version, 3);
    assert_eq!(d.ai_summary, "sum");
    let stale = DetailAccount { key: detail_key(2), lamports: 10, data_len: 100, detail: Some(stored_detail()) };
    let r = inner_get_scenic_latest_detail(1, &live, &reg, stale, &program());
    assert_eq!(r.err(), Some(InstructionError::Scenic(ScenicReviewError::ScenicDetailNotFound)));
    let stale = DetailAccount { key: detail_key(2), lamports: 10, data_len: 100, detail: Some(stored_detail()) };
    let empty = get_scenic_latest_detail(1, &live, &reg, stale, &program()).unwrap();
    assert_eq!(empty.scenic_spot_id, 1);
    assert_eq!(empty.version, 0);
    assert_eq!(empty.ai_summary, "");
    assert!(empty.source_review_ids.is_empty());
    let undecodable = DetailAccount { key: detail_key(3), lamports: 10, data_len: 100, detail: None };
    let r = inner_get_scenic_latest_detail(1, &live, &reg, undecodable, &program());
    assert_eq!(r.err(), Some(InstructionError::AccountDidNotDeserialize));
}

#[test]
fn latest_detail_failures() {
    let (reg, _) = setup();
    let live = AccountState { lamports: 10, data_len: 100 };
    let acc = || DetailAccount { key: detail_key(3), lamports: 10, data_len: 100, detail: Some(stored_detail()) };
    let gone = AccountState { lamports: 0, data_len: 100 };
    let r = inner_get_scenic_latest_detail(1, &gone, &reg, acc(), &program());
    assert_eq!(r.err(), Some(InstructionError::Scenic(ScenicReviewError::ScenicSpotNotFound)));
    let r = inner_get_scenic_latest_detail(1, &live, &reg, acc(), &program());
    assert_eq!(r.err(), Some(InstructionError::Scenic(ScenicReviewError::ScenicDetailNotFound)));
}

#[test]
fn decimal_text() {
    assert_eq!(format_decimal(0), "0");
    assert_eq!(format_decimal(7), "7");
    assert_eq!(format_decimal(10), "10");
    assert_eq!(format_decimal(1203), "1203");
    assert_eq!(format_decimal(u64::MAX), u64::MAX.to_string());
}

#[test]
fn key_helpers() {
    assert!(keys_equal(&key(3), &key(3)));
    let mut k = key(3);
    k[31] = 4;
    assert!(!keys_equal(&key(3), &k));
    assert!(contains_key(&vec![key(1), k], &k));
    assert!(!contains_key(&vec![key(1)], &k));
    assert_eq!(key_bytes(&k), k.to_vec());
    assert_eq!(u64_be_bytes(0x0102030405060708), 0x0102030405060708u64.to_be_bytes().to_vec());
    assert_eq!(u32_be_bytes(0xa1b2c3d4), 0xa1b2c3d4u32.to_be_bytes().to_vec());
}

#[test]
fn account_existence() {
    assert!(account_exists(1, 1));
    assert!(!account_exists(0, 1));
    assert!(!account_exists(1, 0));
}

#[test]
fn account_spaces() {
    assert_eq!(ScenicSpot::space(50, 50, 100), 281);
    assert_eq!(ScenicDetail::space(10, 5), 759);
    assert_eq!(Review::space(2000), 2177);
    assert_eq!(CouponTemplate::space(8, 50, 200), 334);
    assert_eq!(UserCoupon::space(10), 87);
    assert_eq!(ScenicReviewSummary::space(), 333);
    assert_eq!(scenic_review::state::Config::INIT_SPACE, 164);
    assert_eq!(scenic_review::state::TransactionRecord::SPACE, 469);
}
