use vstd::prelude::*;

verus! {

pub const CONFIG_SEED: &'static str = "scenic_config";
pub const USER_SEED: &'static str = "user_account";
pub const USER_COUPON_SEED: &'static str = "user_coupon";
pub const SCENIC_SPOT_SEED: &'static str = "scenic_spot";
pub const SCENIC_DETAIL_SEED: &'static str = "scenic_detail";
pub const REVIEW_SEED: &'static str = "review";
pub const COUPON_TEMPLATE_SEED: &'static str = "coupon_template";
pub const NFT_SEED: &'static str = "nft_mint_seed";
pub const NFT_AUTHORITY_SEED: &'static str = "nft_authority_seed";
pub const SCENIC_ID_REGISTRY_SEED: &'static str = "scenic_id_registry";
pub const VAULT_AUTHORITY_SEED: &'static str = "vault-authority";
pub const TX_RECORD_SEED: &'static str = "tx_record";

/// One token in its smallest unit (the mint has nine decimals).
pub const TOKEN_UNIT: u64 = 1_000_000_000;

pub const INITIAL_LEVEL: u8 = 1;
pub const INITIAL_REWARD: u64 = 5_000_000_000;
pub const LEVEL_2_REWARD: u64 = 10_000_000_000;
pub const LEVEL_3_REWARD: u64 = 15_000_000_000;
pub const LEVEL_2_UPGRADE_COST: u64 = 20_000_000_000;
pub const LEVEL_3_UPGRADE_COST: u64 = 30_000_000_000;
pub const LEVEL_1_TO_3_UPGRADE_COST: u64 = 40_000_000_000;

pub const SCENIC_SPOT_INIT_ID: u64 = 1;
pub const MAX_SCENIC_NAME_LENGTH: usize = 50;
pub const MAX_SCENIC_SPOTS: usize = 10;
pub const MAX_TAGS_LENGTH: usize = 100;
pub const MAX_REVIEW_CONTENT_LENGTH: usize = 2000;
pub const MAX_DESCRIPTION_LENGTH: usize = 50;
pub const MAX_AI_SUMMARY_LENGTH: usize = 256;
pub const MAX_SOURCE_REVIEW_IDS: usize = 20;
pub const REVIEW_BATCH_SIZE: u32 = 20;

pub const DEFAULT_COUPON_TOKEN_PRICE: u64 = 10_000_000_000;
pub const DEFAULT_COUPON_TOTAL_SUPPLY: u32 = 100;
pub const TOKEN_DECIMALS: u8 = 9;
/// Thirty days in seconds: how long default coupons are on sale and valid.
pub const THIRTY_DAYS: i64 = 2_592_000;

pub const NFT_SYMBOL: &'static str = "SCENIC";
pub const DEFAULT_SCENIC_IMAGE_URI: &'static str = "https://coffee-official-centipede-389.mypinata.cloud/ipfs/bafybeia2urvtslyvd3562oxwqowk5jt2yavdcvwrqyip5menfzsm4gmgxy";

} // verus!
