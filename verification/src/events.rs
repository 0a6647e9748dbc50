use crate::address::Key;
use crate::state::ReviewStatus;
use vstd::prelude::*;

verus! {

#[derive(Clone, Copy, Debug)]
pub struct ReviewSubmitted {
    pub user_pda: Key,
    pub scenic_pda: Key,
    pub review_pda: Key,
    pub scenic_id: u64,
    pub review_id: u64,
    pub submit_time: i64,
}

#[derive(Clone, Copy, Debug)]
pub struct UserLevelUpgraded {
    pub user: Key,
    pub previous_level: u8,
    pub new_level: u8,
    pub tokens_spent: u64,
    pub timestamp: i64,
}

#[derive(Clone, Debug)]
pub struct CouponRedeemed {
    pub user: Key,
    pub coupon_id: String,
    pub nft_mint: Key,
    pub timestamp: i64,
}

#[derive(Clone, Copy, Debug)]
pub struct AiSummaryUpdated {
    pub scenic_spot_id: Key,
    pub summary_length: u32,
    pub update_slot: u64,
    pub timestamp: i64,
}

#[derive(Clone, Debug)]
pub struct CouponTemplateCreated {
    pub coupon_id: String,
    pub name: String,
    pub admin: Key,
    pub timestamp: i64,
}

#[derive(Clone, Copy, Debug)]
pub struct ReviewBatchReady {
    pub scenic_pda: Key,
    pub scenic_id: u64,
    pub batch_size: u32,
    pub total_reviews: u32,
    pub trigger_time: i64,
}

#[derive(Clone, Copy, Debug)]
pub struct ReviewConfirmed {
    pub review_pda: Key,
    pub review_id: u64,
    pub status: ReviewStatus,
    pub reward_amount: u64,
    pub confirm_time: i64,
}

#[derive(Clone, Copy, Debug)]
pub struct DefaultScenicSpotsCreated {
    pub admin: Key,
    pub count: u8,
    pub timestamp: i64,
}

#[derive(Clone, Copy, Debug)]
pub struct DefaultCouponsCreated {
    pub admin: Key,
    pub count: u8,
    pub timestamp: i64,
}

} // verus!
