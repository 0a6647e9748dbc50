use crate::address::Key;
use crate::lookup::{first_position, id_to_name_ids, name_to_id_names};
use crate::constants::{MAX_AI_SUMMARY_LENGTH, MAX_SCENIC_NAME_LENGTH, MAX_SCENIC_SPOTS};
use vstd::prelude::*;

verus! {

/// Where a review stands in moderation.
#[derive(Clone, Copy, Debug, PartialEq, Eq, Structural)]
pub enum ReviewStatus {
    Pending,
    Accepted,
    Rejected,
}

/// The direction of a recorded token movement, seen from the user.
#[derive(Clone, Copy, Debug, PartialEq, Eq, Structural)]
pub enum TxType {
    Unknown,
    Expense,
    Income,
}

#[derive(Clone, Debug)]
pub struct NameToId {
    pub name: String,
    pub id: u64,
}

#[derive(Clone, Debug)]
pub struct IdToName {
    pub id: u64,
    pub name: String,
}

/// What the registry keeps of a scenic spot besides its name. The rating is
/// a 64-bit float, held as its bits.
#[derive(Clone, Debug)]
pub struct ExtraScenicData {
    pub id: u64,
    pub location: String,
    pub tags: String,
    pub rating_bits: u64,
    pub description: String,
}

#[derive(Clone, Copy, Debug, PartialEq, Eq, Structural)]
pub struct ScenicAcceptedReviews {
    pub scenic_id: u64,
    pub count: u32,
}

#[derive(Clone, Copy, Debug, PartialEq, Eq, Structural)]
pub struct ScenicVersionRecord {
    pub scenic_id: u64,
    pub latest_version: u32,
}

/// The program's global configuration.
#[derive(Clone, Copy, Debug)]
pub struct Config {
    pub admin: Key,
    pub token_mint: Key,
    pub treasury: Key,
    pub oracle: Key,
    pub vault_authority: Key,
    pub bump: u8,
    pub vault_bump: u8,
    pub default_spots_created: bool,
    pub default_coupons_created: bool,
}

impl Config {
    pub const INIT_SPACE: usize = 32 + 32 + 32 + 32 + 32 + 1 + 1 + 1 + 1;
}

/// The registry of scenic spots: names, ids, extra data, counts of accepted
/// reviews and the latest detail version of each spot.
#[derive(Clone, Debug)]
pub struct ScenicIdRegistry {
    pub bump: u8,
    pub next_id: u64,
    pub total_count: u8,
    pub name_to_id: Vec<NameToId>,
    pub id_to_name: Vec<IdToName>,
    pub extra_scenic_data: Vec<ExtraScenicData>,
    pub scenic_accepted_reviews: Vec<ScenicAcceptedReviews>,
    pub scenic_latest_detail_version: Vec<ScenicVersionRecord>,
}

impl ScenicIdRegistry {
    pub const INIT_SPACE: usize = 8 + 1 + 8 + 1 + (4 + (MAX_SCENIC_NAME_LENGTH + 8)
        * MAX_SCENIC_SPOTS) + (4 + (8 + MAX_SCENIC_NAME_LENGTH) * MAX_SCENIC_SPOTS) + (4 + (8 + 100
        + 100 + 8 + 50) * MAX_SCENIC_SPOTS) + (4 + (8 + 4) * MAX_SCENIC_SPOTS) + (4 + (8 + 4)
        * MAX_SCENIC_SPOTS);
}

impl ScenicIdRegistry {
    /// The name of the first `id_to_name` entry with this id, if any.
    pub open spec fn name_of(&self, id: u64) -> Option<Seq<char>> {
        match first_position(id_to_name_ids(self.id_to_name@), id) {
            Some(i) => Some(self.id_to_name@[i].name@),
            None => None,
        }
    }

    /// The names of the `name_to_id` entries.
    pub open spec fn names(&self) -> Seq<Seq<char>> {
        name_to_id_names(self.name_to_id@)
    }

    /// The registry's two name lists mirror each other: the id list holds the
    /// (id, name) pairs of the name list, in the same order, and no name
    /// occurs twice.
    pub open spec fn names_mirrored(&self) -> bool {
        &&& self.name_to_id@.len() == self.id_to_name@.len()
        &&& forall|i: int|
            0 <= i < self.name_to_id@.len() ==> {
                &&& #[trigger] self.name_to_id@[i].id == self.id_to_name@[i].id
                &&& self.name_to_id@[i].name@ == self.id_to_name@[i].name@
            }
        &&& forall|i: int, j: int|
            0 <= i < j < self.name_to_id@.len() ==> #[trigger] self.name_to_id@[i].name@
                != #[trigger] self.name_to_id@[j].name@
    }

    /// The registry's well-formedness: one entry per spot in each of the
    /// three lists, in the same order, and no name twice.
    pub open spec fn wf(&self) -> bool {
        &&& self.name_to_id@.len() == self.total_count
        &&& self.id_to_name@.len() == self.total_count
        &&& self.extra_scenic_data@.len() == self.total_count
        &&& forall|i: int|
            0 <= i < self.name_to_id@.len() ==> {
                &&& #[trigger] self.name_to_id@[i].id == self.id_to_name@[i].id
                &&& self.name_to_id@[i].name@ == self.id_to_name@[i].name@
                &&& self.extra_scenic_data@[i].id == self.name_to_id@[i].id
            }
        &&& forall|i: int, j: int|
            0 <= i < j < self.name_to_id@.len() ==> #[trigger] self.name_to_id@[i].name@
                != #[trigger] self.name_to_id@[j].name@
    }
}

/// A user's account: level, reward per accepted review, review counts and
/// the addresses of the coupons bought.
#[derive(Clone, Debug)]
pub struct UserAccount {
    pub user_wallet: Key,
    pub level: u8,
    pub reward_per_review: u64,
    pub total_reviews: u32,
    pub accepted_reviews: u32,
    pub created_at: i64,
    pub coupons: Vec<Key>,
}

impl UserAccount {
    pub const SPACE: usize = 32 + 1 + 8 + 4 + 4 + 8 + (4 + 32 * 100);
}

/// A scenic spot. Its base rating is a 64-bit float, held as its bits.
#[derive(Clone, Debug)]
pub struct ScenicSpot {
    pub id: u64,
    pub admin: Key,
    pub name: String,
    pub location: String,
    pub tags: String,
    pub base_rating_bits: u64,
    pub created_at: i64,
    pub is_active: bool,
    pub accepted_review_count: u32,
    pub description: String,
}

impl ScenicSpot {
    pub fn space(name_len: usize, location_len: usize, tags_len: usize) -> (r: usize)
        requires
            81 + name_len + location_len + tags_len <= usize::MAX,
        ensures
            r == 81 + name_len + location_len + tags_len,
    {
        8 + 8 + 32 + 4 + name_len + 4 + location_len + 4 + tags_len + 8 + 8 + 1 + 4
    }
}

/// One version of a spot's detail written by the oracle.
#[derive(Clone, Debug)]
pub struct ScenicDetail {
    pub scenic_spot_id: u64,
    pub scenic_spot_pda: Key,
    pub version: u32,
    pub ai_summary: String,
    pub hash: String,
    pub update_time: i64,
    pub oracle_signature: Key,
    pub source_review_ids: Vec<Key>,
}

impl ScenicDetail {
    pub fn space(summary_len: usize, hash_len: usize) -> (r: usize)
        requires
            744 + summary_len + hash_len <= usize::MAX,
        ensures
            r == 744 + summary_len + hash_len,
    {
        8 + 8 + 32 + 4 + 4 + summary_len + 4 + hash_len + 8 + 32 + 4 + (32 * 20)
    }
}

/// A review of a scenic spot. Its rating is a 32-bit float, held as its bits.
#[derive(Clone, Debug)]
pub struct Review {
    pub user_pda: Key,
    pub user_wallet: Key,
    pub scenic_spot_id: u64,
    pub review_id: u64,
    pub scenic_pda: Key,
    pub content: String,
    pub rating_bits: u32,
    pub status: ReviewStatus,
    pub reward_amount: u64,
    pub submit_time: i64,
    pub process_time: i64,
    pub oracle_signature: Key,
}

impl Review {
    pub fn space(content_len: usize) -> (r: usize)
        requires
            177 + content_len <= usize::MAX,
        ensures
            r == 177 + content_len,
    {
        32 + 32 + 8 + 8 + 32 + 4 + content_len + 4 + 1 + 8 + 8 + 8 + 32
    }
}

/// A kind of coupon on sale: price, supply left, end of sale and how long a
/// bought coupon stays valid.
#[derive(Clone, Debug)]
pub struct CouponTemplate {
    pub admin: Key,
    pub coupon_id: String,
    pub name: String,
    pub description: String,
    pub token_price: u64,
    pub total_supply: u32,
    pub remaining: u32,
    pub expire_date: i64,
    pub valid_duration: i64,
}

impl CouponTemplate {
    pub fn space(id_len: usize, name_len: usize, desc_len: usize) -> (r: usize)
        requires
            76 + id_len + name_len + desc_len <= usize::MAX,
        ensures
            r == 76 + id_len + name_len + desc_len,
    {
        32 + 4 + id_len + 4 + name_len + 4 + desc_len + 8 + 4 + 4 + 8 + 8
    }

    /// Whether the template is well formed: no more left than were issued.
    pub open spec fn wf(&self) -> bool {
        self.remaining <= self.total_supply
    }
}

/// A coupon a user bought.
#[derive(Clone, Debug)]
pub struct UserCoupon {
    pub coupon_id: String,
    pub user_pda: Key,
    pub purchase_id: u64,
    pub is_used: bool,
    pub obtain_time: i64,
    pub expire_time: i64,
    pub redeem_time: i64,
}

impl UserCoupon {
    pub fn space(coupon_id_len: usize) -> (r: usize)
        requires
            77 + coupon_id_len <= usize::MAX,
        ensures
            r == 77 + coupon_id_len,
    {
        8 + (4 + coupon_id_len) + 32 + 8 + 1 + 8 + 8 + 8
    }
}

#[derive(Clone, Debug)]
pub struct TransactionRecordItem {
    pub tx_pda: Key,
    pub tx_type: u8,
    pub amount: u64,
    pub related_id: String,
    pub timestamp: i64,
    pub tx_hash: String,
    pub user_pda: Key,
}

/// The record of one token movement of a user.
#[derive(Clone, Debug)]
pub struct TransactionRecord {
    pub user_pda: Key,
    pub tx_type: TxType,
    pub tx_name: String,
    pub amount: u64,
    pub related_id: String,
    pub timestamp: i64,
    pub tx_hash: String,
}

impl TransactionRecord {
    pub const SPACE: usize = 8 + 32 + 1 + (4 + 100) + 8 + (4 + 200) + 8 + (4 + 100);
}

#[derive(Clone, Debug)]
pub struct UserReviewIndex {
    pub user_pda: Key,
    pub review_pdas: Vec<Key>,
    pub bump: u8,
}

impl UserReviewIndex {
    pub const INIT_SPACE: usize = 8 + 32 + 4 + (32 * 50) + 1;
}

/// Star counts and AI summary of a spot. The average is a 32-bit float,
/// held as its bits.
#[derive(Clone, Debug)]
pub struct ScenicReviewSummary {
    pub scenic_spot_id: Key,
    pub average_rating_bits: u32,
    pub review_count: u32,
    pub five_star_count: u32,
    pub four_star_count: u32,
    pub three_star_count: u32,
    pub two_star_count: u32,
    pub one_star_count: u32,
    pub ai_summary: String,
    pub last_ai_update_slot: u64,
    pub bump: u8,
}

impl ScenicReviewSummary {
    pub const MAX_AI_SUMMARY_LENGTH: usize = MAX_AI_SUMMARY_LENGTH;

    pub fn space() -> (r: usize)
        ensures
            r == 333,
    {
        8 + 32 + 4 + 4 * 5 + 4 + MAX_AI_SUMMARY_LENGTH + 8 + 1
    }
}

/// Whether an account holds lamports and data, given its lamports and the
/// length of its data.
pub fn account_exists(lamports: u64, data_len: usize) -> (r: bool)
    ensures
        r == (lamports > 0 && data_len != 0),
{
    lamports > 0 && data_len != 0
}

} // verus!
