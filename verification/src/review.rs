use crate::address::{
    be_bytes_u64, default_key, key_to_base58, keys_equal, zero_key, program_address, try_find_program_address, u64_be_bytes, Key,
};
use crate::constants::{MAX_AI_SUMMARY_LENGTH, MAX_REVIEW_CONTENT_LENGTH, REVIEW_BATCH_SIZE, SCENIC_SPOT_SEED};
use crate::error::{InstructionError, ScenicReviewError};
use crate::events::{AiSummaryUpdated, ReviewBatchReady, ReviewConfirmed, ReviewSubmitted};
use crate::lookup::{accepted_ids, extra_ids, find_accepted, find_extra, find_id_to_name, first_position};
use crate::access::{
    check_ai_summary_author, check_config_mint, check_oracle, check_review_pending, check_user_registered,
    check_user_wallet,
};
use crate::state::{
    Config, Review, ReviewStatus, ScenicAcceptedReviews, ScenicIdRegistry, ScenicReviewSummary, TransactionRecord, TxType,
    UserAccount,
};
use crate::text::{byte_len, decimal_text, format_decimal, str_bytes, text_len};
use vstd::prelude::*;
use vstd::string::StringExecFns;
use vstd::string::StringSliceAdditionalSpecFns;

verus! {

/// The status an oracle's verdict code stands for: 1 accepts, 2 rejects.
pub open spec fn status_of_code(code: u8) -> Option<ReviewStatus> {
    if code == 1 {
        Some(ReviewStatus::Accepted)
    } else if code == 2 {
        Some(ReviewStatus::Rejected)
    } else {
        None
    }
}

/// A reward per review below 0.001 token was stored in whole tokens by an
/// older version of the program; it is scaled to the smallest unit.
pub open spec fn corrected_reward(reward: u64) -> u64 {
    if reward < 1_000_000 {
        (reward * 1_000_000_000) as u64
    } else {
        reward
    }
}

/// The accepted-review counters after one more accepted review of `id`:
/// the first counter of `id` goes up by one, or a counter of one is added.
pub open spec fn accepted_after(s: Seq<ScenicAcceptedReviews>, id: u64) -> Seq<ScenicAcceptedReviews> {
    match first_position(accepted_ids(s), id) {
        Some(i) => s.update(i, ScenicAcceptedReviews { scenic_id: id, count: (s[i].count + 1) as u32 }),
        None => s.push(ScenicAcceptedReviews { scenic_id: id, count: 1 }),
    }
}

/// Whether one more accepted review of `id` completes a batch: the spot's
/// counter existed and reaches a multiple of the batch size.
pub open spec fn batch_completed(s: Seq<ScenicAcceptedReviews>, id: u64) -> bool {
    match first_position(accepted_ids(s), id) {
        Some(i) => (s[i].count + 1) % (REVIEW_BATCH_SIZE as int) == 0,
        None => false,
    }
}

/// The seeds of a scenic spot's address.
pub open spec fn spot_seeds(id: u64) -> Seq<Seq<u8>> {
    seq![SCENIC_SPOT_SEED.spec_bytes(), be_bytes_u64(id)]
}

/// What confirming a review reads besides its arguments.
pub struct ConfirmReviewContext {
    pub oracle: Key,
    pub user_wallet: Key,
    pub token_mint: Key,
    pub review_key: Key,
    pub user_account_key: Key,
    pub vault_bump: u8,
    pub treasury_balance: u64,
    pub user_token_account_exists: bool,
    pub program_id: Key,
    pub now: i64,
}

/// The reward to pay out of the treasury, signed by the vault authority.
pub struct RewardPayment {
    pub amount: u64,
    pub create_user_token_account: bool,
    pub vault_bump: u8,
}

pub struct ConfirmReviewOutcome {
    pub payment: Option<RewardPayment>,
    pub tx_record: Option<TransactionRecord>,
    pub batch_ready: Option<ReviewBatchReady>,
    pub confirmed: ReviewConfirmed,
}

/// Why confirming a review is refused, checked in this order, if it is.
pub open spec fn confirm_review_refusal(
    config: Config,
    review: Review,
    user: UserAccount,
    registry: ScenicIdRegistry,
    scenic_id: u64,
    code: u8,
    ctx: ConfirmReviewContext,
) -> Option<InstructionError> {
    if config.oracle != ctx.oracle {
        Some(InstructionError::Scenic(ScenicReviewError::InvalidOracle))
    } else if user.user_wallet != ctx.user_wallet {
        Some(InstructionError::Scenic(ScenicReviewError::InvalidUser))
    } else if review.status != ReviewStatus::Pending {
        Some(InstructionError::Scenic(ScenicReviewError::ReviewNotPending))
    } else if config.token_mint != ctx.token_mint {
        Some(InstructionError::Scenic(ScenicReviewError::InvalidTokenMint))
    } else if status_of_code(code) is None {
        Some(InstructionError::Scenic(ScenicReviewError::InvalidReviewStatus))
    } else if registry.name_of(scenic_id) is None {
        Some(InstructionError::Scenic(ScenicReviewError::ScenicSpotNotFound))
    } else if review.status != ReviewStatus::Pending {
        Some(InstructionError::Scenic(ScenicReviewError::ReviewAlreadyProcessed))
    } else if review.scenic_spot_id != scenic_id {
        Some(InstructionError::Scenic(ScenicReviewError::InvalidScenicSpotId))
    } else if code == 1 && ctx.treasury_balance < corrected_reward(user.reward_per_review) {
        Some(InstructionError::Scenic(ScenicReviewError::InsufficientBalance))
    } else if code == 1 && batch_completed(registry.scenic_accepted_reviews@, scenic_id)
        && program_address(spot_seeds(scenic_id), ctx.program_id) is None {
        Some(InstructionError::NoProgramAddress)
    } else {
        None
    }
}

/// One for a review still waiting for the oracle's verdict, zero otherwise.
pub open spec fn pending_weight(r: Review) -> nat {
    if r.status == ReviewStatus::Pending { 1 } else { 0 }
}

/// How many of `reviews` still wait for the oracle's verdict.
pub open spec fn pending_count(reviews: Seq<Review>) -> nat
    decreases reviews.len(),
{
    if reviews.len() == 0 {
        0
    } else {
        pending_count(reviews.drop_last()) + pending_weight(reviews.last())
    }
}

/// The user's counters account for the user's reviews: the accepted ones and
/// those still pending are no more than the ones submitted.
pub open spec fn reviews_accounted(user: UserAccount, reviews: Seq<Review>) -> bool {
    user.accepted_reviews + pending_count(reviews) <= user.total_reviews
}

pub proof fn lemma_pending_count_push(s: Seq<Review>, r: Review)
    ensures
        pending_count(s.push(r)) == pending_count(s) + pending_weight(r),
{
    assert(s.push(r).drop_last() =~= s);
}

pub proof fn lemma_pending_count_update(s: Seq<Review>, i: int, r: Review)
    requires
        0 <= i < s.len(),
    ensures
        pending_count(s.update(i, r)) + pending_weight(s[i]) == pending_count(s) + pending_weight(r),
    decreases s.len(),
{
    if i == s.len() - 1 {
        assert(s.update(i, r).drop_last() =~= s.drop_last());
    } else {
        lemma_pending_count_update(s.drop_last(), i, r);
        assert(s.update(i, r).drop_last() =~= s.drop_last().update(i, r));
    }
}

/// The oracle's verdict on a pending review. Acceptance pays the user's
/// reward per review out of the treasury, counts the review for the user and
/// the spot, announces a batch at every twentieth counted review of a spot,
/// and records the income. Refused to any signer but the configured oracle,
/// for a user account of another wallet, for a review no longer pending and
/// for a mint other than the configured one, before anything else.
pub fn oracle_confirm_review(
    config: &Config,
    review: &mut Review,
    user_account: &mut UserAccount,
    registry: &mut ScenicIdRegistry,
    scenic_id: u64,
    review_id: u64,
    status: u8,
    ctx: &ConfirmReviewContext,
) -> (r: Result<ConfirmReviewOutcome, InstructionError>)
    requires
        status == 1 && old(registry).name_of(scenic_id) is Some && old(review).status == ReviewStatus::Pending
            && old(review).scenic_spot_id == scenic_id
            && ctx.treasury_balance >= corrected_reward(old(user_account).reward_per_review) ==> {
            &&& old(user_account).accepted_reviews < u32::MAX
            &&& first_position(accepted_ids(old(registry).scenic_accepted_reviews@), scenic_id) matches Some(i)
                ==> old(registry).scenic_accepted_reviews@[i].count < u32::MAX
        },
    ensures
        r is Err <==> confirm_review_refusal(*config, *old(review), *old(user_account), *old(registry), scenic_id, status, *ctx) is Some,
        r matches Err(e) ==> {
            &&& Some(e) == confirm_review_refusal(*config, *old(review), *old(user_account), *old(registry), scenic_id, status, *ctx)
            &&& *final(review) == *old(review)
            &&& *final(user_account) == *old(user_account)
            &&& *final(registry) == *old(registry)
        },
        old(registry).wf() ==> final(registry).wf(),
        r matches Ok(out) ==> {
            let st = status_of_code(status)->Some_0;
            let name = old(registry).name_of(scenic_id)->Some_0;
            let reward = corrected_reward(old(user_account).reward_per_review);
            &&& final(review).status == st
            &&& final(review).process_time == ctx.now
            &&& final(review).oracle_signature == ctx.oracle
            &&& forall|reviews: Seq<Review>, i: int|
                0 <= i < reviews.len() && reviews[i] == *old(review) && reviews_accounted(*old(user_account), reviews)
                ==> #[trigger] reviews_accounted(*final(user_account), reviews.update(i, *final(review)))
            &&& final(review).user_pda == old(review).user_pda
            &&& final(review).user_wallet == old(review).user_wallet
            &&& final(review).scenic_spot_id == old(review).scenic_spot_id
            &&& final(review).review_id == old(review).review_id
            &&& final(review).scenic_pda == old(review).scenic_pda
            &&& final(review).content == old(review).content
            &&& final(review).rating_bits == old(review).rating_bits
            &&& final(review).submit_time == old(review).submit_time
            &&& out.confirmed == (ReviewConfirmed {
                review_pda: ctx.review_key,
                review_id,
                status: st,
                reward_amount: final(review).reward_amount,
                confirm_time: ctx.now,
            })
            &&& st == ReviewStatus::Rejected ==> {
                &&& final(review).reward_amount == old(review).reward_amount
                &&& *final(user_account) == *old(user_account)
                &&& *final(registry) == *old(registry)
                &&& out.payment is None
                &&& out.tx_record is None
                &&& out.batch_ready is None
            }
            &&& st == ReviewStatus::Accepted ==> {
                &&& final(review).reward_amount == reward
                &&& final(user_account).reward_per_review == reward
                &&& final(user_account).accepted_reviews == old(user_account).accepted_reviews + 1
                &&& final(user_account).user_wallet == old(user_account).user_wallet
                &&& final(user_account).level == old(user_account).level
                &&& final(user_account).total_reviews == old(user_account).total_reviews
                &&& final(user_account).created_at == old(user_account).created_at
                &&& final(user_account).coupons == old(user_account).coupons
                &&& final(registry).scenic_accepted_reviews@
                    == accepted_after(old(registry).scenic_accepted_reviews@, scenic_id)
                &&& final(registry).bump == old(registry).bump
                &&& final(registry).next_id == old(registry).next_id
                &&& final(registry).total_count == old(registry).total_count
                &&& final(registry).name_to_id == old(registry).name_to_id
                &&& final(registry).id_to_name == old(registry).id_to_name
                &&& final(registry).extra_scenic_data == old(registry).extra_scenic_data
                &&& final(registry).scenic_latest_detail_version == old(registry).scenic_latest_detail_version
                &&& out.payment matches Some(p) && p.amount == reward
                    && p.create_user_token_account == !ctx.user_token_account_exists
                    && p.vault_bump == ctx.vault_bump
                &&& out.tx_record matches Some(tx) && {
                    &&& tx.user_pda == ctx.user_account_key
                    &&& tx.tx_type == TxType::Income
                    &&& tx.amount == reward
                    &&& tx.tx_name@ == name + "_adopt"@
                    &&& tx.related_id@ == "review_"@ + crate::address::base58_text(ctx.review_key)
                    &&& tx.timestamp == ctx.now
                    &&& tx.tx_hash@ == crate::address::base58_text(ctx.oracle)
                }
                &&& batch_completed(old(registry).scenic_accepted_reviews@, scenic_id)
                    <==> out.batch_ready is Some
                &&& out.batch_ready matches Some(b) ==> {
                    &&& Some((b.scenic_pda, b.scenic_id)) == (match program_address(spot_seeds(scenic_id), ctx.program_id) {
                        Some(pda) => Some((pda.0, scenic_id)),
                        None => None,
                    })
                    &&& b.batch_size == REVIEW_BATCH_SIZE
                    &&& b.total_reviews == final(registry).scenic_accepted_reviews@[
                        first_position(accepted_ids(old(registry).scenic_accepted_reviews@), scenic_id)->Some_0].count
                    &&& b.trigger_time == ctx.now
                }
            }
        },
{
    if let Err(e) = check_oracle(config, &ctx.oracle) {
        return Err(InstructionError::Scenic(e));
    }
    if let Err(e) = check_user_wallet(user_account, &ctx.user_wallet) {
        return Err(InstructionError::Scenic(e));
    }
    if let Err(e) = check_review_pending(review) {
        return Err(InstructionError::Scenic(e));
    }
    if let Err(e) = check_config_mint(config, &ctx.token_mint) {
        return Err(InstructionError::Scenic(e));
    }
    let review_status = if status == 1 {
        ReviewStatus::Accepted
    } else if status == 2 {
        ReviewStatus::Rejected
    } else {
        return Err(InstructionError::Scenic(ScenicReviewError::InvalidReviewStatus));
    };
    let name_pos = match find_id_to_name(&registry.id_to_name, scenic_id) {
        Some(p) => p,
        None => return Err(InstructionError::Scenic(ScenicReviewError::ScenicSpotNotFound)),
    };
    if review.status != ReviewStatus::Pending {
        return Err(InstructionError::Scenic(ScenicReviewError::ReviewAlreadyProcessed));
    }
    if review.scenic_spot_id != scenic_id {
        return Err(InstructionError::Scenic(ScenicReviewError::InvalidScenicSpotId));
    }
    if review_status == ReviewStatus::Rejected {
        review.status = review_status;
        review.process_time = ctx.now;
        review.oracle_signature = ctx.oracle;
        let confirmed = ReviewConfirmed {
            review_pda: ctx.review_key,
            review_id,
            status: review_status,
            reward_amount: review.reward_amount,
            confirm_time: ctx.now,
        };
        proof {
            assert forall|reviews: Seq<Review>, i: int|
                0 <= i < reviews.len() && reviews[i] == *old(review) && reviews_accounted(*old(user_account), reviews)
                implies #[trigger] reviews_accounted(*user_account, reviews.update(i, *review)) by {
                lemma_pending_count_update(reviews, i, *review);
            }
        }
        return Ok(ConfirmReviewOutcome { payment: None, tx_record: None, batch_ready: None, confirmed });
    }
    // Acceptance: every check comes before the first write.
    let reward = if user_account.reward_per_review < 1_000_000 {
        user_account.reward_per_review * 1_000_000_000
    } else {
        user_account.reward_per_review
    };
    if ctx.treasury_balance < reward {
        return Err(InstructionError::Scenic(ScenicReviewError::InsufficientBalance));
    }
    let counter = find_accepted(&registry.scenic_accepted_reviews, scenic_id);
    let mut batch_ready: Option<ReviewBatchReady> = None;
    if let Some(i) = counter {
        let count = registry.scenic_accepted_reviews[i].count + 1;
        if count % REVIEW_BATCH_SIZE == 0 {
            let mut seeds: Vec<Vec<u8>> = Vec::new();
            seeds.push(str_bytes(SCENIC_SPOT_SEED));
            seeds.push(u64_be_bytes(scenic_id));
            assert(seeds@.map_values(|s: Vec<u8>| s@) =~= spot_seeds(scenic_id));
            match try_find_program_address(&seeds, &ctx.program_id) {
                Some((pda, _bump)) => {
                    batch_ready = Some(ReviewBatchReady {
                        scenic_pda: pda,
                        scenic_id,
                        batch_size: REVIEW_BATCH_SIZE,
                        total_reviews: count,
                        trigger_time: ctx.now,
                    });
                },
                None => return Err(InstructionError::NoProgramAddress),
            }
        }
    }
    let mut tx_name = registry.id_to_name[name_pos].name.clone();
    tx_name.append("_adopt");
    let mut related_id = String::from_str("review_");
    let review_text = key_to_base58(&ctx.review_key);
    related_id.append(review_text.as_str());
    let tx_hash = key_to_base58(&ctx.oracle);

    review.status = review_status;
    review.process_time = ctx.now;
    review.oracle_signature = ctx.oracle;
    user_account.reward_per_review = reward;
    match counter {
        Some(i) => {
            let count = registry.scenic_accepted_reviews[i].count + 1;
            registry.scenic_accepted_reviews.set(i, ScenicAcceptedReviews { scenic_id, count });
        },
        None => {
            registry.scenic_accepted_reviews.push(ScenicAcceptedReviews { scenic_id, count: 1 });
        },
    }
    user_account.accepted_reviews = user_account.accepted_reviews + 1;
    review.reward_amount = reward;
    let tx_record = TransactionRecord {
        user_pda: ctx.user_account_key,
        tx_type: TxType::Income,
        tx_name,
        amount: reward,
        related_id,
        timestamp: ctx.now,
        tx_hash,
    };
    let confirmed = ReviewConfirmed {
        review_pda: ctx.review_key,
        review_id,
        status: review_status,
        reward_amount: reward,
        confirm_time: ctx.now,
    };
    proof {
        assert forall|reviews: Seq<Review>, i: int|
            0 <= i < reviews.len() && reviews[i] == *old(review) && reviews_accounted(*old(user_account), reviews)
            implies #[trigger] reviews_accounted(*user_account, reviews.update(i, *review)) by {
            lemma_pending_count_update(reviews, i, *review);
        }
    }
    Ok(ConfirmReviewOutcome {
        payment: Some(RewardPayment {
            amount: reward,
            create_user_token_account: !ctx.user_token_account_exists,
            vault_bump: ctx.vault_bump,
        }),
        tx_record: Some(tx_record),
        batch_ready,
        confirmed,
    })
}

/// The bits of the 32-bit floats 1.0 and 5.0, the bounds of a review's rating.
pub const RATING_MIN_BITS: u32 = 0x3f80_0000;
pub const RATING_MAX_BITS: u32 = 0x40a0_0000;

/// Whether a 32-bit float, given by its bits, lies in `1.0..=5.0`. Positive
/// floats order as their bits read as unsigned integers; negative floats and
/// NaNs have bits above those of 5.0, so the test on bits is exact.
pub open spec fn rating_in_range(bits: u32) -> bool {
    RATING_MIN_BITS <= bits <= RATING_MAX_BITS
}

/// What submitting a review reads besides its arguments.
pub struct SubmitReviewContext {
    pub user: Key,
    pub user_account_key: Key,
    pub review_key: Key,
    pub now: i64,
}

/// Why submitting a review is refused, checked in this order, if it is.
pub open spec fn submit_review_refusal(
    user: UserAccount,
    registry: ScenicIdRegistry,
    scenic_id: u64,
    rating_bits: u32,
    content: Seq<char>,
    ctx: SubmitReviewContext,
) -> Option<ScenicReviewError> {
    if user.user_wallet == zero_key() {
        Some(ScenicReviewError::UserAccountNotFound)
    } else if !rating_in_range(rating_bits) {
        Some(ScenicReviewError::InvalidRating)
    } else if user.user_wallet != ctx.user {
        Some(ScenicReviewError::InvalidUser)
    } else if byte_len(content) > MAX_REVIEW_CONTENT_LENGTH {
        Some(ScenicReviewError::ReviewContentTooLong)
    } else if registry.name_of(scenic_id) is None {
        Some(ScenicReviewError::ScenicSpotNotFound)
    } else {
        None
    }
}

/// A user's review of a registered spot: a pending review with the given
/// rating and content, counted for the user, and announced to the oracle.
pub fn submit_review(
    user_account: &mut UserAccount,
    registry: &ScenicIdRegistry,
    scenic_id: u64,
    review_id: u64,
    rating_bits: u32,
    content: String,
    ctx: &SubmitReviewContext,
) -> (r: Result<(Review, ReviewSubmitted), ScenicReviewError>)
    requires
        submit_review_refusal(*old(user_account), *registry, scenic_id, rating_bits, content@, *ctx) is None
            ==> old(user_account).total_reviews < u32::MAX,
    ensures
        r is Err <==> submit_review_refusal(*old(user_account), *registry, scenic_id, rating_bits, content@, *ctx) is Some,
        r matches Err(e) ==> Some(e) == submit_review_refusal(*old(user_account), *registry, scenic_id, rating_bits, content@, *ctx)
            && *final(user_account) == *old(user_account),
        r matches Ok((rv, ev)) ==> {
            &&& rv.user_pda == ctx.user_account_key
            &&& rv.user_wallet == ctx.user
            &&& rv.scenic_spot_id == scenic_id
            &&& rv.review_id == review_id
            &&& rv.scenic_pda == zero_key()
            &&& rv.content@ == content@
            &&& rv.rating_bits == rating_bits
            &&& rv.status == ReviewStatus::Pending
            &&& rv.reward_amount == 0
            &&& rv.submit_time == ctx.now
            &&& rv.process_time == 0
            &&& rv.oracle_signature == zero_key()
            &&& final(user_account).total_reviews == old(user_account).total_reviews + 1
            &&& vstd::utf8::encode_utf8(content@).len() <= 2000
            &&& forall|reviews: Seq<Review>| reviews_accounted(*old(user_account), reviews)
                ==> #[trigger] reviews_accounted(*final(user_account), reviews.push(rv))
            &&& final(user_account).user_wallet == old(user_account).user_wallet
            &&& final(user_account).level == old(user_account).level
            &&& final(user_account).reward_per_review == old(user_account).reward_per_review
            &&& final(user_account).accepted_reviews == old(user_account).accepted_reviews
            &&& final(user_account).created_at == old(user_account).created_at
            &&& final(user_account).coupons == old(user_account).coupons
            &&& ev == (ReviewSubmitted {
                user_pda: ctx.user_account_key,
                scenic_pda: zero_key(),
                review_pda: ctx.review_key,
                scenic_id,
                review_id,
                submit_time: ctx.now,
            })
        },
{
    if let Err(e) = check_user_registered(user_account) {
        return Err(e);
    }
    if !(RATING_MIN_BITS <= rating_bits && rating_bits <= RATING_MAX_BITS) {
        return Err(ScenicReviewError::InvalidRating);
    }
    if !keys_equal(&user_account.user_wallet, &ctx.user) {
        return Err(ScenicReviewError::InvalidUser);
    }
    if text_len(&content) > MAX_REVIEW_CONTENT_LENGTH {
        return Err(ScenicReviewError::ReviewContentTooLong);
    }
    if find_id_to_name(&registry.id_to_name, scenic_id).is_none() {
        return Err(ScenicReviewError::ScenicSpotNotFound);
    }
    let review = Review {
        user_pda: ctx.user_account_key,
        user_wallet: ctx.user,
        scenic_spot_id: scenic_id,
        review_id,
        scenic_pda: default_key(),
        content,
        rating_bits,
        status: ReviewStatus::Pending,
        reward_amount: 0,
        submit_time: ctx.now,
        process_time: 0,
        oracle_signature: default_key(),
    };
    user_account.total_reviews = user_account.total_reviews + 1;
    let event = ReviewSubmitted {
        user_pda: ctx.user_account_key,
        scenic_pda: default_key(),
        review_pda: ctx.review_key,
        scenic_id,
        review_id,
        submit_time: ctx.now,
    };
    proof {
        assert forall|reviews: Seq<Review>| reviews_accounted(*old(user_account), reviews)
            implies #[trigger] reviews_accounted(*user_account, reviews.push(review)) by {
            lemma_pending_count_push(reviews, review);
        }
    }
    Ok((review, event))
}

/// An account handed to a query over reviews: its address, owner, whether it
/// is writable, the length of its data, and the review its data decodes to,
/// if it decodes to one.
pub struct ReviewAccount {
    pub key: Key,
    pub owner: Key,
    pub is_writable: bool,
    pub data_len: usize,
    pub review: Option<Review>,
}

/// Whether a query over reviews reads an account at all: owned by the
/// program, holding data, read-only, and decoding to a review.
pub open spec fn readable_review(a: ReviewAccount, program_id: Key) -> bool {
    a.owner == program_id && a.data_len != 0 && !a.is_writable && a.review is Some
}

fn is_readable_review(a: &ReviewAccount, program_id: &Key) -> (r: bool)
    ensures
        r == readable_review(*a, *program_id),
{
    keys_equal(&a.owner, program_id) && a.data_len != 0 && !a.is_writable && a.review.is_some()
}

/// The accounts, in order, whose reviews belong to the given user.
pub open spec fn reviews_of_user(accounts: Seq<ReviewAccount>, user_pda: Key, program_id: Key) -> Seq<ReviewAccount>
    decreases accounts.len(),
{
    if accounts.len() == 0 {
        Seq::empty()
    } else {
        let prev = reviews_of_user(accounts.drop_last(), user_pda, program_id);
        let a = accounts.last();
        if readable_review(a, program_id) && a.review->Some_0.user_pda == user_pda {
            prev.push(a)
        } else {
            prev
        }
    }
}

/// The name under which a user's review list shows a spot: its registered
/// name, or "未知景点(id)" for an id the registry does not know.
pub open spec fn listed_scenic_name(registry: ScenicIdRegistry, id: u64) -> Seq<char> {
    match registry.name_of(id) {
        Some(n) => n,
        None => "未知景点("@ + decimal_text(id as nat) + ")"@,
    }
}

#[derive(Clone, Debug)]
pub struct UserReviewItem {
    pub review_pda: Key,
    pub scenic_id: u64,
    pub review_id: u64,
    pub scenic_name: String,
    pub content: String,
    pub rating_bits: u32,
    pub status: ReviewStatus,
    pub reward_amount: u64,
    pub submit_time: i64,
}

/// The list item shown for a review account.
pub open spec fn lists_review(item: UserReviewItem, a: ReviewAccount, registry: ScenicIdRegistry) -> bool {
    let rv = a.review->Some_0;
    &&& item.review_pda == a.key
    &&& item.scenic_id == rv.scenic_spot_id
    &&& item.review_id == rv.review_id
    &&& item.scenic_name@ == listed_scenic_name(registry, rv.scenic_spot_id)
    &&& item.content@ == rv.content@
    &&& item.rating_bits == rv.rating_bits
    &&& item.status == rv.status
    &&& item.reward_amount == rv.reward_amount
    &&& item.submit_time == rv.submit_time
}

fn scenic_name_for_list(registry: &ScenicIdRegistry, id: u64) -> (s: String)
    ensures
        s@ == listed_scenic_name(*registry, id),
{
    match find_id_to_name(&registry.id_to_name, id) {
        Some(i) => registry.id_to_name[i].name.clone(),
        None => {
            let mut s = String::from_str("未知景点(");
            let digits = format_decimal(id);
            s.append(digits.as_str());
            s.append(")");
            s
        },
    }
}

/// The reviews a user wrote, among the accounts handed in. Any writable
/// account is refused outright; of the others, those that are the program's
/// reviews by this user are listed in order.
pub fn get_user_review_list(
    user_account_key: &Key,
    registry: &ScenicIdRegistry,
    accounts: &Vec<ReviewAccount>,
    program_id: &Key,
) -> (r: Result<Vec<UserReviewItem>, ScenicReviewError>)
    ensures
        r is Err <==> exists|i: int| 0 <= i < accounts@.len() && #[trigger] accounts@[i].is_writable,
        r matches Err(e) ==> e == ScenicReviewError::InvalidUser,
        r matches Ok(items) ==> {
            let listed = reviews_of_user(accounts@, *user_account_key, *program_id);
            &&& items@.len() == listed.len()
            &&& forall|k: int| 0 <= k < listed.len() ==> lists_review(#[trigger] items@[k], listed[k], *registry)
        },
{
    let mut i: usize = 0;
    while i < accounts.len()
        invariant
            i <= accounts@.len(),
            forall|j: int| 0 <= j < i ==> !(#[trigger] accounts@[j]).is_writable,
        decreases accounts@.len() - i,
    {
        if accounts[i].is_writable {
            return Err(ScenicReviewError::InvalidUser);
        }
        i = i + 1;
    }
    let mut items: Vec<UserReviewItem> = Vec::new();
    let mut i: usize = 0;
    while i < accounts.len()
        invariant
            i <= accounts@.len(),
            items@.len() == reviews_of_user(accounts@.take(i as int), *user_account_key, *program_id).len(),
            forall|k: int| 0 <= k < items@.len() ==> lists_review(#[trigger] items@[k],
                reviews_of_user(accounts@.take(i as int), *user_account_key, *program_id)[k], *registry),
        decreases accounts@.len() - i,
    {
        let ghost before = reviews_of_user(accounts@.take(i as int), *user_account_key, *program_id);
        assert(accounts@.take(i + 1).drop_last() =~= accounts@.take(i as int));
        let a = &accounts[i];
        if is_readable_review(a, program_id) {
            let rv = a.review.as_ref().unwrap();
            if keys_equal(&rv.user_pda, user_account_key) {
                let item = UserReviewItem {
                    review_pda: a.key,
                    scenic_id: rv.scenic_spot_id,
                    review_id: rv.review_id,
                    scenic_name: scenic_name_for_list(registry, rv.scenic_spot_id),
                    content: rv.content.clone(),
                    rating_bits: rv.rating_bits,
                    status: rv.status,
                    reward_amount: rv.reward_amount,
                    submit_time: rv.submit_time,
                };
                items.push(item);
            }
        }
        i = i + 1;
    }
    assert(accounts@.take(accounts@.len() as int) =~= accounts@);
    Ok(items)
}


/// The reviews of a spot, in order, among the accounts handed in.
pub open spec fn reviews_of_spot(accounts: Seq<ReviewAccount>, scenic_id: u64, program_id: Key) -> Seq<Review>
    decreases accounts.len(),
{
    if accounts.len() == 0 {
        Seq::empty()
    } else {
        let prev = reviews_of_spot(accounts.drop_last(), scenic_id, program_id);
        let a = accounts.last();
        if readable_review(a, program_id) && a.review->Some_0.scenic_spot_id == scenic_id {
            prev.push(a.review->Some_0)
        } else {
            prev
        }
    }
}

/// The reviews among `reviews` with the given status, in order.
pub open spec fn with_status(reviews: Seq<Review>, status: ReviewStatus) -> Seq<Review>
    decreases reviews.len(),
{
    if reviews.len() == 0 {
        Seq::empty()
    } else {
        let prev = with_status(reviews.drop_last(), status);
        if reviews.last().status == status {
            prev.push(reviews.last())
        } else {
            prev
        }
    }
}

pub proof fn lemma_with_status_len(reviews: Seq<Review>, status: ReviewStatus)
    ensures
        with_status(reviews, status).len() <= reviews.len(),
    decreases reviews.len(),
{
    if reviews.len() > 0 {
        lemma_with_status_len(reviews.drop_last(), status);
    }
}

pub proof fn lemma_reviews_of_spot_len(accounts: Seq<ReviewAccount>, scenic_id: u64, program_id: Key)
    ensures
        reviews_of_spot(accounts, scenic_id, program_id).len() <= accounts.len(),
    decreases accounts.len(),
{
    if accounts.len() > 0 {
        lemma_reviews_of_spot_len(accounts.drop_last(), scenic_id, program_id);
    }
}

/// The counts behind a spot's review statistics. The average rating, a
/// float, is computed from `accepted_rating_bits` (or, without accepted
/// reviews, from the registry's rating of the spot) by the caller.
pub struct ScenicReviewTally {
    pub scenic_id: u64,
    pub scenic_name: String,
    pub total_reviews: u32,
    pub accepted_reviews: u32,
    pub pending_reviews: u32,
    pub rejected_reviews: u32,
    pub accepted_rating_bits: Vec<u32>,
    pub registry_rating_bits: Option<u64>,
}

/// Counts a spot's reviews among the accounts handed in, by status, and
/// collects the ratings of the accepted ones.
pub fn tally_scenic_reviews(
    registry: &ScenicIdRegistry,
    scenic_id: u64,
    accounts: &Vec<ReviewAccount>,
    program_id: &Key,
) -> (r: Result<ScenicReviewTally, ScenicReviewError>)
    requires
        accounts@.len() < u32::MAX,
    ensures
        r is Err <==> registry.name_of(scenic_id) is None,
        r matches Err(e) ==> e == ScenicReviewError::ScenicSpotNotFound,
        r matches Ok(t) ==> {
            let rs = reviews_of_spot(accounts@, scenic_id, *program_id);
            &&& t.scenic_id == scenic_id
            &&& t.scenic_name@ == registry.name_of(scenic_id)->Some_0
            &&& t.total_reviews == rs.len()
            &&& t.accepted_reviews == with_status(rs, ReviewStatus::Accepted).len()
            &&& t.pending_reviews == with_status(rs, ReviewStatus::Pending).len()
            &&& t.rejected_reviews == with_status(rs, ReviewStatus::Rejected).len()
            &&& t.accepted_rating_bits@ == with_status(rs, ReviewStatus::Accepted).map_values(|rv: Review| rv.rating_bits)
            &&& t.registry_rating_bits == (match first_position(extra_ids(registry.extra_scenic_data@), scenic_id) {
                Some(i) => Some(registry.extra_scenic_data@[i].rating_bits),
                None => None,
            })
        },
{
    let name_pos = match find_id_to_name(&registry.id_to_name, scenic_id) {
        Some(p) => p,
        None => return Err(ScenicReviewError::ScenicSpotNotFound),
    };
    let scenic_name = registry.id_to_name[name_pos].name.clone();
    let mut total: u32 = 0;
    let mut accepted: u32 = 0;
    let mut pending: u32 = 0;
    let mut rejected: u32 = 0;
    let mut ratings: Vec<u32> = Vec::new();
    let mut i: usize = 0;
    while i < accounts.len()
        invariant
            i <= accounts@.len(),
            accounts@.len() < u32::MAX,
            total == reviews_of_spot(accounts@.take(i as int), scenic_id, *program_id).len(),
            accepted == with_status(reviews_of_spot(accounts@.take(i as int), scenic_id, *program_id), ReviewStatus::Accepted).len(),
            pending == with_status(reviews_of_spot(accounts@.take(i as int), scenic_id, *program_id), ReviewStatus::Pending).len(),
            rejected == with_status(reviews_of_spot(accounts@.take(i as int), scenic_id, *program_id), ReviewStatus::Rejected).len(),
            ratings@ == with_status(reviews_of_spot(accounts@.take(i as int), scenic_id, *program_id), ReviewStatus::Accepted)
                .map_values(|rv: Review| rv.rating_bits),
        decreases accounts@.len() - i,
    {
        let ghost before = reviews_of_spot(accounts@.take(i as int), scenic_id, *program_id);
        assert(accounts@.take(i + 1).drop_last() =~= accounts@.take(i as int));
        proof {
            lemma_reviews_of_spot_len(accounts@.take(i as int), scenic_id, *program_id);
            lemma_with_status_len(before, ReviewStatus::Accepted);
            lemma_with_status_len(before, ReviewStatus::Pending);
            lemma_with_status_len(before, ReviewStatus::Rejected);
        }
        let a = &accounts[i];
        if is_readable_review(a, program_id) {
            let rv = a.review.as_ref().unwrap();
            if rv.scenic_spot_id == scenic_id {
                let ghost after = before.push(*rv);
                assert(after.drop_last() =~= before);
                total = total + 1;
                match rv.status {
                    ReviewStatus::Accepted => {
                        accepted = accepted + 1;
                        ratings.push(rv.rating_bits);
                        assert(ratings@ =~= with_status(after, ReviewStatus::Accepted).map_values(|x: Review| x.rating_bits));
                    },
                    ReviewStatus::Pending => {
                        pending = pending + 1;
                    },
                    ReviewStatus::Rejected => {
                        rejected = rejected + 1;
                    },
                }
            }
        }
        i = i + 1;
    }
    assert(accounts@.take(accounts@.len() as int) =~= accounts@);
    let registry_rating_bits = match find_extra(&registry.extra_scenic_data, scenic_id) {
        Some(k) => Some(registry.extra_scenic_data[k].rating_bits),
        None => None,
    };
    Ok(ScenicReviewTally {
        scenic_id,
        scenic_name,
        total_reviews: total,
        accepted_reviews: accepted,
        pending_reviews: pending,
        rejected_reviews: rejected,
        accepted_rating_bits: ratings,
        registry_rating_bits,
    })
}

/// The star-weighted total of a summary's ratings.
pub open spec fn star_total(s: ScenicReviewSummary) -> int {
    5 * s.five_star_count + 4 * s.four_star_count + 3 * s.three_star_count + 2 * s.two_star_count
        + s.one_star_count
}

/// The number of ratings counted under some star.
pub open spec fn star_count(s: ScenicReviewSummary) -> int {
    s.five_star_count + s.four_star_count + s.three_star_count + s.two_star_count + s.one_star_count
}

impl ScenicReviewSummary {
    /// Counts one more rating: the review count goes up, and so does the
    /// count of its star when the rating is 1 to 5. Returns the new
    /// star-weighted total; the average, a float quotient of that total by the
    /// review count, is left to the caller to store.
    pub fn update_rating(&mut self, rating: u8) -> (total: u32)
        requires
            old(self).review_count < u32::MAX,
            star_total(*old(self)) + (if 1 <= rating <= 5 { rating as int } else { 0 }) <= u32::MAX,
            1 <= rating <= 5 ==> match rating {
                5 => old(self).five_star_count < u32::MAX,
                4 => old(self).four_star_count < u32::MAX,
                3 => old(self).three_star_count < u32::MAX,
                2 => old(self).two_star_count < u32::MAX,
                _ => old(self).one_star_count < u32::MAX,
            },
        ensures
            final(self).review_count == old(self).review_count + 1,
            final(self).five_star_count == old(self).five_star_count + (if rating == 5 { 1int } else { 0 }),
            final(self).four_star_count == old(self).four_star_count + (if rating == 4 { 1int } else { 0 }),
            final(self).three_star_count == old(self).three_star_count + (if rating == 3 { 1int } else { 0 }),
            final(self).two_star_count == old(self).two_star_count + (if rating == 2 { 1int } else { 0 }),
            final(self).one_star_count == old(self).one_star_count + (if rating == 1 { 1int } else { 0 }),
            total == star_total(*final(self)),
            final(self).scenic_spot_id == old(self).scenic_spot_id,
            final(self).average_rating_bits == old(self).average_rating_bits,
            final(self).ai_summary == old(self).ai_summary,
            final(self).last_ai_update_slot == old(self).last_ai_update_slot,
            final(self).bump == old(self).bump,
            star_count(*old(self)) <= old(self).review_count ==> star_count(*final(self)) <= final(self).review_count,
    {
        self.review_count = self.review_count + 1;
        if rating == 5 {
            self.five_star_count = self.five_star_count + 1;
        } else if rating == 4 {
            self.four_star_count = self.four_star_count + 1;
        } else if rating == 3 {
            self.three_star_count = self.three_star_count + 1;
        } else if rating == 2 {
            self.two_star_count = self.two_star_count + 1;
        } else if rating == 1 {
            self.one_star_count = self.one_star_count + 1;
        }
        self.five_star_count * 5 + self.four_star_count * 4 + self.three_star_count * 3
            + self.two_star_count * 2 + self.one_star_count * 1
    }
}

/// The oracle's AI summary of a spot, written by the signer `oracle`:
/// refused to any signer but the configured oracle, and when longer than 256
/// bytes.
pub fn update_ai_summary(
    config: &Config,
    review_summary: &mut ScenicReviewSummary,
    oracle: Key,
    summary: String,
    slot: u64,
    now: i64,
) -> (r: Result<AiSummaryUpdated, ScenicReviewError>)
    ensures
        r is Err <==> config.oracle != oracle || byte_len(summary@) > MAX_AI_SUMMARY_LENGTH,
        vstd::utf8::encode_utf8(summary@).len() > 256 ==> r is Err,
        r is Ok ==> vstd::utf8::encode_utf8(summary@).len() <= 256,
        r matches Err(e) ==> *final(review_summary) == *old(review_summary) && e == (if config.oracle != oracle {
            ScenicReviewError::NotAuthorizedForAiUpdate
        } else {
            ScenicReviewError::AiSummaryTooLong
        }),
        r matches Ok(ev) ==> {
            &&& final(review_summary).ai_summary@ == summary@
            &&& final(review_summary).last_ai_update_slot == slot
            &&& final(review_summary).scenic_spot_id == old(review_summary).scenic_spot_id
            &&& final(review_summary).average_rating_bits == old(review_summary).average_rating_bits
            &&& final(review_summary).review_count == old(review_summary).review_count
            &&& final(review_summary).five_star_count == old(review_summary).five_star_count
            &&& final(review_summary).four_star_count == old(review_summary).four_star_count
            &&& final(review_summary).three_star_count == old(review_summary).three_star_count
            &&& final(review_summary).two_star_count == old(review_summary).two_star_count
            &&& final(review_summary).one_star_count == old(review_summary).one_star_count
            &&& final(review_summary).bump == old(review_summary).bump
            &&& ev == (AiSummaryUpdated {
                scenic_spot_id: old(review_summary).scenic_spot_id,
                summary_length: byte_len(summary@) as u32,
                update_slot: slot,
                timestamp: now,
            })
        },
{
    if let Err(e) = check_ai_summary_author(config, &oracle) {
        return Err(e);
    }
    let len = text_len(&summary);
    if len > MAX_AI_SUMMARY_LENGTH {
        return Err(ScenicReviewError::AiSummaryTooLong);
    }
    review_summary.ai_summary = summary;
    review_summary.last_ai_update_slot = slot;
    Ok(AiSummaryUpdated {
        scenic_spot_id: review_summary.scenic_spot_id,
        summary_length: len as u32,
        update_slot: slot,
        timestamp: now,
    })
}

} // verus!
