use crate::address::{program_address, zero_key, Key};
use crate::detail::{
    detail_seeds, first_twenty, lemma_occurrence_has_position, program_accounts, SourceAccount, latest_detail_failure, lemma_versions_set_latest, versions_set, AccountState, DetailAccount,
};
use crate::constants::{INITIAL_LEVEL, INITIAL_REWARD, REVIEW_BATCH_SIZE};
use crate::coupon::{
    account_keys, buy_coupon_refusal, is_default_coupon, listed_coupons, nft_authority_seeds, shows_coupon, purchase_record_seeds, redeem_coupon_refusal, template_seeds,
    user_coupon_seeds, BuyCouponContext, CouponAccount, RedeemCouponContext, UserCouponInfo,
};
use crate::error::{InstructionError, ScenicReviewError};
use crate::lookup::{accepted_ids, first_position, is_first_position, lemma_first_position};
use crate::registry::{accepted_set, create_scenic_spot_refusal, update_rating_refusal};
use crate::text::{all_digits, byte_len, decimal_text, digit_char, digits_value};
use crate::registry::is_default_spot_account;
use crate::review::{
    accepted_after, batch_completed, confirm_review_refusal, corrected_reward, lists_review, pending_count,
    reviews_accounted, reviews_of_spot, reviews_of_user, spot_seeds, star_count, star_total, with_status, status_of_code, submit_review_refusal, ConfirmReviewContext,
    ReviewAccount, SubmitReviewContext, UserReviewItem,
};
use crate::state::{
    Config, CouponTemplate, ScenicDetail, ScenicReviewSummary, ScenicSpot, Review, ReviewStatus, ScenicAcceptedReviews, ScenicIdRegistry, UserAccount,
    UserCoupon,
};
use crate::user::{reward_for_level, upgrade_cost};
use vstd::prelude::*;
use vstd::utf8::encode_utf8;

verus! {

/// Only the configured oracle moderates: a verdict from any other signer is
/// refused before anything else is looked at.
pub proof fn law_only_the_oracle_moderates(
    config: Config,
    review: Review,
    user: UserAccount,
    registry: ScenicIdRegistry,
    scenic_id: u64,
    code: u8,
    ctx: ConfirmReviewContext,
)
    requires
        config.oracle != ctx.oracle,
    ensures
        confirm_review_refusal(config, review, user, registry, scenic_id, code, ctx)
            == Some(InstructionError::Scenic(ScenicReviewError::InvalidOracle)),
{
}

/// A review the oracle has ruled on stays ruled on: any further verdict on
/// it by the oracle, for the account of the review's user, is refused as no
/// longer pending.
pub proof fn law_processed_review_is_final(
    config: Config,
    review: Review,
    user: UserAccount,
    registry: ScenicIdRegistry,
    scenic_id: u64,
    code: u8,
    ctx: ConfirmReviewContext,
)
    requires
        review.status != ReviewStatus::Pending,
        config.oracle == ctx.oracle,
        user.user_wallet == ctx.user_wallet,
    ensures
        confirm_review_refusal(config, review, user, registry, scenic_id, code, ctx)
            == Some(InstructionError::Scenic(ScenicReviewError::ReviewNotPending)),
{
}

/// A freshly submitted review of a registered spot can be ruled on by the
/// oracle: a rejection is never refused, and an acceptance is refused only
/// for want of treasury funds or of the spot's program address.
pub proof fn law_submitted_review_can_be_confirmed(
    config: Config,
    review: Review,
    user: UserAccount,
    registry: ScenicIdRegistry,
    scenic_id: u64,
    code: u8,
    ctx: ConfirmReviewContext,
)
    requires
        config.oracle == ctx.oracle,
        config.token_mint == ctx.token_mint,
        user.user_wallet == ctx.user_wallet,
        review.status == ReviewStatus::Pending,
        review.scenic_spot_id == scenic_id,
        registry.name_of(scenic_id) is Some,
        status_of_code(code) is Some,
    ensures
        code == 2 ==> confirm_review_refusal(config, review, user, registry, scenic_id, code, ctx) is None,
        code == 1 && ctx.treasury_balance >= corrected_reward(user.reward_per_review)
            && (batch_completed(registry.scenic_accepted_reviews@, scenic_id)
                ==> program_address(spot_seeds(scenic_id), ctx.program_id) is Some)
            ==> confirm_review_refusal(config, review, user, registry, scenic_id, code, ctx) is None,
{
}

/// Correcting a reward stored in whole tokens happens at most once: a
/// corrected reward is left as it is.
pub proof fn law_reward_correction_is_idempotent(reward: u64)
    ensures
        corrected_reward(corrected_reward(reward)) == corrected_reward(reward),
{
    if reward < 1_000_000 && reward > 0 {
        assert(reward * 1_000_000_000 >= 1_000_000_000) by (nonlinear_arith)
            requires reward > 0;
        assert(reward * 1_000_000_000 < 1_000_000_000_000_000) by (nonlinear_arith)
            requires reward < 1_000_000;
    }
}

/// One more accepted review of a spot adds exactly one to that spot's
/// count and leaves every other spot's count as it was; the counts of all
/// spots together go up by one.
pub proof fn law_acceptance_counts_once(s: Seq<ScenicAcceptedReviews>, id: u64)
    requires
        first_position(accepted_ids(s), id) matches Some(i) ==> s[i].count < u32::MAX,
    ensures
        match first_position(accepted_ids(s), id) {
            Some(i) => {
                &&& accepted_after(s, id).len() == s.len()
                &&& accepted_after(s, id)[i].count == s[i].count + 1
                &&& forall|j: int| 0 <= j < s.len() && j != i ==> #[trigger] accepted_after(s, id)[j] == s[j]
            },
            None => accepted_after(s, id) == s.push(ScenicAcceptedReviews { scenic_id: id, count: 1 }),
        },
{
}

/// A batch is announced exactly when a spot's count of accepted reviews
/// reaches a multiple of twenty: an acceptance that brings an existing
/// counter `c` to `c + 1` announces one if and only if `c + 1` is a multiple
/// of twenty (the twentieth, the fortieth, ...), and the first acceptance of
/// a spot without a counter announces none.
pub proof fn law_batches_come_every_twenty(s: Seq<ScenicAcceptedReviews>, id: u64)
    requires
        first_position(accepted_ids(s), id) matches Some(i) ==> s[i].count < u32::MAX,
    ensures
        match first_position(accepted_ids(s), id) {
            Some(i) => {
                &&& batch_completed(s, id) <==> (s[i].count + 1) % 20 == 0
                &&& accepted_after(s, id)[i].count == s[i].count + 1
            },
            None => !batch_completed(s, id),
        },
        batch_completed(s, id) ==> {
            let i = first_position(accepted_ids(s), id)->Some_0;
            accepted_after(s, id)[i].count % REVIEW_BATCH_SIZE == 0
        },
{
}

/// A used coupon cannot be redeemed again.
pub proof fn law_used_coupon_cannot_be_redeemed(
    coupon: UserCoupon,
    coupon_id: Seq<char>,
    purchase_id: u64,
    ctx: RedeemCouponContext,
)
    requires
        coupon.is_used,
    ensures
        redeem_coupon_refusal(coupon, coupon_id, purchase_id, ctx)
            == Some(InstructionError::Scenic(ScenicReviewError::CouponAlreadyUsed)),
{
}

/// A bought coupon can be redeemed, under the id and purchase id it was
/// bought with, until it expires.
pub proof fn law_bought_coupon_is_redeemable(coupon: UserCoupon, ctx: RedeemCouponContext)
    requires
        !coupon.is_used,
        ctx.now <= coupon.expire_time,
        program_address(nft_authority_seeds(), ctx.program_id) is Some,
    ensures
        redeem_coupon_refusal(coupon, coupon.coupon_id@, coupon.purchase_id, ctx) is None,
{
}

/// Coupons are not sold past the end of sale, nor once none is left.
pub proof fn law_no_sale_when_expired_or_sold_out(
    template: CouponTemplate,
    purchase_id: u64,
    ctx: BuyCouponContext,
)
    requires
        ctx.now >= template.expire_date || template.remaining == 0,
    ensures
        buy_coupon_refusal(template, template.coupon_id@, purchase_id, ctx) is Some,
        ctx.now >= template.expire_date ==> buy_coupon_refusal(template, template.coupon_id@, purchase_id, ctx)
            == Some(InstructionError::Scenic(ScenicReviewError::CouponExpired)),
{
}

/// Levels only go up, to at most 3, and each level reached pays a larger
/// reward per review than the one left.
pub proof fn law_upgrades_only_go_up(current: u8, new_level: u8)
    requires
        upgrade_cost(current, new_level) is Some,
    ensures
        current < new_level <= 3,
        reward_for_level(current) < reward_for_level(new_level),
{
}

/// A new account already pays the reward of its level, so correcting the
/// reward of a new account changes nothing.
pub proof fn law_new_accounts_pay_their_level()
    ensures
        reward_for_level(INITIAL_LEVEL) == INITIAL_REWARD,
{
}

/// A user never has more accepted reviews than submitted ones. A new account
/// accounts for its (empty) list of reviews, a submission and each verdict
/// keep the counters accounting for the user's reviews, and a user whose
/// counters account for the reviews has at most as many accepted reviews, and
/// at most as many pending ones, as submitted ones.
pub proof fn law_accepted_never_exceed_submitted(user: UserAccount, reviews: Seq<Review>)
    requires
        reviews_accounted(user, reviews),
    ensures
        user.accepted_reviews <= user.total_reviews,
        pending_count(reviews) <= user.total_reviews,
{
}

/// A purchase of a coupon that is on sale, with copies left, made with the
/// accounts at their program addresses and a name that fits the record,
/// goes through.
pub proof fn law_valid_purchase_succeeds(
    template: CouponTemplate,
    purchase_id: u64,
    ctx: BuyCouponContext,
)
    requires
        ctx.now < template.expire_date,
        template.remaining > 0,
        program_address(template_seeds(template.coupon_id@), ctx.program_id) matches Some(t)
            && t.0 == ctx.template_key,
        program_address(user_coupon_seeds(ctx.user_account_key, template.coupon_id@, purchase_id), ctx.program_id)
            matches Some(u) && u.0 == ctx.user_coupon_key,
        program_address(purchase_record_seeds(ctx.user_account_key, template.coupon_id@, purchase_id), ctx.program_id)
            matches Some(x) && x.0 == ctx.tx_record_key,
        byte_len("buy_coupon_"@ + template.name@) <= 100,
    ensures
        buy_coupon_refusal(template, template.coupon_id@, purchase_id, ctx) is None,
{
}

/// What the oracle writes is what the detail query reads back: once a
/// version of a spot's detail is written and recorded as the spot's latest,
/// a query for the spot, handed the account at that version's address
/// holding the written detail, returns that detail.
pub proof fn law_written_detail_is_read_back(
    before: ScenicIdRegistry,
    after: ScenicIdRegistry,
    scenic_id: u64,
    version: u32,
    written: ScenicDetail,
    spot: AccountState,
    detail: DetailAccount,
    program_id: Key,
)
    requires
        after.scenic_latest_detail_version@ == versions_set(before.scenic_latest_detail_version@, scenic_id, version),
        spot.lamports > 0 && spot.data_len != 0,
        program_address(detail_seeds(scenic_id, version), program_id) matches Some(pda) && detail.key == pda.0,
        detail.lamports > 0 && detail.data_len != 0,
        detail.detail == Some(written),
    ensures
        latest_detail_failure(scenic_id, spot, after, detail, program_id) is None,
{
    lemma_versions_set_latest(before.scenic_latest_detail_version@, scenic_id, version);
}

/// The content limit of a review is in bytes: once the account, the rating
/// and the wallet pass, a review is refused as too long exactly when the
/// UTF-8 encoding of its content is longer than 2000 bytes, whatever its
/// number of characters (a text's encoding always fits in memory).
pub proof fn law_review_content_limit_is_in_bytes(
    user: UserAccount,
    registry: ScenicIdRegistry,
    scenic_id: u64,
    rating_bits: u32,
    content: Seq<char>,
    ctx: SubmitReviewContext,
)
    requires
        user.user_wallet != zero_key(),
        user.user_wallet == ctx.user,
        0x3f80_0000 <= rating_bits <= 0x40a0_0000,
        encode_utf8(content).len() <= usize::MAX,
    ensures
        submit_review_refusal(user, registry, scenic_id, rating_bits, content, ctx)
            == Some(ScenicReviewError::ReviewContentTooLong)
            <==> encode_utf8(content).len() > 2000,
{
}

/// A review's rating is a float from 1.0 to 5.0: for a registered account,
/// the rating is refused exactly when its bits lie outside those of 1.0
/// (`0x3f80_0000`) and 5.0 (`0x40a0_0000`).
pub proof fn law_review_rating_is_one_to_five(
    user: UserAccount,
    registry: ScenicIdRegistry,
    scenic_id: u64,
    rating_bits: u32,
    content: Seq<char>,
    ctx: SubmitReviewContext,
)
    requires
        user.user_wallet != zero_key(),
    ensures
        submit_review_refusal(user, registry, scenic_id, rating_bits, content, ctx)
            == Some(ScenicReviewError::InvalidRating)
            <==> !(0x3f80_0000 <= rating_bits <= 0x40a0_0000),
{
}

/// Each item of a user's review list shows the review it lists: its
/// address, spot, id, content, rating, status, reward and time of
/// submission, as stored.
pub proof fn law_review_list_item_shows_its_review(item: UserReviewItem, a: ReviewAccount, registry: ScenicIdRegistry)
    requires
        a.review is Some,
        lists_review(item, a, registry),
    ensures
        ({
            let rv = a.review->Some_0;
            &&& item.review_pda == a.key
            &&& item.scenic_id == rv.scenic_spot_id
            &&& item.review_id == rv.review_id
            &&& item.content@ == rv.content@
            &&& item.rating_bits == rv.rating_bits
            &&& item.status == rv.status
            &&& item.reward_amount == rv.reward_amount
            &&& item.submit_time == rv.submit_time
        }),
        registry.name_of(a.review->Some_0.scenic_spot_id) matches Some(n) ==> item.scenic_name@ == n,
{
}

/// A user's review list holds the user's own reviews only: each listed
/// account is a read-only program account holding data, whose review was
/// written by that user, and it is one of the accounts handed in.
pub proof fn law_review_list_holds_own_reviews(accounts: Seq<ReviewAccount>, user_pda: Key, program_id: Key)
    ensures
        forall|k: int| 0 <= k < reviews_of_user(accounts, user_pda, program_id).len() ==> {
            let a = #[trigger] reviews_of_user(accounts, user_pda, program_id)[k];
            &&& a.owner == program_id
            &&& a.data_len != 0
            &&& !a.is_writable
            &&& a.review matches Some(rv) && rv.user_pda == user_pda
            &&& accounts.contains(a)
        },
        reviews_of_user(accounts, user_pda, program_id).len() <= accounts.len(),
    decreases accounts.len(),
{
    if accounts.len() > 0 {
        law_review_list_holds_own_reviews(accounts.drop_last(), user_pda, program_id);
        let prev = reviews_of_user(accounts.drop_last(), user_pda, program_id);
        assert forall|k: int| 0 <= k < prev.len() implies accounts.contains(#[trigger] prev[k]) by {
            let j = choose|j: int| 0 <= j < accounts.drop_last().len() && accounts.drop_last()[j] == prev[k];
            assert(accounts[j] == prev[k]);
        }
        assert(accounts[accounts.len() - 1] == accounts.last());
    }
}

/// Each item of the coupon query shows the coupon it lists as stored: its
/// id, owner, purchase id, used flag and times.
pub proof fn law_coupon_item_shows_its_coupon(info: UserCouponInfo, c: UserCoupon)
    requires
        shows_coupon(info, c),
    ensures
        info.coupon_id@ == c.coupon_id@,
        info.user_pda == c.user_pda,
        info.purchase_id == c.purchase_id,
        info.is_used == c.is_used,
        info.obtain_time == c.obtain_time,
        info.expire_time == c.expire_time,
        info.redeem_time == c.redeem_time,
{
}

/// The four default coupons carry fixed terms: COUPON_001, COUPON_002 and
/// COUPON_003 cost 10 tokens and COUPON_004 20 tokens, with supplies of 100,
/// 50, 200 and 80, the whole supply left, valid for thirty days.
pub proof fn law_default_coupon_terms(t: CouponTemplate, k: int, admin: Key, expire_date: i64)
    requires
        0 <= k < 4,
        is_default_coupon(t, k, admin, expire_date),
    ensures
        t.admin == admin,
        t.expire_date == expire_date,
        t.valid_duration == 2_592_000,
        t.remaining == t.total_supply,
        k == 0 ==> t.coupon_id@ == "COUPON_001"@ && t.name@ == "黄山门票8折券"@
            && t.token_price == 10_000_000_000 && t.total_supply == 100,
        k == 1 ==> t.coupon_id@ == "COUPON_002"@ && t.name@ == "泰山导览免费券"@
            && t.token_price == 10_000_000_000 && t.total_supply == 50,
        k == 2 ==> t.coupon_id@ == "COUPON_003"@ && t.name@ == "桂林游船折扣券"@
            && t.token_price == 10_000_000_000 && t.total_supply == 200,
        k == 3 ==> t.coupon_id@ == "COUPON_004"@ && t.name@ == "故宫文创满减券"@
            && t.token_price == 20_000_000_000 && t.total_supply == 80,
{
}

/// The default spots carry fixed ids, names and locations: 1 Eiffel Tower
/// (Paris), 2 Huangshan (Anhui), 3 Taj Mahal (Agra), 4 Sydney Opera House, 5
/// Statue of Liberty (New York), 6 Mount Fuji (Honshu), 7 Santorini (Greece)
/// and 8 Giza Pyramids (Cairo), each created active, with a rating of zero
/// and no accepted review.
pub proof fn law_default_spot_terms(s: ScenicSpot, k: int, admin: Key, now: i64)
    requires
        0 <= k < 8,
        is_default_spot_account(s, k, true, admin, now),
    ensures
        s.id == k + 1,
        s.admin == admin,
        s.created_at == now,
        s.is_active,
        s.base_rating_bits == 0,
        s.accepted_review_count == 0,
        k == 0 ==> s.name@ == "Eiffel Tower"@ && s.location@ == "Paris, France"@,
        k == 1 ==> s.name@ == "Huangshan"@ && s.location@ == "Anhui, China"@,
        k == 2 ==> s.name@ == "Taj Mahal"@ && s.location@ == "Agra, India"@,
        k == 3 ==> s.name@ == "Sydney Opera House"@ && s.location@ == "Sydney, Australia"@,
        k == 4 ==> s.name@ == "Statue of Liberty"@ && s.location@ == "New York, USA"@,
        k == 5 ==> s.name@ == "Mount Fuji"@ && s.location@ == "Honshu, Japan"@,
        k == 6 ==> s.name@ == "Santorini"@ && s.location@ == "Greece"@,
        k == 7 ==> s.name@ == "Giza Pyramids"@ && s.location@ == "Cairo, Egypt"@,
{
}

/// Levels pay 5, 10 and 15 tokens per accepted review at levels 1, 2 and 3
/// (5 at any other level), and the only upgrades are 1 to 2 for 20 tokens,
/// 2 to 3 for 30 and 1 to 3 for 40.
pub proof fn law_level_terms(level: u8, current: u8, new_level: u8)
    ensures
        reward_for_level(level) == if level == 2 {
            10_000_000_000u64
        } else if level == 3 {
            15_000_000_000u64
        } else {
            5_000_000_000u64
        },
        upgrade_cost(current, new_level) == if current == 1 && new_level == 2 {
            Some(20_000_000_000u64)
        } else if current == 2 && new_level == 3 {
            Some(30_000_000_000u64)
        } else if current == 1 && new_level == 3 {
            Some(40_000_000_000u64)
        } else {
            None
        },
{
}

/// A reward per review stored in whole tokens (below 0.001 token, and not
/// zero) is paid scaled to the smallest unit, a billion per token; any other
/// stored reward is paid as it is.
pub proof fn law_reward_scaling(reward: u64)
    ensures
        0 < reward < 1_000_000 ==> corrected_reward(reward) == reward * 1_000_000_000,
        (reward == 0 || reward >= 1_000_000) ==> corrected_reward(reward) == reward,
{
    if 0 < reward < 1_000_000 {
        assert(reward * 1_000_000_000 < 1_000_000_000_000_000) by (nonlinear_arith)
            requires reward < 1_000_000;
    }
}

/// The oracle's verdict codes: 1 accepts, 2 rejects, and no other code is a
/// verdict.
pub proof fn law_verdict_codes(code: u8)
    ensures
        status_of_code(code) is Some <==> code == 1 || code == 2,
        code == 1 ==> status_of_code(code) == Some(ReviewStatus::Accepted),
        code == 2 ==> status_of_code(code) == Some(ReviewStatus::Rejected),
{
}

/// A spot's review statistics count each of its reviews once: the reviews
/// counted belong to the spot, each count by status holds reviews of that
/// status only, and the accepted, pending and rejected counts add up to the
/// total.
pub proof fn law_review_statistics_partition(accounts: Seq<ReviewAccount>, scenic_id: u64, program_id: Key)
    ensures
        ({
            let rs = reviews_of_spot(accounts, scenic_id, program_id);
            &&& rs.len() <= accounts.len()
            &&& forall|k: int| 0 <= k < rs.len() ==> (#[trigger] rs[k]).scenic_spot_id == scenic_id
            &&& with_status(rs, ReviewStatus::Accepted).len() + with_status(rs, ReviewStatus::Pending).len()
                + with_status(rs, ReviewStatus::Rejected).len() == rs.len()
            &&& forall|st: ReviewStatus, k: int| 0 <= k < with_status(rs, st).len()
                ==> (#[trigger] with_status(rs, st)[k]).status == st
        }),
{
    lemma_spot_reviews(accounts, scenic_id, program_id);
    let rs = reviews_of_spot(accounts, scenic_id, program_id);
    lemma_status_partition(rs);
    assert forall|st: ReviewStatus, k: int| 0 <= k < with_status(rs, st).len()
        implies (#[trigger] with_status(rs, st)[k]).status == st by {
        lemma_with_status_members(rs, st);
    }
}

proof fn lemma_spot_reviews(accounts: Seq<ReviewAccount>, scenic_id: u64, program_id: Key)
    ensures
        reviews_of_spot(accounts, scenic_id, program_id).len() <= accounts.len(),
        forall|k: int| 0 <= k < reviews_of_spot(accounts, scenic_id, program_id).len()
            ==> (#[trigger] reviews_of_spot(accounts, scenic_id, program_id)[k]).scenic_spot_id == scenic_id,
    decreases accounts.len(),
{
    if accounts.len() > 0 {
        lemma_spot_reviews(accounts.drop_last(), scenic_id, program_id);
    }
}

proof fn lemma_status_partition(rs: Seq<Review>)
    ensures
        with_status(rs, ReviewStatus::Accepted).len() + with_status(rs, ReviewStatus::Pending).len()
            + with_status(rs, ReviewStatus::Rejected).len() == rs.len(),
    decreases rs.len(),
{
    if rs.len() > 0 {
        lemma_status_partition(rs.drop_last());
    }
}

proof fn lemma_with_status_members(rs: Seq<Review>, st: ReviewStatus)
    ensures
        forall|k: int| 0 <= k < with_status(rs, st).len() ==> (#[trigger] with_status(rs, st)[k]).status == st,
    decreases rs.len(),
{
    if rs.len() > 0 {
        lemma_with_status_members(rs.drop_last(), st);
    }
}

/// Numbers are written in decimal: the text of a number is made of decimal
/// digits, has no leading zero, and reads back as the number.
pub proof fn law_decimal_text_reads_back(n: nat)
    ensures
        all_digits(decimal_text(n)),
        digits_value(decimal_text(n)) == n,
        decimal_text(n).len() >= 1,
        n >= 10 ==> decimal_text(n).len() >= 2,
        decimal_text(n).len() > 1 ==> decimal_text(n)[0] != '0',
    decreases n,
{
    lemma_digit_char(n % 10);
    if n >= 10 {
        law_decimal_text_reads_back(n / 10);
        lemma_digit_char((n / 10) % 10);
        let prev = decimal_text(n / 10);
        let t = prev.push(digit_char(n % 10));
        assert(t.drop_last() =~= prev);
        assert(t[0] == prev[0]);
        assert(t.last() as u32 - 48 == n % 10);
        assert(digits_value(t) == 10 * digits_value(prev) + (n % 10));
        assert(10 * (n / 10) + n % 10 == n);
        if prev.len() == 1 {
            assert(n / 10 < 10);
            assert(prev[0] == digit_char(n / 10));
        }
    } else {
        let t = decimal_text(n);
        assert(t.drop_last() =~= Seq::<char>::empty());
        assert(t.last() as u32 - 48 == n);
        assert(digits_value(t) == 10 * digits_value(t.drop_last()) + n);
    }
}

proof fn lemma_digit_char(d: nat)
    requires
        d < 10,
    ensures
        digit_char(d) as u32 == 48 + d,
        '0' <= digit_char(d) <= '9',
        d > 0 ==> digit_char(d) != '0',
{
}

/// A new spot's texts are limited in bytes: a name of more than 50 bytes, a
/// description of more than 50 and tags of more than 100 are refused, in that
/// order; within these limits a spot is refused only for a name already
/// registered or a registry of ten spots.
pub proof fn law_scenic_spot_limits(registry: ScenicIdRegistry, name: Seq<char>, description: Seq<char>, tags: Seq<char>)
    requires
        encode_utf8(name).len() <= usize::MAX,
        encode_utf8(description).len() <= usize::MAX,
        encode_utf8(tags).len() <= usize::MAX,
    ensures
        encode_utf8(name).len() > 50 ==> create_scenic_spot_refusal(registry, name, description, tags)
            == Some(ScenicReviewError::ScenicSpotNameTooLong),
        encode_utf8(name).len() <= 50 && encode_utf8(description).len() > 50
            ==> create_scenic_spot_refusal(registry, name, description, tags)
            == Some(ScenicReviewError::ScenicSpotDescriptionTooLong),
        encode_utf8(name).len() <= 50 && encode_utf8(description).len() <= 50 && encode_utf8(tags).len() > 100
            ==> create_scenic_spot_refusal(registry, name, description, tags)
            == Some(ScenicReviewError::ScenicSpotTagsTooLong),
        encode_utf8(name).len() <= 50 && encode_utf8(description).len() <= 50 && encode_utf8(tags).len() <= 100
            ==> (create_scenic_spot_refusal(registry, name, description, tags) is None
                <==> !registry.names().contains(name) && registry.total_count < 10),
{
}

/// A spot's rating is a float from 1.0 to 5.0: an update is refused as an
/// invalid rating exactly when the bits lie outside those of 1.0
/// (`0x3ff0_0000_0000_0000`) and 5.0 (`0x4014_0000_0000_0000`).
pub proof fn law_spot_rating_is_one_to_five(registry: ScenicIdRegistry, scenic_id: u64, bits: u64, one_decimal: bool)
    ensures
        update_rating_refusal(registry, scenic_id, bits, one_decimal) == Some(ScenicReviewError::InvalidRating)
            <==> !(0x3ff0_0000_0000_0000 <= bits <= 0x4014_0000_0000_0000),
{
}

/// A detail keeps at most twenty sources, the first ones handed in that hold
/// data of the program, in order.
pub proof fn law_detail_sources(sources: Seq<SourceAccount>, program_id: Key)
    ensures
        first_twenty(program_accounts(sources, program_id)).len()
            == if program_accounts(sources, program_id).len() > 20 { 20 } else { program_accounts(sources, program_id).len() },
        forall|i: int| 0 <= i < first_twenty(program_accounts(sources, program_id)).len()
            ==> #[trigger] first_twenty(program_accounts(sources, program_id))[i] == program_accounts(sources, program_id)[i],
        forall|i: int| 0 <= i < program_accounts(sources, program_id).len()
            ==> exists|j: int| 0 <= j < sources.len() && sources[j].key == #[trigger] program_accounts(sources, program_id)[i]
                && sources[j].owner == program_id && sources[j].data_len > 0,
    decreases sources.len(),
{
    if sources.len() > 0 {
        law_detail_sources(sources.drop_last(), program_id);
        let prev = program_accounts(sources.drop_last(), program_id);
        assert forall|i: int| 0 <= i < program_accounts(sources, program_id).len()
            implies exists|j: int| 0 <= j < sources.len() && sources[j].key == #[trigger] program_accounts(sources, program_id)[i]
                && sources[j].owner == program_id && sources[j].data_len > 0 by {
            if i < prev.len() {
                assert(program_accounts(sources, program_id)[i] == prev[i]);
                let j = choose|j: int| 0 <= j < sources.drop_last().len() && sources.drop_last()[j].key == prev[i]
                    && sources.drop_last()[j].owner == program_id && sources.drop_last()[j].data_len > 0;
                assert(sources[j] == sources.drop_last()[j]);
            } else {
                assert(sources[sources.len() - 1] == sources.last());
            }
        }
    }
}

/// A coupon is redeemable up to its expiry and not after: an unused coupon
/// named by its own id and purchase id is refused as expired exactly when
/// the time is past its expiry.
pub proof fn law_coupon_expiry_bounds_redemption(coupon: UserCoupon, ctx: RedeemCouponContext)
    requires
        !coupon.is_used,
    ensures
        redeem_coupon_refusal(coupon, coupon.coupon_id@, coupon.purchase_id, ctx)
            == Some(InstructionError::Scenic(ScenicReviewError::CouponExpired))
            <==> ctx.now > coupon.expire_time,
{
}

/// An unused coupon is redeemed only under its own id and purchase id.
pub proof fn law_coupon_redeemed_under_its_own_id(
    coupon: UserCoupon,
    coupon_id: Seq<char>,
    purchase_id: u64,
    ctx: RedeemCouponContext,
)
    requires
        !coupon.is_used,
        coupon.coupon_id@ != coupon_id || coupon.purchase_id != purchase_id,
    ensures
        redeem_coupon_refusal(coupon, coupon_id, purchase_id, ctx)
            == Some(InstructionError::Scenic(ScenicReviewError::InvalidCouponId)),
{
}

/// The coupon query lists every coupon of the user: when each address in the
/// user's list is handed in as a program account holding a coupon, the query
/// lists all of them, in the order of the list, each as stored.
pub proof fn law_coupon_query_lists_every_coupon(coupons: Seq<Key>, accounts: Seq<CouponAccount>, program_id: Key)
    requires
        forall|i: int| 0 <= i < coupons.len() ==>
            (first_position(account_keys(accounts), #[trigger] coupons[i]) matches Some(j)
                && accounts[j].owner == program_id && accounts[j].coupon is Some),
    ensures
        listed_coupons(coupons, accounts, program_id) matches Ok(cs) && cs.len() == coupons.len()
            && forall|i: int| 0 <= i < coupons.len() ==> {
                let j = first_position(account_keys(accounts), #[trigger] coupons[i])->Some_0;
                cs[i] == accounts[j].coupon->Some_0
            },
    decreases coupons.len(),
{
    if coupons.len() > 0 {
        let prefix = coupons.drop_last();
        assert forall|i: int| 0 <= i < prefix.len() implies
            (first_position(account_keys(accounts), #[trigger] prefix[i]) matches Some(j)
                && accounts[j].owner == program_id && accounts[j].coupon is Some) by {
            assert(prefix[i] == coupons[i]);
        }
        law_coupon_query_lists_every_coupon(prefix, accounts, program_id);
        assert(coupons[coupons.len() - 1] == coupons.last());
        let cs = listed_coupons(coupons, accounts, program_id)->Ok_0;
        assert forall|i: int| 0 <= i < coupons.len() implies {
            let j = first_position(account_keys(accounts), #[trigger] coupons[i])->Some_0;
            cs[i] == accounts[j].coupon->Some_0
        } by {
            if i < prefix.len() {
                assert(prefix[i] == coupons[i]);
            }
        }
    }
}

/// The review list lists every review of the user: when every account handed
/// in is a read-only program account holding data with a review written by
/// the user, the list holds all of them, in order.
pub proof fn law_review_list_lists_every_review(accounts: Seq<ReviewAccount>, user_pda: Key, program_id: Key)
    requires
        forall|i: int| 0 <= i < accounts.len() ==> {
            let a = #[trigger] accounts[i];
            &&& a.owner == program_id
            &&& a.data_len != 0
            &&& !a.is_writable
            &&& a.review matches Some(rv) && rv.user_pda == user_pda
        },
    ensures
        reviews_of_user(accounts, user_pda, program_id) == accounts,
    decreases accounts.len(),
{
    if accounts.len() > 0 {
        let prefix = accounts.drop_last();
        assert forall|i: int| 0 <= i < prefix.len() implies {
            let a = #[trigger] prefix[i];
            &&& a.owner == program_id
            &&& a.data_len != 0
            &&& !a.is_writable
            &&& a.review matches Some(rv) && rv.user_pda == user_pda
        } by {
            assert(prefix[i] == accounts[i]);
        }
        law_review_list_lists_every_review(prefix, user_pda, program_id);
        assert(accounts[accounts.len() - 1] == accounts.last());
        assert(prefix.push(accounts.last()) =~= accounts);
    }
}

/// A spot's statistics count every review of the spot: when every account
/// handed in is a read-only program account holding data with a review of
/// the spot, all of them are counted, in order.
pub proof fn law_statistics_count_every_review(accounts: Seq<ReviewAccount>, scenic_id: u64, program_id: Key)
    requires
        forall|i: int| 0 <= i < accounts.len() ==> {
            let a = #[trigger] accounts[i];
            &&& a.owner == program_id
            &&& a.data_len != 0
            &&& !a.is_writable
            &&& a.review matches Some(rv) && rv.scenic_spot_id == scenic_id
        },
    ensures
        reviews_of_spot(accounts, scenic_id, program_id).len() == accounts.len(),
        forall|i: int| 0 <= i < accounts.len()
            ==> #[trigger] reviews_of_spot(accounts, scenic_id, program_id)[i] == accounts[i].review->Some_0,
    decreases accounts.len(),
{
    if accounts.len() > 0 {
        let prefix = accounts.drop_last();
        assert forall|i: int| 0 <= i < prefix.len() implies {
            let a = #[trigger] prefix[i];
            &&& a.owner == program_id
            &&& a.data_len != 0
            &&& !a.is_writable
            &&& a.review matches Some(rv) && rv.scenic_spot_id == scenic_id
        } by {
            assert(prefix[i] == accounts[i]);
        }
        law_statistics_count_every_review(prefix, scenic_id, program_id);
        assert(accounts[accounts.len() - 1] == accounts.last());
        assert forall|i: int| 0 <= i < accounts.len()
            implies #[trigger] reviews_of_spot(accounts, scenic_id, program_id)[i] == accounts[i].review->Some_0 by {
            if i < prefix.len() {
                assert(prefix[i] == accounts[i]);
            }
        }
    }
}

/// Star counts weigh each rating by its stars: the weighted total lies
/// between one and five times the number of ratings counted, and counting
/// one more rating of `r` stars (1 to 5) adds `r` to the total and one to
/// the number counted, while any other rating adds nothing to either.
pub proof fn law_star_totals(before: ScenicReviewSummary, after: ScenicReviewSummary, rating: u8)
    requires
        after.five_star_count == before.five_star_count + (if rating == 5 { 1int } else { 0 }),
        after.four_star_count == before.four_star_count + (if rating == 4 { 1int } else { 0 }),
        after.three_star_count == before.three_star_count + (if rating == 3 { 1int } else { 0 }),
        after.two_star_count == before.two_star_count + (if rating == 2 { 1int } else { 0 }),
        after.one_star_count == before.one_star_count + (if rating == 1 { 1int } else { 0 }),
    ensures
        star_count(before) <= star_total(before) <= 5 * star_count(before),
        star_total(after) == star_total(before) + (if 1 <= rating <= 5 { rating as int } else { 0 }),
        star_count(after) == star_count(before) + (if 1 <= rating <= 5 { 1int } else { 0 }),
{
}

/// Correcting a spot's count of accepted reviews sets it: afterwards the
/// spot's first counter holds the corrected count, and every other spot's
/// counter is as it was.
pub proof fn law_review_count_correction_sets_the_count(s: Seq<ScenicAcceptedReviews>, id: u64, count: u32)
    ensures
        first_position(accepted_ids(accepted_set(s, id, count)), id) matches Some(i)
            && accepted_set(s, id, count)[i].count == count,
        forall|j: int| 0 <= j < s.len() && s[j].scenic_id != id ==> #[trigger] accepted_set(s, id, count)[j] == s[j],
        accepted_set(s, id, count).len() <= s.len() + 1,
{
    let after = accepted_set(s, id, count);
    match first_position(accepted_ids(s), id) {
        Some(i) => {
            assert(is_first_position(accepted_ids(s), id, i));
            assert forall|j: int| 0 <= j < i implies #[trigger] accepted_ids(after)[j] != id by {
                assert(accepted_ids(after)[j] == accepted_ids(s)[j]);
            }
            assert(is_first_position(accepted_ids(after), id, i));
            lemma_first_position(accepted_ids(after), id, i);
        },
        None => {
            assert forall|j: int| 0 <= j < s.len() implies #[trigger] accepted_ids(after)[j] != id by {
                if accepted_ids(s)[j] == id {
                    lemma_occurrence_has_position(accepted_ids(s), id, j);
                }
            }
            assert(is_first_position(accepted_ids(after), id, s.len() as int));
            lemma_first_position(accepted_ids(after), id, s.len() as int);
        },
    }
}

} // verus!
