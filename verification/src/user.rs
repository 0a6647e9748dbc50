use crate::address::{base58_text, key_to_base58, Key};
use crate::constants::{
    INITIAL_LEVEL, INITIAL_REWARD, LEVEL_1_TO_3_UPGRADE_COST, LEVEL_2_REWARD,
    LEVEL_2_UPGRADE_COST, LEVEL_3_REWARD, LEVEL_3_UPGRADE_COST,
};
use crate::error::ScenicReviewError;
use crate::events::UserLevelUpgraded;
use crate::review::reviews_accounted;
use crate::state::{Config, Review, TransactionRecord, TxType, UserAccount};
use crate::text::{decimal_text, format_decimal};
use vstd::prelude::*;
use vstd::string::StringExecFns;

verus! {

/// The reward per accepted review at a level: 5, 10 and 15 tokens at levels
/// 1, 2 and 3, and 5 tokens at any other level.
pub open spec fn reward_for_level(level: u8) -> u64 {
    if level == 2 {
        LEVEL_2_REWARD
    } else if level == 3 {
        LEVEL_3_REWARD
    } else {
        INITIAL_REWARD
    }
}

fn level_reward(level: u8) -> (r: u64)
    ensures
        r == reward_for_level(level),
{
    if level == 1 {
        INITIAL_REWARD
    } else if level == 2 {
        LEVEL_2_REWARD
    } else if level == 3 {
        LEVEL_3_REWARD
    } else {
        INITIAL_REWARD
    }
}

/// The price of moving from one level to another: 20 tokens from 1 to 2,
/// 30 from 2 to 3 and 40 from 1 to 3; no other move is offered.
pub open spec fn upgrade_cost(current: u8, new_level: u8) -> Option<u64> {
    if current == 1 && new_level == 2 {
        Some(LEVEL_2_UPGRADE_COST)
    } else if current == 2 && new_level == 3 {
        Some(LEVEL_3_UPGRADE_COST)
    } else if current == 1 && new_level == 3 {
        Some(LEVEL_1_TO_3_UPGRADE_COST)
    } else {
        None
    }
}

/// A new user's account, at level 1 with a reward of 5 tokens per accepted
/// review.
pub fn create_user_account(user: Key, now: i64) -> (a: UserAccount)
    ensures
        a.user_wallet == user,
        a.level == INITIAL_LEVEL,
        a.reward_per_review == INITIAL_REWARD,
        a.total_reviews == 0,
        a.accepted_reviews == 0,
        reviews_accounted(a, Seq::<Review>::empty()),
        a.created_at == now,
        a.coupons@.len() == 0,
{
    UserAccount {
        user_wallet: user,
        level: INITIAL_LEVEL,
        reward_per_review: INITIAL_REWARD,
        total_reviews: 0,
        accepted_reviews: 0,
        created_at: now,
        coupons: Vec::new(),
    }
}

/// The oracle named by the administrator.
pub fn set_oracle(config: &mut Config, oracle: Key)
    ensures
        *final(config) == (Config { oracle, ..*old(config) }),
{
    config.oracle = oracle;
}

/// Sets a user's reward per review to the one of the user's level.
pub fn fix_user_reward_data(user_account: &mut UserAccount)
    ensures
        final(user_account).reward_per_review == reward_for_level(old(user_account).level),
        final(user_account).user_wallet == old(user_account).user_wallet,
        final(user_account).level == old(user_account).level,
        final(user_account).total_reviews == old(user_account).total_reviews,
        final(user_account).accepted_reviews == old(user_account).accepted_reviews,
        final(user_account).created_at == old(user_account).created_at,
        final(user_account).coupons == old(user_account).coupons,
{
    user_account.reward_per_review = level_reward(user_account.level);
}

/// What an upgrade reads besides its argument.
pub struct UpgradeContext {
    pub user: Key,
    pub user_account_key: Key,
    pub user_token_balance: u64,
    pub now: i64,
}

/// What an upgrade asks for: the payment of `cost` from the user's token
/// account to the treasury, the record of the expense, and the event.
pub struct UpgradeOutcome {
    pub cost: u64,
    pub tx_record: TransactionRecord,
    pub event: UserLevelUpgraded,
}

/// A user's move to a higher level, paid from the user's tokens; the reward
/// per review becomes the new level's.
pub fn upgrade_user_level(user_account: &mut UserAccount, new_level: u8, ctx: &UpgradeContext) -> (r: Result<UpgradeOutcome, ScenicReviewError>)
    ensures
        r is Err <==> upgrade_cost(old(user_account).level, new_level) is None
            || ctx.user_token_balance < upgrade_cost(old(user_account).level, new_level)->Some_0,
        r matches Err(e) ==> {
            &&& e == if upgrade_cost(old(user_account).level, new_level) is None {
                ScenicReviewError::InvalidUpgradePath
            } else {
                ScenicReviewError::InsufficientFundsForUpgrade
            }
            &&& *final(user_account) == *old(user_account)
        },
        r matches Ok(out) ==> {
            let cur = old(user_account).level;
            let cost = upgrade_cost(cur, new_level)->Some_0;
            &&& out.cost == cost
            &&& final(user_account).level == new_level
            &&& final(user_account).reward_per_review == reward_for_level(new_level)
            &&& final(user_account).user_wallet == old(user_account).user_wallet
            &&& final(user_account).total_reviews == old(user_account).total_reviews
            &&& final(user_account).accepted_reviews == old(user_account).accepted_reviews
            &&& final(user_account).created_at == old(user_account).created_at
            &&& final(user_account).coupons == old(user_account).coupons
            &&& out.tx_record.user_pda == ctx.user_account_key
            &&& out.tx_record.tx_type == TxType::Expense
            &&& out.tx_record.tx_name@ == decimal_text(cur as nat) + "_up_"@ + decimal_text(new_level as nat) + "_consume"@
            &&& out.tx_record.amount == cost
            &&& out.tx_record.related_id@ == "level_up_"@ + decimal_text(cur as nat) + "_"@ + decimal_text(new_level as nat)
            &&& out.tx_record.timestamp == ctx.now
            &&& out.tx_record.tx_hash@ == base58_text(ctx.user)
            &&& out.event == (UserLevelUpgraded {
                user: ctx.user,
                previous_level: cur,
                new_level,
                tokens_spent: cost,
                timestamp: ctx.now,
            })
        },
{
    let current_level = user_account.level;
    let tokens_needed = if current_level == 1 && new_level == 2 {
        LEVEL_2_UPGRADE_COST
    } else if current_level == 2 && new_level == 3 {
        LEVEL_3_UPGRADE_COST
    } else if current_level == 1 && new_level == 3 {
        LEVEL_1_TO_3_UPGRADE_COST
    } else {
        return Err(ScenicReviewError::InvalidUpgradePath);
    };
    if ctx.user_token_balance < tokens_needed {
        return Err(ScenicReviewError::InsufficientFundsForUpgrade);
    }
    user_account.level = new_level;
    user_account.reward_per_review = level_reward(new_level);
    let cur_text = format_decimal(current_level as u64);
    let new_text = format_decimal(new_level as u64);
    let mut tx_name = cur_text.clone();
    tx_name.append("_up_");
    tx_name.append(new_text.as_str());
    tx_name.append("_consume");
    let mut related_id = String::from_str("level_up_");
    related_id.append(cur_text.as_str());
    related_id.append("_");
    related_id.append(new_text.as_str());
    let tx_record = TransactionRecord {
        user_pda: ctx.user_account_key,
        tx_type: TxType::Expense,
        tx_name,
        amount: tokens_needed,
        related_id,
        timestamp: ctx.now,
        tx_hash: key_to_base58(&ctx.user),
    };
    Ok(UpgradeOutcome {
        cost: tokens_needed,
        tx_record,
        event: UserLevelUpgraded {
            user: ctx.user,
            previous_level: current_level,
            new_level,
            tokens_spent: tokens_needed,
            timestamp: ctx.now,
        },
    })
}

} // verus!
