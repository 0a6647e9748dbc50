use crate::address::{keys_equal, zero_key, Key};
use crate::constants::TOKEN_DECIMALS;
use crate::error::ScenicReviewError;
use crate::state::{Config, Review, ReviewStatus, UserAccount};
use vstd::prelude::*;

verus! {

/// Only the configured administrator may create the default spots and
/// coupons or correct a spot's count of accepted reviews.
pub fn check_admin(config: &Config, signer: &Key) -> (r: Result<(), ScenicReviewError>)
    ensures
        r is Err <==> config.admin != *signer,
        r matches Err(e) ==> e == ScenicReviewError::NotAdmin,
{
    if keys_equal(&config.admin, signer) {
        Ok(())
    } else {
        Err(ScenicReviewError::NotAdmin)
    }
}

/// Only the configured oracle may rule on reviews and write spot details.
pub fn check_oracle(config: &Config, signer: &Key) -> (r: Result<(), ScenicReviewError>)
    ensures
        r is Err <==> config.oracle != *signer,
        r matches Err(e) ==> e == ScenicReviewError::InvalidOracle,
{
    if keys_equal(&config.oracle, signer) {
        Ok(())
    } else {
        Err(ScenicReviewError::InvalidOracle)
    }
}

/// Only the configured oracle may write a spot's AI summary.
pub fn check_ai_summary_author(config: &Config, signer: &Key) -> (r: Result<(), ScenicReviewError>)
    ensures
        r is Err <==> config.oracle != *signer,
        r matches Err(e) ==> e == ScenicReviewError::NotAuthorizedForAiUpdate,
{
    if keys_equal(&config.oracle, signer) {
        Ok(())
    } else {
        Err(ScenicReviewError::NotAuthorizedForAiUpdate)
    }
}

/// A review is ruled on only while pending.
pub fn check_review_pending(review: &Review) -> (r: Result<(), ScenicReviewError>)
    ensures
        r is Err <==> review.status != ReviewStatus::Pending,
        r matches Err(e) ==> e == ScenicReviewError::ReviewNotPending,
{
    if review.status == ReviewStatus::Pending {
        Ok(())
    } else {
        Err(ScenicReviewError::ReviewNotPending)
    }
}

/// Reviews come only from accounts set up for a wallet.
pub fn check_user_registered(user_account: &UserAccount) -> (r: Result<(), ScenicReviewError>)
    ensures
        r is Err <==> user_account.user_wallet == zero_key(),
        r matches Err(e) ==> e == ScenicReviewError::UserAccountNotFound,
{
    let zero: Key = [0u8; 32];
    if keys_equal(&user_account.user_wallet, &zero) {
        Err(ScenicReviewError::UserAccountNotFound)
    } else {
        Ok(())
    }
}

/// A reward goes to the wallet the user account belongs to.
pub fn check_user_wallet(user_account: &UserAccount, wallet: &Key) -> (r: Result<(), ScenicReviewError>)
    ensures
        r is Err <==> user_account.user_wallet != *wallet,
        r matches Err(e) ==> e == ScenicReviewError::InvalidUser,
{
    if keys_equal(&user_account.user_wallet, wallet) {
        Ok(())
    } else {
        Err(ScenicReviewError::InvalidUser)
    }
}

/// The program's token has nine decimals.
pub fn check_mint_decimals(decimals: u8) -> (r: Result<(), ScenicReviewError>)
    ensures
        r is Err <==> decimals != TOKEN_DECIMALS,
        r matches Err(e) ==> e == ScenicReviewError::InvalidTokenMint,
{
    if decimals == TOKEN_DECIMALS {
        Ok(())
    } else {
        Err(ScenicReviewError::InvalidTokenMint)
    }
}

/// Rewards are paid in the configured mint only.
pub fn check_config_mint(config: &Config, mint: &Key) -> (r: Result<(), ScenicReviewError>)
    ensures
        r is Err <==> config.token_mint != *mint,
        r matches Err(e) ==> e == ScenicReviewError::InvalidTokenMint,
{
    if keys_equal(&config.token_mint, mint) {
        Ok(())
    } else {
        Err(ScenicReviewError::InvalidTokenMint)
    }
}

} // verus!
