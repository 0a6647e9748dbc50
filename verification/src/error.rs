use vstd::prelude::*;

verus! {

/// Why an instruction of the program refuses to run.
#[derive(Clone, Copy, Debug, PartialEq, Eq, Structural)]
pub enum ScenicReviewError {
    NotAdmin,
    InvalidOracle,
    UserAccountNotFound,
    ScenicSpotNotFound,
    ReviewNotFound,
    CouponTemplateNotFound,
    InsufficientBalance,
    CouponSoldOut,
    CouponExpired,
    DuplicateReview,
    BumpNotFound,
    InvalidCouponId,
    CouponAlreadyUsed,
    InvalidUpgradePath,
    InsufficientFundsForUpgrade,
    NotAuthorizedForAiUpdate,
    AiSummaryTooLong,
    ScenicSpotNameDuplicate,
    ScenicSpotNameTooLong,
    InvalidScenicSpotId,
    ScenicSpotLimitReached,
    ScenicDetailNotFound,
    ScenicSpotTagsTooLong,
    ScenicSpotDescriptionTooLong,
    InvalidTokenMint,
    TokenMintAlreadyInitialized,
    ReviewAlreadyProcessed,
    InvalidReviewStatus,
    ReviewNotPending,
    InvalidUser,
    ReviewContentTooLong,
    DefaultSpotsAlreadyCreated,
    DefaultCouponsAlreadyCreated,
    InvalidRating,
    InvalidRatingPrecision,
    CouponNotFound,
}

/// A failure of an instruction that is not one of the program's own
/// refusals: no program address exists for the seeds asked for, or an
/// account's data could not be decoded.
#[derive(Clone, Copy, Debug, PartialEq, Eq, Structural)]
pub enum InstructionError {
    Scenic(ScenicReviewError),
    NoProgramAddress,
    AccountDidNotDeserialize,
}

} // verus!
