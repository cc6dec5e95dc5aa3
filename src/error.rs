use vstd::prelude::*;

verus! {

/// Every way an operation of the settlement core can be refused.
#[derive(Debug, Clone, Copy, PartialEq, Eq, Structural)]
pub enum ZentroError {
    MarketNotActive,
    MarketAlreadyResolved,
    InsufficientFunds,
    InvalidPredictionAmount,
    ResolutionTimeNotReached,
    UnauthorizedResolution,
    InvalidOutcome,
    NoPositionFound,
    CannotClaimLosingPosition,
    WinningsAlreadyClaimed,
    InsufficientCreationFee,
    InvalidMarketDuration,
    MarketTitleTooLong,
    MarketDescriptionTooLong,
    InvalidOracleAuthority,
    OracleResolutionPending,
    PredictionDeadlinePassed,
    CannotCancelResolvedMarket,
    UnauthorizedCancellation,
    MarketHasActivePredictions,
    InvalidFeeRate,
    PoolInactive,
    InvalidAmount,
    MathOverflow,
    ArithmeticOverflow,
    InsufficientLiquidity,
    MarketNotResolved,
    MarketClosed,
    InvalidMarket,
    InvalidUser,
    AlreadyClaimed,
    NotWinningPosition,
    NoWinningShares,
    NoWinningsToClaim,
    InsufficientVaultBalance,
    InvalidEndTime,
    TitleTooLong,
    DescriptionTooLong,
    MarketIdTooLong,
    InvalidBetAmount,
    BetAmountTooLow,
    BetAmountTooHigh,
    MarketExpired,
    MarketNotEnded,
}

impl ZentroError {
    /// The human-readable message of the error.
    pub fn message(&self) -> String {
        let s: &str = match self {
            ZentroError::MarketNotActive => "Market is not active",
            ZentroError::MarketAlreadyResolved => "Market has already been resolved",
            ZentroError::InsufficientFunds => "Insufficient funds for prediction",
            ZentroError::InvalidPredictionAmount => "Invalid prediction amount",
            ZentroError::ResolutionTimeNotReached => "Market resolution time has not passed",
            ZentroError::UnauthorizedResolution => "Only market creator can resolve",
            ZentroError::InvalidOutcome => "Invalid outcome provided",
            ZentroError::NoPositionFound => "User has no position in this market",
            ZentroError::CannotClaimLosingPosition => "Cannot claim winnings from losing position",
            ZentroError::WinningsAlreadyClaimed => "Winnings already claimed",
            ZentroError::InsufficientCreationFee => "Market creation fee insufficient",
            ZentroError::InvalidMarketDuration => "Invalid market duration",
            ZentroError::MarketTitleTooLong => "Market title too long",
            ZentroError::MarketDescriptionTooLong => "Market description too long",
            ZentroError::InvalidOracleAuthority => "Invalid oracle authority",
            ZentroError::OracleResolutionPending => "Oracle has not provided resolution",
            ZentroError::PredictionDeadlinePassed => "Prediction deadline has passed",
            ZentroError::CannotCancelResolvedMarket => "Cannot cancel resolved market",
            ZentroError::UnauthorizedCancellation => "Only market creator can cancel",
            ZentroError::MarketHasActivePredictions => "Market has active predictions",
            ZentroError::InvalidFeeRate => "Fee rate exceeds the maximum of 1000 basis points",
            ZentroError::PoolInactive => "Liquidity pool is inactive",
            ZentroError::InvalidAmount => "Invalid amount",
            ZentroError::MathOverflow => "Math overflow",
            ZentroError::ArithmeticOverflow => "Arithmetic overflow",
            ZentroError::InsufficientLiquidity => "Insufficient liquidity",
            ZentroError::MarketNotResolved => "Market is not resolved",
            ZentroError::MarketClosed => "Market is closed",
            ZentroError::InvalidMarket => "Position belongs to another market",
            ZentroError::InvalidUser => "Position belongs to another user",
            ZentroError::AlreadyClaimed => "Winnings already claimed",
            ZentroError::NotWinningPosition => "Position is not on the winning outcome",
            ZentroError::NoWinningShares => "No winning shares",
            ZentroError::NoWinningsToClaim => "No winnings to claim",
            ZentroError::InsufficientVaultBalance => "Insufficient vault balance",
            ZentroError::InvalidEndTime => "End time must be in the future",
            ZentroError::TitleTooLong => "Title too long",
            ZentroError::DescriptionTooLong => "Description too long",
            ZentroError::MarketIdTooLong => "Market id too long",
            ZentroError::InvalidBetAmount => "Invalid bet amount",
            ZentroError::BetAmountTooLow => "Bet amount below the market minimum",
            ZentroError::BetAmountTooHigh => "Bet amount above the market maximum",
            ZentroError::MarketExpired => "Market has expired",
            ZentroError::MarketNotEnded => "Market has not ended",
        };
        s.to_owned()
    }
}

} // verus!
