use vstd::prelude::*;

verus! {

/// First number of the program's own error codes.
pub const ERROR_CODE_OFFSET: u32 = 6000;

/// Why an instruction was refused.
#[derive(Clone, Copy, Debug, PartialEq, Eq, Structural)]
pub enum SpokeError {
    // Authority & Access
    /// Unauthorized: caller is not the spoke authority
    Unauthorized,
    /// Unauthorized: caller is not the designated keeper
    UnauthorizedKeeper,
    // Pause
    /// Spoke protocol is currently paused
    ProtocolPaused,
    // Asset Config
    /// Asset deposits are currently disabled
    DepositsDisabled,
    /// Deposit exceeds maximum allowed for this asset
    DepositCapExceeded,
    /// Asset is not registered on this spoke
    AssetNotRegistered,
    /// Asset is already registered
    AssetAlreadyRegistered,
    /// Maximum number of supported assets reached
    MaxAssetsReached,
    // Deposits & Withdrawals
    /// Deposit amount must be greater than zero
    ZeroDeposit,
    /// Withdrawal amount must be greater than zero
    ZeroWithdrawal,
    /// Insufficient deposited balance for withdrawal
    InsufficientDeposit,
    /// Withdrawal not approved by hub
    WithdrawalNotApproved,
    /// Withdrawal amount exceeds hub-approved limit
    WithdrawalExceedsApproval,
    // Oracle
    /// Oracle price data is stale
    OracleStale,
    /// Oracle price confidence interval too wide
    OracleConfidenceTooWide,
    /// Oracle returned invalid or zero price
    OracleInvalidPrice,
    // Hub Communication
    /// Invalid hub message: could not deserialize payload
    InvalidHubMessage,
    /// Hub message from unauthorized emitter
    UnauthorizedEmitter,
    /// Hub message chain ID does not match configuration
    InvalidHubChainId,
    /// Message sequence already processed
    MessageAlreadyProcessed,
    /// Message has already been sent
    MessageAlreadySent,
    // Liquidation
    /// Position is healthy: liquidation not allowed
    PositionHealthy,
    /// Liquidation amount exceeds position size
    LiquidationTooLarge,
    /// Liquidation reward calculation overflow
    LiquidationRewardOverflow,
    // Math
    /// Arithmetic overflow in calculation
    MathOverflow,
    /// Division by zero
    DivisionByZero,
    // Timelock
    /// Timelock period has not elapsed
    TimelockNotElapsed,
}

impl SpokeError {
    /// Position of the variant in the declaration, from zero.
    pub open spec fn index(self) -> u32 {
        match self {
            SpokeError::Unauthorized => 0,
            SpokeError::UnauthorizedKeeper => 1,
            SpokeError::ProtocolPaused => 2,
            SpokeError::DepositsDisabled => 3,
            SpokeError::DepositCapExceeded => 4,
            SpokeError::AssetNotRegistered => 5,
            SpokeError::AssetAlreadyRegistered => 6,
            SpokeError::MaxAssetsReached => 7,
            SpokeError::ZeroDeposit => 8,
            SpokeError::ZeroWithdrawal => 9,
            SpokeError::InsufficientDeposit => 10,
            SpokeError::WithdrawalNotApproved => 11,
            SpokeError::WithdrawalExceedsApproval => 12,
            SpokeError::OracleStale => 13,
            SpokeError::OracleConfidenceTooWide => 14,
            SpokeError::OracleInvalidPrice => 15,
            SpokeError::InvalidHubMessage => 16,
            SpokeError::UnauthorizedEmitter => 17,
            SpokeError::InvalidHubChainId => 18,
            SpokeError::MessageAlreadyProcessed => 19,
            SpokeError::MessageAlreadySent => 20,
            SpokeError::PositionHealthy => 21,
            SpokeError::LiquidationTooLarge => 22,
            SpokeError::LiquidationRewardOverflow => 23,
            SpokeError::MathOverflow => 24,
            SpokeError::DivisionByZero => 25,
            SpokeError::TimelockNotElapsed => 26,
        }
    }

    /// The program error number: the offset plus the variant's position.
    pub fn code(&self) -> (code: u32)
        ensures
            code == ERROR_CODE_OFFSET + self.index(),
    {
        let index: u32 = match self {
            SpokeError::Unauthorized => 0,
            SpokeError::UnauthorizedKeeper => 1,
            SpokeError::ProtocolPaused => 2,
            SpokeError::DepositsDisabled => 3,
            SpokeError::DepositCapExceeded => 4,
            SpokeError::AssetNotRegistered => 5,
            SpokeError::AssetAlreadyRegistered => 6,
            SpokeError::MaxAssetsReached => 7,
            SpokeError::ZeroDeposit => 8,
            SpokeError::ZeroWithdrawal => 9,
            SpokeError::InsufficientDeposit => 10,
            SpokeError::WithdrawalNotApproved => 11,
            SpokeError::WithdrawalExceedsApproval => 12,
            SpokeError::OracleStale => 13,
            SpokeError::OracleConfidenceTooWide => 14,
            SpokeError::OracleInvalidPrice => 15,
            SpokeError::InvalidHubMessage => 16,
            SpokeError::UnauthorizedEmitter => 17,
            SpokeError::InvalidHubChainId => 18,
            SpokeError::MessageAlreadyProcessed => 19,
            SpokeError::MessageAlreadySent => 20,
            SpokeError::PositionHealthy => 21,
            SpokeError::LiquidationTooLarge => 22,
            SpokeError::LiquidationRewardOverflow => 23,
            SpokeError::MathOverflow => 24,
            SpokeError::DivisionByZero => 25,
            SpokeError::TimelockNotElapsed => 26,
        };
        ERROR_CODE_OFFSET + index
    }
}

} // verus!
