use vstd::prelude::*;

verus! {

/// Every failure of the program, each a distinct condition.
#[derive(Clone, Copy, Debug, PartialEq, Eq, Structural)]
pub enum YieldOptimizerError {
    /// Insufficient funds in the user account.
    InsufficientFunds,
    /// The new protocol does not pay more than the current one.
    LowerYieldRate,
    /// The cooldown since the last reallocation has not elapsed.
    ReallocationTooFrequent,
    /// The withdrawal from the current protocol failed.
    WithdrawalFailed,
    /// The deposit into the new protocol failed; the withdrawn funds are not re-deposited.
    DepositFailed,
    /// A reallocation for this owner is already in progress.
    ReentrancyAttempt,
    /// The protocol is not supported.
    UnsupportedProtocol,
    /// The caller is not the governance authority.
    UnauthorizedAccess,
    /// The owner's ledger already exists.
    AlreadyInitialized,
    /// A fee rate above one hundred percent.
    InvalidFeeRate,
}

impl YieldOptimizerError {
    /// The message shown for the error.
    pub fn message(&self) -> (r: &'static str) {
        match self {
            YieldOptimizerError::InsufficientFunds => "Insufficient funds in the user account.",
            YieldOptimizerError::LowerYieldRate => "Yield rate is lower in the new protocol.",
            YieldOptimizerError::ReallocationTooFrequent => "Reallocation too frequent, try again later.",
            YieldOptimizerError::WithdrawalFailed => "Failed to withdraw from the current protocol.",
            YieldOptimizerError::DepositFailed => "Failed to deposit to the new protocol.",
            YieldOptimizerError::ReentrancyAttempt => "Reentrancy attempt detected.",
            YieldOptimizerError::UnsupportedProtocol => "Unsupported protocol.",
            YieldOptimizerError::UnauthorizedAccess => "Unauthorized access.",
            YieldOptimizerError::AlreadyInitialized => "User funds account already initialized.",
            YieldOptimizerError::InvalidFeeRate => "Fee rate exceeds 10000 basis points.",
        }
    }
}

} // verus!
