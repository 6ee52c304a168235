//! A custodial yield optimizer: it keeps a per-owner ledger, compares the
//! yield rates of two protocols and moves the owner's funds to the better one,
//! net of a governance-controlled fee.
//!
//! The library holds every decision of the program. What needs the chain
//! (the clock, the rate oracle, the token transfers, account storage) is done
//! by the caller, which drives a reallocation through [`optimize_yield`] and
//! [`OptimizeYield::step`], performing each returned [`Action`].

pub mod error;
pub mod events;
pub mod fees;
pub mod guard;
pub mod instructions;
pub mod laws;
pub mod reallocation;
pub mod state;

pub use error::YieldOptimizerError;
pub use events::{FundsDeposited, FundsReallocated, FundsWithdrawn, ProgramEvent, YieldRateFetched};
pub use fees::{collect_fees, FEE_RATE_DENOMINATOR};
pub use guard::ReentrancyGuard;
pub use instructions::{initialize_user_funds, update_governance, Governance, InitializeUserFunds};
pub use reallocation::{
    optimize_yield, Action, DepositFunds, OptimizeYield, Reply, Stage, WithdrawFunds,
    MIN_REALLOCATION_PERIOD,
};
pub use state::{GovernanceAccount, Protocol, Pubkey, PubkeyAmount, UserFunds, MAX_ASSETS};
