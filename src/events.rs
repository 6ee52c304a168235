use vstd::prelude::*;
use crate::state::Pubkey;

verus! {

/// A completed reallocation.
#[derive(Clone, Copy, Debug, PartialEq, Eq, Structural)]
pub struct FundsReallocated {
    pub user: Pubkey,
    pub from_protocol: Pubkey,
    pub to_protocol: Pubkey,
    pub amount: u64,
    pub timestamp: i64,
}

/// A yield rate read for a protocol.
#[derive(Clone, Copy, Debug, PartialEq, Eq, Structural)]
pub struct YieldRateFetched {
    pub protocol: Pubkey,
    pub rate: u64,
}

/// Funds taken out of a protocol.
#[derive(Clone, Copy, Debug, PartialEq, Eq, Structural)]
pub struct FundsWithdrawn {
    pub user: Pubkey,
    pub protocol: Pubkey,
    pub amount: u64,
}

/// Funds put into a protocol.
#[derive(Clone, Copy, Debug, PartialEq, Eq, Structural)]
pub struct FundsDeposited {
    pub user: Pubkey,
    pub protocol: Pubkey,
    pub amount: u64,
}

/// An event for outside observers, in the order the program emits them.
#[derive(Clone, Copy, Debug, PartialEq, Eq, Structural)]
pub enum ProgramEvent {
    YieldRateFetched(YieldRateFetched),
    FundsWithdrawn(FundsWithdrawn),
    FundsDeposited(FundsDeposited),
    FundsReallocated(FundsReallocated),
}

} // verus!
