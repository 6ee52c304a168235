use vstd::prelude::*;
use crate::error::YieldOptimizerError;
use crate::guard::ReentrancyGuard;
use crate::state::{GovernanceAccount, Pubkey, UserFunds};

verus! {

// ---------------------------------------------------------------------------
// Ledger creation
// ---------------------------------------------------------------------------

/// The accounts of ledger creation: the owner's ledger and guard, if they
/// exist yet, and the owner who signs.
#[derive(Clone, Debug)]
pub struct InitializeUserFunds {
    pub user_funds: Option<UserFunds>,
    pub guard: Option<ReentrancyGuard>,
    pub user: Pubkey,
}

/// Creation fails when either record of the owner already exists.
pub open spec fn initialize_result(ctx: InitializeUserFunds) -> Result<(), YieldOptimizerError> {
    if ctx.user_funds is Some || ctx.guard is Some {
        Err(YieldOptimizerError::AlreadyInitialized)
    } else {
        Ok(())
    }
}

/// `after` holds a fresh ledger and a free guard for the owner of `before`.
pub open spec fn initialized(
    before: InitializeUserFunds,
    after: InitializeUserFunds,
    now: i64,
) -> bool {
    &&& after.user == before.user
    &&& after.user_funds matches Some(f) && f.owner == before.user && f.balances@.len() == 0
        && f.current_protocol == Pubkey::zero() && f.last_reallocation == now && f.wf()
    &&& after.guard matches Some(g) && !g.in_progress()
}

/// Creates the owner's ledger, with no balances, no protocol and `now` as the
/// last reallocation time, and the owner's guard at rest.
pub fn initialize_user_funds(ctx: &mut InitializeUserFunds, now: i64) -> (r: Result<
    (),
    YieldOptimizerError,
>)
    ensures
        r == initialize_result(*old(ctx)),
        r is Ok ==> initialized(*old(ctx), *final(ctx), now),
        r is Err ==> *final(ctx) == *old(ctx),
{
    if ctx.user_funds.is_some() || ctx.guard.is_some() {
        return Err(YieldOptimizerError::AlreadyInitialized);
    }
    ctx.user_funds = Some(
        UserFunds {
            owner: ctx.user,
            balances: Vec::new(),
            current_protocol: Pubkey::default(),
            last_reallocation: now,
        },
    );
    ctx.guard = Some(ReentrancyGuard::new());
    Ok(())
}

// ---------------------------------------------------------------------------
// Governance
// ---------------------------------------------------------------------------

/// The accounts of a fee change: the governance record and the signer.
#[derive(Clone, Copy, Debug)]
pub struct Governance {
    pub governance: GovernanceAccount,
    pub authority: Pubkey,
}

/// Only the recorded authority may change the fee, and never above the whole.
pub open spec fn update_governance_result(ctx: Governance, new_fee_rate: u64) -> Result<
    (),
    YieldOptimizerError,
> {
    if ctx.authority != ctx.governance.authority {
        Err(YieldOptimizerError::UnauthorizedAccess)
    } else if new_fee_rate > crate::fees::FEE_RATE_DENOMINATOR {
        Err(YieldOptimizerError::InvalidFeeRate)
    } else {
        Ok(())
    }
}

/// Sets the platform fee, in basis points.
pub fn update_governance(ctx: &mut Governance, new_fee_rate: u64) -> (r: Result<
    (),
    YieldOptimizerError,
>)
    ensures
        r == update_governance_result(*old(ctx), new_fee_rate),
        r is Ok ==> final(ctx).governance.fee_rate == new_fee_rate
            && final(ctx).governance.authority == old(ctx).governance.authority
            && final(ctx).authority == old(ctx).authority,
        r is Err ==> *final(ctx) == *old(ctx),
        old(ctx).governance.wf() ==> final(ctx).governance.wf(),
{
    if ctx.authority != ctx.governance.authority {
        return Err(YieldOptimizerError::UnauthorizedAccess);
    }
    if new_fee_rate > crate::fees::FEE_RATE_DENOMINATOR {
        return Err(YieldOptimizerError::InvalidFeeRate);
    }
    ctx.governance.fee_rate = new_fee_rate;
    Ok(())
}

} // verus!
