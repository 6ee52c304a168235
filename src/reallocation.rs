use vstd::prelude::*;
use crate::error::YieldOptimizerError;
use crate::events::{FundsDeposited, FundsReallocated, FundsWithdrawn, ProgramEvent, YieldRateFetched};
use crate::fees::{collect_fees, net_amount};
use crate::guard::ReentrancyGuard;
use crate::state::{GovernanceAccount, Pubkey, UserFunds};

verus! {

/// The least time between two reallocations for one owner, in seconds.
pub const MIN_REALLOCATION_PERIOD: i64 = 3600;

/// The accounts handed to a withdrawal from a protocol.
#[derive(Clone, Copy, Debug, PartialEq, Eq, Structural)]
pub struct WithdrawFunds {
    pub user_token_account: Pubkey,
    pub token_program: Pubkey,
}

/// The accounts handed to a deposit into a protocol.
#[derive(Clone, Copy, Debug, PartialEq, Eq, Structural)]
pub struct DepositFunds {
    pub user_token_account: Pubkey,
    pub token_program: Pubkey,
}

/// How far a reallocation has gone.
#[derive(Clone, Copy, Debug, PartialEq, Eq, Structural)]
pub enum Stage {
    /// No reallocation is running in this context.
    Idle,
    /// The guard is held; both yield rates are wanted.
    AwaitingRates { now: i64, amount: u64 },
    /// The move is worth it; the withdrawal of `amount` is wanted.
    AwaitingWithdrawal { now: i64, amount: u64, net_amount: u64 },
    /// The funds are out; the deposit of `net_amount` is wanted.
    AwaitingDeposit { now: i64, net_amount: u64 },
}

/// What the caller must do next for a running reallocation.
#[derive(Clone, Copy, Debug, PartialEq, Eq)]
#[allow(inconsistent_fields)]
pub enum Action {
    /// Read the yield rates of both protocols, and reply with `Reply::YieldRates`.
    FetchYieldRates { current_protocol: Pubkey, new_protocol: Pubkey },
    /// Withdraw `amount` from `protocol`, and reply with `Reply::Withdrawn`.
    Withdraw { protocol: Pubkey, accounts: WithdrawFunds, amount: u64 },
    /// Deposit `amount` into `protocol`, and reply with `Reply::Deposited`.
    Deposit { protocol: Pubkey, accounts: DepositFunds, amount: u64 },
    /// The invocation is over, with this result.
    Finish(Result<(), YieldOptimizerError>),
}

/// What the caller reports back once it has done an action.
#[derive(Clone, Copy, Debug, PartialEq, Eq, Structural)]
pub enum Reply {
    YieldRates { current_rate: u64, new_rate: u64 },
    Withdrawn { ok: bool },
    Deposited { ok: bool },
}

/// The accounts and state of one reallocation invocation for one owner.
#[derive(Clone, Debug)]
pub struct OptimizeYield {
    pub user_funds: UserFunds,
    pub guard: ReentrancyGuard,
    pub user_token_account: Pubkey,
    pub expected_mint: Pubkey,
    pub token_program: Pubkey,
    pub current_protocol: Pubkey,
    pub new_protocol: Pubkey,
    pub governance: GovernanceAccount,
    pub user: Pubkey,
    pub stage: Stage,
    /// The events emitted so far, oldest first.
    pub events: Vec<ProgramEvent>,
}

/// Whether a reallocation at `now` respects the cooldown since `last`.
pub open spec fn cooldown_elapsed(last: i64, now: i64) -> bool {
    now - last >= MIN_REALLOCATION_PERIOD
}

impl Stage {
    /// The time the running reallocation started at.
    pub open spec fn started_at(self) -> Option<i64> {
        match self {
            Stage::Idle => None,
            Stage::AwaitingRates { now, .. } => Some(now),
            Stage::AwaitingWithdrawal { now, .. } => Some(now),
            Stage::AwaitingDeposit { now, .. } => Some(now),
        }
    }
}

impl OptimizeYield {
    /// A running reallocation holds the guard, and began after the cooldown.
    pub open spec fn wf(&self) -> bool {
        &&& self.governance.wf()
        &&& self.stage !is Idle ==> self.guard.in_progress()
        &&& self.stage.started_at() matches Some(t) ==> cooldown_elapsed(
            self.user_funds.last_reallocation,
            t,
        )
    }

    /// The reply that the current stage waits for.
    pub open spec fn accepts(&self, reply: Reply) -> bool {
        match self.stage {
            Stage::Idle => false,
            Stage::AwaitingRates { .. } => reply is YieldRates,
            Stage::AwaitingWithdrawal { .. } => reply is Withdrawn,
            Stage::AwaitingDeposit { .. } => reply is Deposited,
        }
    }

    pub open spec fn withdraw_accounts(&self) -> WithdrawFunds {
        WithdrawFunds { user_token_account: self.user_token_account, token_program: self.token_program }
    }

    pub open spec fn deposit_accounts(&self) -> DepositFunds {
        DepositFunds { user_token_account: self.user_token_account, token_program: self.token_program }
    }

    /// Everything but the ledger, the guard, the stage and the events is the same in `other`.
    pub open spec fn same_accounts(&self, other: OptimizeYield) -> bool {
        &&& other.user_token_account == self.user_token_account
        &&& other.expected_mint == self.expected_mint
        &&& other.token_program == self.token_program
        &&& other.current_protocol == self.current_protocol
        &&& other.new_protocol == self.new_protocol
        &&& other.governance == self.governance
        &&& other.user == self.user
    }

    /// The first action of an invocation at `now`.
    pub open spec fn start_action(&self, now: i64) -> Action {
        if !cooldown_elapsed(self.user_funds.last_reallocation, now) {
            Action::Finish(Err(YieldOptimizerError::ReallocationTooFrequent))
        } else if self.guard.in_progress() {
            Action::Finish(Err(YieldOptimizerError::ReentrancyAttempt))
        } else {
            Action::FetchYieldRates {
                current_protocol: self.current_protocol,
                new_protocol: self.new_protocol,
            }
        }
    }

    /// The action that follows `reply`.
    pub open spec fn step_action(&self, reply: Reply) -> Action {
        match (self.stage, reply) {
            (Stage::AwaitingRates { amount, .. }, Reply::YieldRates { current_rate, new_rate }) => {
                if new_rate <= current_rate {
                    Action::Finish(Err(YieldOptimizerError::LowerYieldRate))
                } else {
                    Action::Withdraw {
                        protocol: self.current_protocol,
                        accounts: self.withdraw_accounts(),
                        amount,
                    }
                }
            },
            (Stage::AwaitingWithdrawal { net_amount, .. }, Reply::Withdrawn { ok }) => {
                if ok {
                    Action::Deposit {
                        protocol: self.new_protocol,
                        accounts: self.deposit_accounts(),
                        amount: net_amount,
                    }
                } else {
                    Action::Finish(Err(YieldOptimizerError::WithdrawalFailed))
                }
            },
            (Stage::AwaitingDeposit { .. }, Reply::Deposited { ok }) => {
                if ok {
                    Action::Finish(Ok(()))
                } else {
                    Action::Finish(Err(YieldOptimizerError::DepositFailed))
                }
            },
            // a reply that the stage does not wait for; `accepts` rules it out
            _ => Action::Finish(Err(YieldOptimizerError::ReentrancyAttempt)),
        }
    }

    /// The stage that follows `reply`.
    pub open spec fn step_stage(&self, reply: Reply) -> Stage {
        match (self.stage, reply) {
            (Stage::AwaitingRates { now, amount }, Reply::YieldRates { current_rate, new_rate }) => {
                if new_rate <= current_rate {
                    Stage::Idle
                } else {
                    Stage::AwaitingWithdrawal {
                        now,
                        amount,
                        net_amount: net_amount(amount as nat, self.governance.fee_rate as nat) as u64,
                    }
                }
            },
            (Stage::AwaitingWithdrawal { now, net_amount, .. }, Reply::Withdrawn { ok }) => {
                if ok {
                    Stage::AwaitingDeposit { now, net_amount }
                } else {
                    Stage::Idle
                }
            },
            _ => Stage::Idle,
        }
    }

    /// The events emitted on `reply`.
    pub open spec fn step_events(&self, reply: Reply) -> Seq<ProgramEvent> {
        match (self.stage, reply) {
            (Stage::AwaitingRates { .. }, Reply::YieldRates { current_rate, new_rate }) => seq![
                ProgramEvent::YieldRateFetched(
                    YieldRateFetched { protocol: self.current_protocol, rate: current_rate },
                ),
                ProgramEvent::YieldRateFetched(
                    YieldRateFetched { protocol: self.new_protocol, rate: new_rate },
                ),
            ],
            (Stage::AwaitingWithdrawal { amount, .. }, Reply::Withdrawn { ok }) => {
                if ok {
                    seq![
                        ProgramEvent::FundsWithdrawn(
                            FundsWithdrawn {
                                user: self.user,
                                protocol: self.current_protocol,
                                amount,
                            },
                        ),
                    ]
                } else {
                    seq![]
                }
            },
            (Stage::AwaitingDeposit { now, net_amount }, Reply::Deposited { ok }) => {
                if ok {
                    seq![
                        ProgramEvent::FundsDeposited(
                            FundsDeposited {
                                user: self.user,
                                protocol: self.new_protocol,
                                amount: net_amount,
                            },
                        ),
                        ProgramEvent::FundsReallocated(
                            FundsReallocated {
                                user: self.user,
                                from_protocol: self.current_protocol,
                                to_protocol: self.new_protocol,
                                amount: net_amount,
                                timestamp: now,
                            },
                        ),
                    ]
                } else {
                    seq![]
                }
            },
            _ => seq![],
        }
    }

    /// The ledger after `reply`: only a completed deposit changes it.
    pub open spec fn step_ledger(&self, reply: Reply) -> UserFunds {
        match (self.stage, reply) {
            (Stage::AwaitingDeposit { now, .. }, Reply::Deposited { ok }) => {
                if ok {
                    UserFunds {
                        current_protocol: self.new_protocol,
                        last_reallocation: now,
                        ..self.user_funds
                    }
                } else {
                    self.user_funds
                }
            },
            _ => self.user_funds,
        }
    }
}

impl OptimizeYield {
    /// `after` and `a` are what starting an invocation at `now` of `amount`
    /// gives: a refused start changes nothing; an accepted one holds the guard
    /// and waits for the rates.
    pub open spec fn started(&self, amount: u64, now: i64, after: OptimizeYield, a: Action) -> bool {
        &&& a == self.start_action(now)
        &&& a is Finish ==> after == *self
        &&& a !is Finish ==> {
            &&& after.stage == (Stage::AwaitingRates { now, amount })
            &&& after.guard.in_progress()
            &&& after.user_funds == self.user_funds
            &&& after.events@ == self.events@
            &&& self.same_accounts(after)
        }
    }

    /// `after` and `a` are what handing `reply` to a running invocation gives.
    /// The guard is held exactly while the invocation is not idle.
    pub open spec fn stepped(&self, reply: Reply, after: OptimizeYield, a: Action) -> bool {
        &&& a == self.step_action(reply)
        &&& after.stage == self.step_stage(reply)
        &&& after.events@ == self.events@ + self.step_events(reply)
        &&& after.user_funds == self.step_ledger(reply)
        &&& after.guard.in_progress() == (after.stage !is Idle)
        &&& self.same_accounts(after)
    }
}

/// Starts a reallocation at `now` of `amount` from the context's current
/// protocol to its new one: checks the cooldown, then takes the guard.
/// A check that fails finishes the invocation and changes nothing.
pub fn optimize_yield(ctx: &mut OptimizeYield, amount: u64, now: i64) -> (a: Action)
    requires
        old(ctx).stage is Idle,
        old(ctx).governance.wf(),
    ensures
        old(ctx).started(amount, now, *final(ctx), a),
        final(ctx).wf(),
{
    let elapsed: i128 = (now as i128) - (ctx.user_funds.last_reallocation as i128);
    if elapsed < MIN_REALLOCATION_PERIOD as i128 {
        return Action::Finish(Err(YieldOptimizerError::ReallocationTooFrequent));
    }
    if let Err(e) = ctx.guard.start() {
        return Action::Finish(Err(e));
    }
    ctx.stage = Stage::AwaitingRates { now, amount };
    Action::FetchYieldRates { current_protocol: ctx.current_protocol, new_protocol: ctx.new_protocol }
}

impl OptimizeYield {
    /// Takes the caller's reply to the last action and returns the next one.
    /// Every path that finishes releases the guard; only a completed deposit
    /// moves the ledger to the new protocol.
    pub fn step(&mut self, reply: Reply) -> (a: Action)
        requires
            old(self).wf(),
            old(self).accepts(reply),
        ensures
            old(self).stepped(reply, *final(self), a),
            final(self).wf(),
    {
        let ghost before = *self;
        match (self.stage, reply) {
            (Stage::AwaitingRates { now, amount }, Reply::YieldRates { current_rate, new_rate }) => {
                self.events.push(
                    ProgramEvent::YieldRateFetched(
                        YieldRateFetched { protocol: self.current_protocol, rate: current_rate },
                    ),
                );
                self.events.push(
                    ProgramEvent::YieldRateFetched(
                        YieldRateFetched { protocol: self.new_protocol, rate: new_rate },
                    ),
                );
                assert(self.events@ =~= before.events@ + before.step_events(reply));
                if new_rate <= current_rate {
                    self.guard.end();
                    self.stage = Stage::Idle;
                    return Action::Finish(Err(YieldOptimizerError::LowerYieldRate));
                }
                let net_amount = collect_fees(amount, self.governance.fee_rate);
                self.stage = Stage::AwaitingWithdrawal { now, amount, net_amount };
                Action::Withdraw {
                    protocol: self.current_protocol,
                    accounts: WithdrawFunds {
                        user_token_account: self.user_token_account,
                        token_program: self.token_program,
                    },
                    amount,
                }
            },
            (Stage::AwaitingWithdrawal { now, amount, net_amount }, Reply::Withdrawn { ok }) => {
                if !ok {
                    assert(self.events@ =~= before.events@ + before.step_events(reply));
                    self.guard.end();
                    self.stage = Stage::Idle;
                    return Action::Finish(Err(YieldOptimizerError::WithdrawalFailed));
                }
                self.events.push(
                    ProgramEvent::FundsWithdrawn(
                        FundsWithdrawn { user: self.user, protocol: self.current_protocol, amount },
                    ),
                );
                assert(self.events@ =~= before.events@ + before.step_events(reply));
                self.stage = Stage::AwaitingDeposit { now, net_amount };
                Action::Deposit {
                    protocol: self.new_protocol,
                    accounts: DepositFunds {
                        user_token_account: self.user_token_account,
                        token_program: self.token_program,
                    },
                    amount: net_amount,
                }
            },
            (Stage::AwaitingDeposit { now, net_amount }, Reply::Deposited { ok }) => {
                self.guard.end();
                self.stage = Stage::Idle;
                if !ok {
                    assert(self.events@ =~= before.events@ + before.step_events(reply));
                    return Action::Finish(Err(YieldOptimizerError::DepositFailed));
                }
                self.events.push(
                    ProgramEvent::FundsDeposited(
                        FundsDeposited {
                            user: self.user,
                            protocol: self.new_protocol,
                            amount: net_amount,
                        },
                    ),
                );
                self.events.push(
                    ProgramEvent::FundsReallocated(
                        FundsReallocated {
                            user: self.user,
                            from_protocol: self.current_protocol,
                            to_protocol: self.new_protocol,
                            amount: net_amount,
                            timestamp: now,
                        },
                    ),
                );
                assert(self.events@ =~= before.events@ + before.step_events(reply));
                self.user_funds.current_protocol = self.new_protocol;
                self.user_funds.last_reallocation = now;
                Action::Finish(Ok(()))
            },
            // not reached: `accepts` rules out every other pair
            _ => Action::Finish(Err(YieldOptimizerError::ReentrancyAttempt)),
        }
    }
}

} // verus!
