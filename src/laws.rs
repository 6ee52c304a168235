//! Properties that relate several calls, or hold of every input.
use vstd::prelude::*;
use crate::error::YieldOptimizerError;
use crate::events::{FundsWithdrawn, ProgramEvent};
use crate::fees::{net_amount, FEE_RATE_DENOMINATOR};
use crate::instructions::{initialize_result, initialized, InitializeUserFunds};
use crate::reallocation::{Action, OptimizeYield, Reply, MIN_REALLOCATION_PERIOD};

verus! {

/// A zero fee rate leaves every amount whole.
pub proof fn lemma_zero_fee_keeps_amount(amount: u64)
    ensures
        net_amount(amount as nat, 0) == amount,
{
}

/// A fee rate of the whole denominator takes every amount entirely.
pub proof fn lemma_full_fee_takes_all(amount: u64)
    ensures
        net_amount(amount as nat, FEE_RATE_DENOMINATOR as nat) == 0,
{
    assert((amount as nat * 10000nat) / 10000nat == amount as nat) by (nonlinear_arith);
}

/// For a ledger last reallocated at `t`, a start one second before the
/// cooldown ends is refused as too frequent; a start when it ends passes
/// the cooldown, and goes on to fetch the rates when the guard is free.
pub proof fn lemma_cooldown_boundary(ctx: OptimizeYield, t: i64)
    requires
        ctx.user_funds.last_reallocation == t,
        t + MIN_REALLOCATION_PERIOD <= i64::MAX,
    ensures
        ctx.start_action((t + MIN_REALLOCATION_PERIOD - 1) as i64) == Action::Finish(
            Err(YieldOptimizerError::ReallocationTooFrequent),
        ),
        ctx.start_action((t + MIN_REALLOCATION_PERIOD) as i64) != Action::Finish(
            Err(YieldOptimizerError::ReallocationTooFrequent),
        ),
        !ctx.guard.in_progress() ==> ctx.start_action((t + MIN_REALLOCATION_PERIOD) as i64)
            is FetchYieldRates,
{
}

/// An invocation never finishes holding the guard it took: a start that is
/// refused leaves the guard as it found it, and every reply that finishes a
/// started invocation releases it. Only while it runs is the guard held.
pub proof fn lemma_finish_releases_guard(
    before: OptimizeYield,
    reply: Reply,
    after: OptimizeYield,
    a: Action,
)
    requires
        before.wf(),
        before.accepts(reply),
        before.stepped(reply, after, a),
    ensures
        a is Finish <==> !after.guard.in_progress(),
{
}

/// A whole invocation that finds the guard free leaves it free when it
/// returns, whatever the replies were. `states[0]` is the context before the
/// start, `states[1]` after it, and each later state follows from the one
/// before by `replies[i]`; the last action finishes the invocation.
pub proof fn lemma_invocation_leaves_guard_free(
    states: Seq<OptimizeYield>,
    replies: Seq<Reply>,
    actions: Seq<Action>,
    amount: u64,
    now: i64,
)
    requires
        states.len() >= 2,
        replies.len() == states.len() - 1,
        actions.len() == states.len() - 1,
        !states[0].guard.in_progress(),
        states[0].started(amount, now, states[1], actions[0]),
        forall|i: int|
            1 <= i < states.len() - 1 ==> #[trigger] states[i].accepts(replies[i])
                && states[i].stepped(replies[i], states[i + 1], actions[i]),
        actions.last() is Finish,
    ensures
        !states.last().guard.in_progress(),
{
    let k = states.len() - 1;
    if k >= 2 {
        assert(states[k - 1].accepts(replies[k - 1]));
    }
}

/// A refused start leaves a free guard free, and an accepted one holds it.
pub proof fn lemma_refused_start_keeps_guard(
    before: OptimizeYield,
    amount: u64,
    now: i64,
    after: OptimizeYield,
    a: Action,
)
    requires
        before.started(amount, now, after, a),
    ensures
        a is Finish ==> after.guard == before.guard,
        a !is Finish ==> after.guard.in_progress(),
{
}

/// When the new rate is no better, the invocation finishes with
/// `LowerYieldRate` and the ledger keeps its protocol and time; both rates
/// are still recorded.
pub proof fn lemma_no_better_rate_keeps_ledger(
    before: OptimizeYield,
    current_rate: u64,
    new_rate: u64,
    after: OptimizeYield,
    a: Action,
)
    requires
        before.wf(),
        before.stage is AwaitingRates,
        before.stepped(Reply::YieldRates { current_rate, new_rate }, after, a),
        new_rate <= current_rate,
    ensures
        a == Action::Finish(Err(YieldOptimizerError::LowerYieldRate)),
        after.user_funds.current_protocol == before.user_funds.current_protocol,
        after.user_funds.last_reallocation == before.user_funds.last_reallocation,
        after.events@.len() == before.events@.len() + 2,
{
}

/// A withdrawal that succeeds followed by a deposit that fails finishes with
/// `DepositFailed`, leaves the ledger as it was, and adds exactly the
/// withdrawal event: no deposit and no reallocation is recorded.
pub proof fn lemma_failed_deposit_after_withdrawal(
    s0: OptimizeYield,
    s1: OptimizeYield,
    a1: Action,
    s2: OptimizeYield,
    a2: Action,
)
    requires
        s0.wf(),
        s0.stage is AwaitingWithdrawal,
        s0.stepped(Reply::Withdrawn { ok: true }, s1, a1),
        s1.stepped(Reply::Deposited { ok: false }, s2, a2),
    ensures
        a1 is Deposit,
        a2 == Action::Finish(Err(YieldOptimizerError::DepositFailed)),
        s2.user_funds == s0.user_funds,
        s2.events@ == s0.events@.push(
            ProgramEvent::FundsWithdrawn(
                FundsWithdrawn {
                    user: s0.user,
                    protocol: s0.current_protocol,
                    amount: s0.stage->AwaitingWithdrawal_amount,
                },
            ),
        ),
        !s2.guard.in_progress(),
{
    assert(s1.stage is AwaitingDeposit);
    assert(s2.events@ =~= s0.events@.push(
        ProgramEvent::FundsWithdrawn(
            FundsWithdrawn {
                user: s0.user,
                protocol: s0.current_protocol,
                amount: s0.stage->AwaitingWithdrawal_amount,
            },
        ),
    ));
}

/// The time of the last reallocation never goes back.
pub proof fn lemma_last_reallocation_monotone(
    before: OptimizeYield,
    reply: Reply,
    after: OptimizeYield,
    a: Action,
)
    requires
        before.wf(),
        before.accepts(reply),
        before.stepped(reply, after, a),
    ensures
        after.user_funds.last_reallocation >= before.user_funds.last_reallocation,
{
}

/// A fresh owner's ledger is created once: the first creation succeeds and a
/// second one on the records it made fails with `AlreadyInitialized`.
pub proof fn lemma_initialize_twice(
    before: InitializeUserFunds,
    after: InitializeUserFunds,
    now: i64,
)
    requires
        before.user_funds is None,
        before.guard is None,
        initialized(before, after, now),
    ensures
        initialize_result(before) == Ok::<(), YieldOptimizerError>(()),
        initialize_result(after) == Err::<(), YieldOptimizerError>(
            YieldOptimizerError::AlreadyInitialized,
        ),
{
}

} // verus!
