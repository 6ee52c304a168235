use yield_optimizer::{
    collect_fees, initialize_user_funds, optimize_yield, update_governance, Action, DepositFunds,
    FundsDeposited, FundsReallocated, FundsWithdrawn, Governance, GovernanceAccount,
    InitializeUserFunds, OptimizeYield, ProgramEvent, Pubkey, ReentrancyGuard, Reply, Stage,
    UserFunds, WithdrawFunds, YieldOptimizerError, YieldRateFetched, MIN_REALLOCATION_PERIOD,
};

fn key(n: u64) -> Pubkey {
    Pubkey { w0: n, w1: n.wrapping_mul(31), w2: 7, w3: n ^ 0xabcd }
}

const USER: u64 = 1;
const PROTOCOL_A: u64 = 2;
const PROTOCOL_B: u64 = 3;
const TOKEN_ACCOUNT: u64 = 4;
const MINT: u64 = 5;
const TOKEN_PROGRAM: u64 = 6;

fn context(last_reallocation: i64, fee_rate: u64) -> OptimizeYield {
    OptimizeYield {
        user_funds: UserFunds {
            owner: key(USER),
            balances: Vec::new(),
            current_protocol: key(PROTOCOL_A),
            last_reallocation,
        },
        guard: ReentrancyGuard::new(),
        user_token_account: key(TOKEN_ACCOUNT),
        expected_mint: key(MINT),
        token_program: key(TOKEN_PROGRAM),
        current_protocol: key(PROTOCOL_A),
        new_protocol: key(PROTOCOL_B),
        governance: GovernanceAccount { authority: key(USER), fee_rate },
        user: key(USER),
        stage: Stage::Idle,
        events: Vec::new(),
    }
}

fn withdraw_accounts() -> WithdrawFunds {
    WithdrawFunds { user_token_account: key(TOKEN_ACCOUNT), token_program: key(TOKEN_PROGRAM) }
}

fn deposit_accounts() -> DepositFunds {
    DepositFunds { user_token_account: key(TOKEN_ACCOUNT), token_program: key(TOKEN_PROGRAM) }
}

fn rate_events(current_rate: u64, new_rate: u64) -> Vec<ProgramEvent> {
    vec![
        ProgramEvent::YieldRateFetched(YieldRateFetched { protocol: key(PROTOCOL_A), rate: current_rate }),
        ProgramEvent::YieldRateFetched(YieldRateFetched { protocol: key(PROTOCOL_B), rate: new_rate }),
    ]
}

#[test]
fn test_initialize_user_funds() {
    let mut ctx = InitializeUserFunds { user_funds: None, guard: None, user: key(USER) };
    assert_eq!(initialize_user_funds(&mut ctx, 1_700_000_000), Ok(()));
    let funds = ctx.user_funds.clone().unwrap();
    assert_eq!(funds.owner, key(USER));
    assert_eq!(funds.balances.len(), 0);
    assert_eq!(funds.current_protocol, Pubkey::default());
    assert_eq!(funds.last_reallocation, 1_700_000_000);
    assert!(!ctx.guard.unwrap().is_in_progress());
}

#[test]
fn initialize_twice_is_rejected() {
    let mut ctx = InitializeUserFunds { user_funds: None, guard: None, user: key(USER) };
    assert_eq!(initialize_user_funds(&mut ctx, 10), Ok(()));
    let first = ctx.user_funds.clone();
    assert_eq!(
        initialize_user_funds(&mut ctx, 20),
        Err(YieldOptimizerError::AlreadyInitialized)
    );
    assert_eq!(ctx.user_funds, first);
}

#[test]
fn initialize_with_existing_guard_is_rejected() {
    let mut ctx =
        InitializeUserFunds { user_funds: None, guard: Some(ReentrancyGuard::new()), user: key(USER) };
    assert_eq!(
        initialize_user_funds(&mut ctx, 10),
        Err(YieldOptimizerError::AlreadyInitialized)
    );
    assert!(ctx.user_funds.is_none());
}

#[test]
fn default_pubkey_is_zero() {
    assert_eq!(Pubkey::default(), Pubkey { w0: 0, w1: 0, w2: 0, w3: 0 });
}

#[test]
fn fee_of_two_and_a_half_percent() {
    assert_eq!(collect_fees(1000, 250), 975);
}

#[test]
fn fee_of_one_percent() {
    assert_eq!(collect_fees(1000, 100), 990);
}

#[test]
fn fee_rounds_down() {
    // 999 * 3 / 10000 = 0.2997, so no fee at all
    assert_eq!(collect_fees(999, 3), 999);
    // 10001 * 1 / 10000 = 1.0001, so a fee of one
    assert_eq!(collect_fees(10001, 1), 10000);
}

#[test]
fn zero_fee_keeps_amount() {
    for amount in [0u64, 1, 975, 1_000_000, u64::MAX] {
        assert_eq!(collect_fees(amount, 0), amount);
    }
}

#[test]
fn full_fee_takes_everything() {
    for amount in [0u64, 1, 975, 1_000_000, u64::MAX] {
        assert_eq!(collect_fees(amount, 10000), 0);
    }
}

#[test]
fn fee_on_largest_amount_does_not_wrap() {
    // u64::MAX * 9999 / 10000, computed without overflow
    let expected = u64::MAX - (((u64::MAX as u128) * 9999 / 10000) as u64);
    assert_eq!(collect_fees(u64::MAX, 9999), expected);
}

#[test]
fn guard_start_and_end() {
    let mut guard = ReentrancyGuard::new();
    assert!(!guard.is_in_progress());
    assert_eq!(guard.start(), Ok(()));
    assert!(guard.is_in_progress());
    assert_eq!(guard.start(), Err(YieldOptimizerError::ReentrancyAttempt));
    assert!(guard.is_in_progress());
    guard.end();
    assert!(!guard.is_in_progress());
    guard.end();
    assert!(!guard.is_in_progress());
}

#[test]
fn cooldown_one_second_short_is_refused() {
    let t = 1_000_000i64;
    let mut ctx = context(t, 100);
    let before = ctx.clone();
    let action = optimize_yield(&mut ctx, 1000, t + MIN_REALLOCATION_PERIOD - 1);
    assert_eq!(action, Action::Finish(Err(YieldOptimizerError::ReallocationTooFrequent)));
    assert_eq!(ctx.stage, Stage::Idle);
    assert!(!ctx.guard.is_in_progress());
    assert_eq!(ctx.user_funds, before.user_funds);
    assert!(ctx.events.is_empty());
}

#[test]
fn cooldown_elapsed_proceeds_to_rates() {
    let t = 1_000_000i64;
    let mut ctx = context(t, 100);
    let action = optimize_yield(&mut ctx, 1000, t + MIN_REALLOCATION_PERIOD);
    assert_eq!(
        action,
        Action::FetchYieldRates { current_protocol: key(PROTOCOL_A), new_protocol: key(PROTOCOL_B) }
    );
    assert_eq!(ctx.stage, Stage::AwaitingRates { now: t + MIN_REALLOCATION_PERIOD, amount: 1000 });
    assert!(ctx.guard.is_in_progress());
}

#[test]
fn cooldown_at_extreme_times_does_not_overflow() {
    let mut ctx = context(i64::MIN, 0);
    let action = optimize_yield(&mut ctx, 1, i64::MAX);
    assert!(matches!(action, Action::FetchYieldRates { .. }));
    let mut ctx = context(i64::MAX, 0);
    let action = optimize_yield(&mut ctx, 1, i64::MIN);
    assert_eq!(action, Action::Finish(Err(YieldOptimizerError::ReallocationTooFrequent)));
}

#[test]
fn reentrant_start_is_refused() {
    let mut ctx = context(0, 100);
    assert_eq!(ctx.guard.start(), Ok(()));
    let action = optimize_yield(&mut ctx, 1000, 3600);
    assert_eq!(action, Action::Finish(Err(YieldOptimizerError::ReentrancyAttempt)));
    assert_eq!(ctx.stage, Stage::Idle);
    // the guard stays with the invocation that holds it
    assert!(ctx.guard.is_in_progress());
    assert!(ctx.events.is_empty());
}

#[test]
fn test_optimize_yield() {
    let mut ctx = context(0, 100);
    assert!(matches!(optimize_yield(&mut ctx, 100, 3600), Action::FetchYieldRates { .. }));
    assert!(matches!(
        ctx.step(Reply::YieldRates { current_rate: 5, new_rate: 6 }),
        Action::Withdraw { .. }
    ));
    assert!(matches!(ctx.step(Reply::Withdrawn { ok: true }), Action::Deposit { .. }));
    assert_eq!(ctx.step(Reply::Deposited { ok: true }), Action::Finish(Ok(())));
    assert_eq!(ctx.user_funds.current_protocol, key(PROTOCOL_B));
}

#[test]
fn end_to_end_reallocation() {
    let mut ctx = context(0, 100);
    assert_eq!(
        optimize_yield(&mut ctx, 1000, 3600),
        Action::FetchYieldRates { current_protocol: key(PROTOCOL_A), new_protocol: key(PROTOCOL_B) }
    );
    assert_eq!(
        ctx.step(Reply::YieldRates { current_rate: 5, new_rate: 8 }),
        Action::Withdraw { protocol: key(PROTOCOL_A), accounts: withdraw_accounts(), amount: 1000 }
    );
    assert_eq!(
        ctx.step(Reply::Withdrawn { ok: true }),
        Action::Deposit { protocol: key(PROTOCOL_B), accounts: deposit_accounts(), amount: 990 }
    );
    assert_eq!(ctx.step(Reply::Deposited { ok: true }), Action::Finish(Ok(())));
    assert_eq!(ctx.user_funds.current_protocol, key(PROTOCOL_B));
    assert_eq!(ctx.user_funds.last_reallocation, 3600);
    assert_eq!(ctx.stage, Stage::Idle);
    assert!(!ctx.guard.is_in_progress());
    let mut expected = rate_events(5, 8);
    expected.push(ProgramEvent::FundsWithdrawn(FundsWithdrawn {
        user: key(USER),
        protocol: key(PROTOCOL_A),
        amount: 1000,
    }));
    expected.push(ProgramEvent::FundsDeposited(FundsDeposited {
        user: key(USER),
        protocol: key(PROTOCOL_B),
        amount: 990,
    }));
    expected.push(ProgramEvent::FundsReallocated(FundsReallocated {
        user: key(USER),
        from_protocol: key(PROTOCOL_A),
        to_protocol: key(PROTOCOL_B),
        amount: 990,
        timestamp: 3600,
    }));
    assert_eq!(ctx.events, expected);
}

#[test]
fn lower_rate_leaves_ledger_unchanged() {
    let mut ctx = context(0, 100);
    let before = ctx.user_funds.clone();
    optimize_yield(&mut ctx, 1000, 5000);
    assert_eq!(
        ctx.step(Reply::YieldRates { current_rate: 8, new_rate: 5 }),
        Action::Finish(Err(YieldOptimizerError::LowerYieldRate))
    );
    assert_eq!(ctx.user_funds.current_protocol, before.current_protocol);
    assert_eq!(ctx.user_funds.last_reallocation, before.last_reallocation);
    assert!(!ctx.guard.is_in_progress());
    assert_eq!(ctx.events, rate_events(8, 5));
}

#[test]
fn equal_rate_is_no_better() {
    let mut ctx = context(0, 100);
    optimize_yield(&mut ctx, 1000, 5000);
    assert_eq!(
        ctx.step(Reply::YieldRates { current_rate: 5, new_rate: 5 }),
        Action::Finish(Err(YieldOptimizerError::LowerYieldRate))
    );
    assert_eq!(ctx.user_funds.current_protocol, key(PROTOCOL_A));
    assert_eq!(ctx.user_funds.last_reallocation, 0);
    assert!(!ctx.guard.is_in_progress());
}

#[test]
fn failed_withdrawal_changes_nothing() {
    let mut ctx = context(0, 100);
    optimize_yield(&mut ctx, 1000, 3600);
    ctx.step(Reply::YieldRates { current_rate: 5, new_rate: 8 });
    assert_eq!(
        ctx.step(Reply::Withdrawn { ok: false }),
        Action::Finish(Err(YieldOptimizerError::WithdrawalFailed))
    );
    assert_eq!(ctx.user_funds.current_protocol, key(PROTOCOL_A));
    assert_eq!(ctx.user_funds.last_reallocation, 0);
    assert!(!ctx.guard.is_in_progress());
    assert_eq!(ctx.events, rate_events(5, 8));
}

#[test]
fn failed_deposit_after_withdrawal() {
    let mut ctx = context(0, 100);
    optimize_yield(&mut ctx, 1000, 3600);
    ctx.step(Reply::YieldRates { current_rate: 5, new_rate: 8 });
    ctx.step(Reply::Withdrawn { ok: true });
    assert_eq!(
        ctx.step(Reply::Deposited { ok: false }),
        Action::Finish(Err(YieldOptimizerError::DepositFailed))
    );
    assert_eq!(ctx.user_funds.current_protocol, key(PROTOCOL_A));
    assert_eq!(ctx.user_funds.last_reallocation, 0);
    assert!(!ctx.guard.is_in_progress());
    let mut expected = rate_events(5, 8);
    expected.push(ProgramEvent::FundsWithdrawn(FundsWithdrawn {
        user: key(USER),
        protocol: key(PROTOCOL_A),
        amount: 1000,
    }));
    assert_eq!(ctx.events, expected);
    assert!(!ctx.events.iter().any(|e| matches!(
        e,
        ProgramEvent::FundsDeposited(_) | ProgramEvent::FundsReallocated(_)
    )));
}

#[test]
fn zero_amount_reallocates_zero() {
    let mut ctx = context(0, 250);
    optimize_yield(&mut ctx, 0, 3600);
    assert_eq!(
        ctx.step(Reply::YieldRates { current_rate: 1, new_rate: 2 }),
        Action::Withdraw { protocol: key(PROTOCOL_A), accounts: withdraw_accounts(), amount: 0 }
    );
    assert_eq!(
        ctx.step(Reply::Withdrawn { ok: true }),
        Action::Deposit { protocol: key(PROTOCOL_B), accounts: deposit_accounts(), amount: 0 }
    );
    assert_eq!(ctx.step(Reply::Deposited { ok: true }), Action::Finish(Ok(())));
    assert_eq!(ctx.user_funds.current_protocol, key(PROTOCOL_B));
}

#[test]
fn guard_is_free_after_every_outcome() {
    let runs: [&[Reply]; 4] = [
        &[Reply::YieldRates { current_rate: 9, new_rate: 1 }],
        &[Reply::YieldRates { current_rate: 1, new_rate: 9 }, Reply::Withdrawn { ok: false }],
        &[
            Reply::YieldRates { current_rate: 1, new_rate: 9 },
            Reply::Withdrawn { ok: true },
            Reply::Deposited { ok: false },
        ],
        &[
            Reply::YieldRates { current_rate: 1, new_rate: 9 },
            Reply::Withdrawn { ok: true },
            Reply::Deposited { ok: true },
        ],
    ];
    for replies in runs {
        let mut ctx = context(0, 100);
        optimize_yield(&mut ctx, 500, 7200);
        let mut last = None;
        for reply in replies {
            assert!(ctx.guard.is_in_progress());
            last = Some(ctx.step(*reply));
        }
        assert!(matches!(last, Some(Action::Finish(_))));
        assert!(!ctx.guard.is_in_progress());
        assert_eq!(ctx.stage, Stage::Idle);
    }
}

#[test]
fn second_reallocation_waits_for_cooldown() {
    let mut ctx = context(0, 0);
    optimize_yield(&mut ctx, 10, 3600);
    ctx.step(Reply::YieldRates { current_rate: 1, new_rate: 2 });
    ctx.step(Reply::Withdrawn { ok: true });
    ctx.step(Reply::Deposited { ok: true });
    assert_eq!(ctx.user_funds.last_reallocation, 3600);
    assert_eq!(
        optimize_yield(&mut ctx, 10, 7199),
        Action::Finish(Err(YieldOptimizerError::ReallocationTooFrequent))
    );
    assert!(matches!(optimize_yield(&mut ctx, 10, 7200), Action::FetchYieldRates { .. }));
}

#[test]
fn governance_update_by_authority() {
    let mut ctx = Governance {
        governance: GovernanceAccount { authority: key(USER), fee_rate: 100 },
        authority: key(USER),
    };
    assert_eq!(update_governance(&mut ctx, 250), Ok(()));
    assert_eq!(ctx.governance.fee_rate, 250);
    assert_eq!(update_governance(&mut ctx, 10000), Ok(()));
    assert_eq!(ctx.governance.fee_rate, 10000);
}

#[test]
fn governance_update_by_stranger_is_refused() {
    let mut ctx = Governance {
        governance: GovernanceAccount { authority: key(USER), fee_rate: 100 },
        authority: key(9),
    };
    assert_eq!(update_governance(&mut ctx, 250), Err(YieldOptimizerError::UnauthorizedAccess));
    assert_eq!(ctx.governance.fee_rate, 100);
}

#[test]
fn governance_fee_above_whole_is_refused() {
    let mut ctx = Governance {
        governance: GovernanceAccount { authority: key(USER), fee_rate: 100 },
        authority: key(USER),
    };
    assert_eq!(update_governance(&mut ctx, 10001), Err(YieldOptimizerError::InvalidFeeRate));
    assert_eq!(ctx.governance.fee_rate, 100);
}

#[test]
fn error_messages() {
    assert_eq!(
        YieldOptimizerError::LowerYieldRate.message(),
        "Yield rate is lower in the new protocol."
    );
    assert_eq!(
        YieldOptimizerError::ReentrancyAttempt.message(),
        "Reentrancy attempt detected."
    );
}
