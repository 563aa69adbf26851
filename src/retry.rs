//! Transient-failure classification, exponential backoff, and the per-call
//! retry state that decides, after each attempt, whether to wait and re-issue.

use vstd::prelude::*;
use crate::operations::{retry_permitted_spec, Idempotency};

verus! {

/// Status codes of the remote transport.
#[derive(Clone, Copy, Debug, PartialEq, Eq, Structural)]
pub enum RpcCode {
    Success,
    Cancelled,
    Unknown,
    InvalidArgument,
    DeadlineExceeded,
    NotFound,
    AlreadyExists,
    PermissionDenied,
    ResourceExhausted,
    FailedPrecondition,
    Aborted,
    OutOfRange,
    Unimplemented,
    Internal,
    Unavailable,
    DataLoss,
    Unauthenticated,
}

impl RpcCode {
    /// The transient set: a later attempt may succeed.
    pub open spec fn is_transient_spec(self) -> bool {
        match self {
            RpcCode::Unavailable
            | RpcCode::DeadlineExceeded
            | RpcCode::ResourceExhausted
            | RpcCode::Aborted => true,
            _ => false,
        }
    }

    /// The code with the given wire number; numbers outside the table read as
    /// `Unknown`.
    pub open spec fn from_number_spec(n: i32) -> RpcCode {
        if n == 0 { RpcCode::Success }
        else if n == 1 { RpcCode::Cancelled }
        else if n == 3 { RpcCode::InvalidArgument }
        else if n == 4 { RpcCode::DeadlineExceeded }
        else if n == 5 { RpcCode::NotFound }
        else if n == 6 { RpcCode::AlreadyExists }
        else if n == 7 { RpcCode::PermissionDenied }
        else if n == 8 { RpcCode::ResourceExhausted }
        else if n == 9 { RpcCode::FailedPrecondition }
        else if n == 10 { RpcCode::Aborted }
        else if n == 11 { RpcCode::OutOfRange }
        else if n == 12 { RpcCode::Unimplemented }
        else if n == 13 { RpcCode::Internal }
        else if n == 14 { RpcCode::Unavailable }
        else if n == 15 { RpcCode::DataLoss }
        else if n == 16 { RpcCode::Unauthenticated }
        else { RpcCode::Unknown }
    }

    /// Reads a status code from its wire number.
    pub fn from_number(n: i32) -> (r: RpcCode)
        ensures
            r == RpcCode::from_number_spec(n),
    {
        if n == 0 { RpcCode::Success }
        else if n == 1 { RpcCode::Cancelled }
        else if n == 3 { RpcCode::InvalidArgument }
        else if n == 4 { RpcCode::DeadlineExceeded }
        else if n == 5 { RpcCode::NotFound }
        else if n == 6 { RpcCode::AlreadyExists }
        else if n == 7 { RpcCode::PermissionDenied }
        else if n == 8 { RpcCode::ResourceExhausted }
        else if n == 9 { RpcCode::FailedPrecondition }
        else if n == 10 { RpcCode::Aborted }
        else if n == 11 { RpcCode::OutOfRange }
        else if n == 12 { RpcCode::Unimplemented }
        else if n == 13 { RpcCode::Internal }
        else if n == 14 { RpcCode::Unavailable }
        else if n == 15 { RpcCode::DataLoss }
        else if n == 16 { RpcCode::Unauthenticated }
        else { RpcCode::Unknown }
    }
}

/// Whether a failure with this code is transient: unavailable, deadline
/// exceeded, resource exhausted or aborted.
pub fn is_retryable(code: RpcCode) -> (r: bool)
    ensures
        r == code.is_transient_spec(),
{
    match code {
        RpcCode::Unavailable
        | RpcCode::DeadlineExceeded
        | RpcCode::ResourceExhausted
        | RpcCode::Aborted => true,
        _ => false,
    }
}

/// Retry limits and backoff growth; durations in milliseconds.
#[derive(Clone, Copy, Debug)]
pub struct RetryConfig {
    /// Re-issues allowed after the first attempt.
    pub max_retries: u32,
    /// Wait before the first re-issue.
    pub initial_backoff: u64,
    /// Ceiling of every wait.
    pub max_backoff: u64,
    /// Factor by which the wait grows after each re-issue.
    pub backoff_multiplier: u64,
}

impl Default for RetryConfig {
    /// Three retries, waits from 100 ms doubling up to 10 s.
    fn default() -> (r: Self)
        ensures
            r.max_retries == 3,
            r.initial_backoff == 100,
            r.max_backoff == 10_000,
            r.backoff_multiplier == 2,
    {
        RetryConfig { max_retries: 3, initial_backoff: 100, max_backoff: 10_000, backoff_multiplier: 2 }
    }
}

impl RetryConfig {
    /// Waits start positive and under the ceiling, and grow at least twofold.
    pub open spec fn wf(self) -> bool {
        &&& 0 < self.initial_backoff <= self.max_backoff
        &&& self.backoff_multiplier >= 2
    }

    /// The wait that follows `current`: grown by the multiplier, capped.
    pub open spec fn next_backoff_spec(self, current: u64) -> u64 {
        if current * self.backoff_multiplier >= self.max_backoff {
            self.max_backoff
        } else {
            (current * self.backoff_multiplier) as u64
        }
    }

    /// The wait before re-issue number `n + 1`.
    pub open spec fn backoff_at(self, n: nat) -> u64
        decreases n,
    {
        if n == 0 {
            self.initial_backoff
        } else {
            self.next_backoff_spec(self.backoff_at((n - 1) as nat))
        }
    }

    /// Whether a failure with `code` after `attempts` re-issues is re-issued,
    /// for a call that may be retried at all.
    pub open spec fn should_retry_spec(self, code: RpcCode, attempts: u32) -> bool {
        code.is_transient_spec() && attempts < self.max_retries
    }

    /// The wait that follows `current`: multiplied, capped at the maximum.
    pub fn next_backoff(&self, current: u64) -> (r: u64)
        ensures
            r == self.next_backoff_spec(current),
    {
        match current.checked_mul(self.backoff_multiplier) {
            Some(p) => {
                if p >= self.max_backoff {
                    self.max_backoff
                } else {
                    p
                }
            },
            None => self.max_backoff,
        }
    }

    /// Whether a failure with `code` after `attempts` re-issues is re-issued.
    pub fn should_retry(&self, code: RpcCode, attempts: u32) -> (r: bool)
        ensures
            r == self.should_retry_spec(code, attempts),
    {
        is_retryable(code) && attempts < self.max_retries
    }
}

/// What one attempt of a call came back with.
#[derive(Clone, Copy, Debug, PartialEq, Eq, Structural)]
pub enum AttemptOutcome {
    Succeeded,
    Failed(RpcCode),
}

/// What the caller does after an attempt.
#[derive(Clone, Copy, Debug, PartialEq, Eq, Structural)]
pub enum RetryStep {
    /// The attempt succeeded: hand its response to the caller.
    Finish,
    /// Hand this failure to the caller unchanged.
    Surface(RpcCode),
    /// Wait this many milliseconds, then issue the call again.
    WaitAndRetry(u64),
}

/// Retry state of one call: created when the call starts, dropped when it ends.
#[derive(Clone, Copy, Debug, PartialEq, Eq, Structural)]
pub struct RetryState {
    /// Re-issues made so far.
    pub attempts: u32,
    /// Wait before the next re-issue.
    pub backoff: u64,
}

/// The state of a call that has made no attempt yet.
pub open spec fn initial_state(config: RetryConfig) -> RetryState {
    RetryState { attempts: 0, backoff: config.initial_backoff }
}

/// The decision after an attempt, and the state that follows it.
pub open spec fn step_spec(
    config: RetryConfig,
    retry_allowed: bool,
    state: RetryState,
    outcome: AttemptOutcome,
) -> (RetryState, RetryStep) {
    match outcome {
        AttemptOutcome::Succeeded => (state, RetryStep::Finish),
        AttemptOutcome::Failed(code) => {
            if retry_allowed && config.should_retry_spec(code, state.attempts) {
                (
                    RetryState {
                        attempts: (state.attempts + 1) as u32,
                        backoff: config.next_backoff_spec(state.backoff),
                    },
                    RetryStep::WaitAndRetry(state.backoff),
                )
            } else {
                (state, RetryStep::Surface(code))
            }
        },
    }
}

/// How a call ends against a remote service that answers its successive
/// attempts with `outcomes`: `Some(Ok(()))` on success, `Some(Err(code))` when
/// a failure is surfaced, `None` when the outcomes run out first; together
/// with the number of attempts made.
pub open spec fn run_spec(
    config: RetryConfig,
    retry_allowed: bool,
    state: RetryState,
    outcomes: Seq<AttemptOutcome>,
) -> (Option<Result<(), RpcCode>>, nat)
    decreases outcomes.len(),
{
    if outcomes.len() == 0 {
        (None, 0)
    } else {
        let (next, step) = step_spec(config, retry_allowed, state, outcomes[0]);
        match step {
            RetryStep::Finish => (Some(Ok(())), 1),
            RetryStep::Surface(code) => (Some(Err(code)), 1),
            RetryStep::WaitAndRetry(_) => {
                let (r, n) = run_spec(config, retry_allowed, next, outcomes.drop_first());
                (r, n + 1)
            },
        }
    }
}

impl RetryState {
    /// Fresh state for a new call.
    pub fn new(config: &RetryConfig) -> (r: RetryState)
        ensures
            r == initial_state(*config),
    {
        RetryState { attempts: 0, backoff: config.initial_backoff }
    }

    /// Records the outcome of an attempt and says what to do next. A call
    /// that may not be retried surfaces every failure; one that may is
    /// re-issued after a transient failure while re-issues remain.
    pub fn on_outcome(&mut self, config: &RetryConfig, retry_allowed: bool, outcome: AttemptOutcome) -> (r: RetryStep)
        ensures
            (*final(self), r) == step_spec(*config, retry_allowed, *old(self), outcome),
    {
        match outcome {
            AttemptOutcome::Succeeded => RetryStep::Finish,
            AttemptOutcome::Failed(code) => {
                if retry_allowed && config.should_retry(code, self.attempts) {
                    let wait = self.backoff;
                    self.attempts = self.attempts + 1;
                    self.backoff = config.next_backoff(self.backoff);
                    RetryStep::WaitAndRetry(wait)
                } else {
                    RetryStep::Surface(code)
                }
            },
        }
    }
}

/// `k` transient failures.
pub open spec fn transient_failures(outcomes: Seq<AttemptOutcome>, k: nat) -> bool {
    &&& k <= outcomes.len()
    &&& forall|i: int| 0 <= i < k ==> match #[trigger] outcomes[i] {
        AttemptOutcome::Failed(code) => code.is_transient_spec(),
        AttemptOutcome::Succeeded => false,
    }
}

proof fn lemma_run_recovers(
    config: RetryConfig,
    state: RetryState,
    outcomes: Seq<AttemptOutcome>,
    k: nat,
)
    requires
        transient_failures(outcomes, k),
        k < outcomes.len(),
        outcomes[k as int] == AttemptOutcome::Succeeded,
        state.attempts + k <= config.max_retries,
    ensures
        run_spec(config, true, state, outcomes) == (Some(Ok::<(), RpcCode>(())), k + 1),
    decreases k,
{
    if k > 0 {
        let (next, step) = step_spec(config, true, state, outcomes[0]);
        assert(outcomes.drop_first()[(k - 1) as int] == outcomes[k as int]);
        assert forall|i: int| 0 <= i < k - 1 implies match #[trigger] outcomes.drop_first()[i] {
            AttemptOutcome::Failed(code) => code.is_transient_spec(),
            AttemptOutcome::Succeeded => false,
        } by {
            assert(outcomes.drop_first()[i] == outcomes[i + 1]);
        }
        lemma_run_recovers(config, next, outcomes.drop_first(), (k - 1) as nat);
    }
}

/// A call that may be retried, against a service that fails transiently `k`
/// times with `k` below the retry limit and then succeeds, succeeds after
/// exactly `k + 1` attempts: the one successful attempt is the last.
pub proof fn lemma_transient_failures_then_success(
    config: RetryConfig,
    idempotency: Idempotency,
    key_supplied: bool,
    outcomes: Seq<AttemptOutcome>,
    k: nat,
)
    requires
        retry_permitted_spec(idempotency, key_supplied),
        k < config.max_retries,
        transient_failures(outcomes, k),
        k < outcomes.len(),
        outcomes[k as int] == AttemptOutcome::Succeeded,
    ensures
        run_spec(config, retry_permitted_spec(idempotency, key_supplied), initial_state(config), outcomes)
            == (Some(Ok::<(), RpcCode>(())), k + 1),
{
    lemma_run_recovers(config, initial_state(config), outcomes, k);
}

/// A call that may not be retried surfaces its first failure, transient or
/// not, after that one attempt.
pub proof fn lemma_no_retry_when_not_permitted(
    config: RetryConfig,
    idempotency: Idempotency,
    key_supplied: bool,
    outcomes: Seq<AttemptOutcome>,
    code: RpcCode,
)
    requires
        !retry_permitted_spec(idempotency, key_supplied),
        outcomes.len() > 0,
        outcomes[0] == AttemptOutcome::Failed(code),
    ensures
        run_spec(config, retry_permitted_spec(idempotency, key_supplied), initial_state(config), outcomes)
            == (Some(Err::<(), RpcCode>(code)), 1nat),
{
}

/// Backoff waits never exceed the ceiling, and grow strictly until they reach
/// it, where they stay.
pub proof fn lemma_backoff_growth(config: RetryConfig, n: nat)
    requires
        config.wf(),
    ensures
        0 < config.backoff_at(n) <= config.max_backoff,
        config.backoff_at(n) < config.max_backoff ==> config.backoff_at(n) < config.backoff_at(n + 1),
        config.backoff_at(n) == config.max_backoff ==> config.backoff_at(n + 1) == config.max_backoff,
    decreases n,
{
    if n > 0 {
        lemma_backoff_growth(config, (n - 1) as nat);
    }
    let b = config.backoff_at(n);
    assert(config.backoff_at(n + 1) == config.next_backoff_spec(b));
    assert(b * config.backoff_multiplier >= b * 2) by (nonlinear_arith)
        requires config.backoff_multiplier >= 2;
}

/// The state after the `n`-th re-issue holds the `n`-th backoff of the schedule.
pub proof fn lemma_state_follows_schedule(
    config: RetryConfig,
    state: RetryState,
    outcome: AttemptOutcome,
    retry_allowed: bool,
)
    requires
        state.backoff == config.backoff_at(state.attempts as nat),
    ensures
        ({
            let (next, _) = step_spec(config, retry_allowed, state, outcome);
            next.backoff == config.backoff_at(next.attempts as nat)
        }),
{
}

} // verus!
