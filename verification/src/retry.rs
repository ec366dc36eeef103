//! The retry engine: exponential backoff with a per-attempt cap and a total
//! time budget, and the decision rule applied after every HTTP attempt.
//!
//! The engine is a pure state machine. The caller performs one HTTP attempt,
//! reports what happened (`got_response` plus the status code) together with
//! the elapsed time, and receives a decision: give up, accept the response,
//! or sleep for the current delay and try again.

use vstd::prelude::*;

verus! {

/// Retry configuration for API requests.
///
/// The backoff multiplier is stored in hundredths, so `200` multiplies the
/// delay by two after each attempt; this keeps the configuration free of
/// floating point while allowing fractional multipliers.
#[derive(Clone, Copy, Debug, PartialEq, Eq, Structural)]
pub struct RetryConfig {
    /// Maximum number of retry attempts (the first attempt is not a retry).
    pub max_retries: u32,
    /// Delay before the first retry, in milliseconds.
    pub initial_delay_ms: u32,
    /// Cap on the delay between retries, in milliseconds.
    pub max_delay_ms: u32,
    /// Multiplier applied to the delay after each retry, in hundredths
    /// (`200` doubles the delay each time). Values below `100` would shrink
    /// the delay; a well-formed configuration keeps it at `100` or more.
    pub backoff_multiplier_hundredths: u32,
    /// Budget on the total time spent across all attempts, in milliseconds.
    pub max_total_timeout_ms: u32,
}

/// A well-formed configuration: the starting delay does not exceed the cap,
/// and the multiplier never shrinks the delay.
pub open spec fn retry_config_wf(cfg: RetryConfig) -> bool {
    &&& cfg.initial_delay_ms <= cfg.max_delay_ms
    &&& cfg.backoff_multiplier_hundredths >= 100
}

impl Default for RetryConfig {
    /// Three retries, starting at one second, doubling up to thirty seconds,
    /// with one minute of total budget.
    fn default() -> (cfg: Self)
        ensures
            cfg.max_retries == 3,
            cfg.initial_delay_ms == 1000,
            cfg.max_delay_ms == 30000,
            cfg.backoff_multiplier_hundredths == 200,
            cfg.max_total_timeout_ms == 60000,
            retry_config_wf(cfg),
    {
        RetryConfig {
            max_retries: 3,
            initial_delay_ms: 1000,
            max_delay_ms: 30000,
            backoff_multiplier_hundredths: 200,
            max_total_timeout_ms: 60000,
        }
    }
}

/// The delay that follows `current` under `cfg`: scale by the multiplier,
/// then cap at `max_delay_ms`.
pub open spec fn spec_next_delay(current: u32, cfg: RetryConfig) -> u32 {
    let scaled = (current * cfg.backoff_multiplier_hundredths) / 100;
    if scaled >= cfg.max_delay_ms {
        cfg.max_delay_ms
    } else {
        scaled as u32
    }
}

/// Advance the backoff delay one step.
pub fn next_delay(current: u32, cfg: &RetryConfig) -> (next: u32)
    ensures
        next == spec_next_delay(current, *cfg),
{
    let mult = cfg.backoff_multiplier_hundredths;
    assert((current as u64) * (mult as u64) <= (u32::MAX as u64) * (u32::MAX as u64))
        by (nonlinear_arith)
        requires
            current <= u32::MAX,
            mult <= u32::MAX,
    ;
    let scaled: u64 = (current as u64) * (mult as u64) / 100;
    if scaled >= cfg.max_delay_ms as u64 {
        cfg.max_delay_ms
    } else {
        scaled as u32
    }
}

/// The delay used before the `n`-th retry (counting from zero).
pub open spec fn spec_delay_at(cfg: RetryConfig, n: nat) -> u32
    decreases n,
{
    if n == 0 {
        cfg.initial_delay_ms
    } else {
        spec_next_delay(spec_delay_at(cfg, (n - 1) as nat), cfg)
    }
}

/// Every delay in a well-formed configuration's backoff sequence stays at or
/// below `max_delay_ms`: the backoff is capped.
pub proof fn lemma_backoff_capped(cfg: RetryConfig, n: nat)
    requires
        retry_config_wf(cfg),
    ensures
        spec_delay_at(cfg, n) <= cfg.max_delay_ms,
    decreases n,
{
    if n > 0 {
        lemma_backoff_capped(cfg, (n - 1) as nat);
    }
}

/// In a well-formed configuration the backoff sequence never decreases: each
/// delay is at least the one before it.
pub proof fn lemma_backoff_monotone(cfg: RetryConfig, n: nat)
    requires
        retry_config_wf(cfg),
    ensures
        spec_delay_at(cfg, n) <= spec_delay_at(cfg, n + 1),
{
    lemma_backoff_capped(cfg, n);
    let current = spec_delay_at(cfg, n);
    let mult = cfg.backoff_multiplier_hundredths;
    assert(current * 100 <= current * mult) by (nonlinear_arith)
        requires
            100 <= mult,
            0 <= current,
    ;
    assert(current <= (current * mult) / 100) by (nonlinear_arith)
        requires
            current * 100 <= current * mult,
            0 <= current,
    ;
}

/// What happened on one HTTP attempt, as far as the retry rule cares: either
/// no response was obtained at all, or a response arrived with this status.
#[derive(Clone, Copy, Debug, PartialEq, Eq, Structural)]
pub enum AttemptOutcome {
    /// Transport-level failure: no response at all.
    TransportError,
    /// A response arrived, successful or not.
    Response { status: u16 },
}

/// What the caller must do after an attempt.
#[derive(Clone, Copy, Debug, PartialEq, Eq, Structural)]
pub enum RetryDecision {
    /// No response was obtained and the budget is spent: report a transport
    /// error.
    GiveUp,
    /// A response arrived that is not to be retried (success, a non-retryable
    /// status, or a retryable one with the budget spent): hand it to the
    /// caller.
    Accept,
    /// Sleep for this many milliseconds, advance the backoff state, and try
    /// again.
    RetryAfter { delay_ms: u32 },
}

/// The attempt counter and current backoff delay of one logical call.
#[derive(Clone, Copy, Debug, PartialEq, Eq, Structural)]
pub struct RetryState {
    /// Which attempt is in flight, starting at 1.
    pub attempt: u32,
    /// The delay that the next retry would sleep, in milliseconds.
    pub current_delay_ms: u32,
}

impl RetryState {
    /// The state at the first attempt.
    pub fn start(cfg: &RetryConfig) -> (s: Self)
        ensures
            s.attempt == 1,
            s.current_delay_ms == cfg.initial_delay_ms,
    {
        RetryState { attempt: 1, current_delay_ms: cfg.initial_delay_ms }
    }

    /// Move to the next attempt: count it and scale the delay.
    pub fn advance(&mut self, cfg: &RetryConfig)
        requires
            old(self).attempt < u32::MAX,
        ensures
            final(self).attempt == old(self).attempt + 1,
            final(self).current_delay_ms == spec_next_delay(old(self).current_delay_ms, *cfg),
    {
        self.attempt = self.attempt + 1;
        self.current_delay_ms = next_delay(self.current_delay_ms, cfg);
    }
}

/// Statuses treated as transient and worth retrying: 429 (rate limited),
/// 502 (bad gateway), 503 (service unavailable) and 504 (gateway timeout).
pub open spec fn spec_is_retryable(status: u16) -> bool {
    status == 429 || status == 502 || status == 503 || status == 504
}

/// Whether the attempt's budget is spent: either the retry count or the
/// total-time budget is exhausted.
pub open spec fn spec_budget_spent(st: RetryState, cfg: RetryConfig, elapsed_ms: u64) -> bool {
    st.attempt > cfg.max_retries || elapsed_ms >= cfg.max_total_timeout_ms
}

/// The decision rule applied after one attempt.
///
/// A transport error retries while budget remains, otherwise gives up. A
/// 200 response and any non-retryable status are accepted at once. A
/// retryable status retries while budget remains, otherwise the response is
/// accepted and surfaced as it is.
pub open spec fn spec_decide(
    outcome: AttemptOutcome,
    st: RetryState,
    cfg: RetryConfig,
    elapsed_ms: u64,
) -> RetryDecision {
    match outcome {
        AttemptOutcome::TransportError => {
            if spec_budget_spent(st, cfg, elapsed_ms) {
                RetryDecision::GiveUp
            } else {
                RetryDecision::RetryAfter { delay_ms: st.current_delay_ms }
            }
        },
        AttemptOutcome::Response { status } => {
            if status == 200 {
                RetryDecision::Accept
            } else if !spec_is_retryable(status) {
                RetryDecision::Accept
            } else if spec_budget_spent(st, cfg, elapsed_ms) {
                RetryDecision::Accept
            } else {
                RetryDecision::RetryAfter { delay_ms: st.current_delay_ms }
            }
        },
    }
}

/// Decide what to do after one HTTP attempt.
pub fn decide(outcome: AttemptOutcome, st: &RetryState, cfg: &RetryConfig, elapsed_ms: u64) -> (d:
    RetryDecision)
    ensures
        d == spec_decide(outcome, *st, *cfg, elapsed_ms),
{
    let budget_spent = st.attempt > cfg.max_retries || elapsed_ms >= cfg.max_total_timeout_ms as u64;
    match outcome {
        AttemptOutcome::TransportError => {
            if budget_spent {
                RetryDecision::GiveUp
            } else {
                RetryDecision::RetryAfter { delay_ms: st.current_delay_ms }
            }
        },
        AttemptOutcome::Response { status } => {
            if status == 200 {
                RetryDecision::Accept
            } else if !(status == 429 || status == 502 || status == 503 || status == 504) {
                RetryDecision::Accept
            } else if budget_spent {
                RetryDecision::Accept
            } else {
                RetryDecision::RetryAfter { delay_ms: st.current_delay_ms }
            }
        },
    }
}

/// Once the budget is spent — the attempt counter has passed `max_retries`
/// or the elapsed time has reached `max_total_timeout_ms` — no outcome leads
/// to another retry. A loop that performs one attempt per decision and
/// advances the counter each time therefore runs at most `max_retries + 1`
/// attempts, and stops as soon as the elapsed time reaches the budget.
pub proof fn lemma_no_retry_once_budget_spent(
    outcome: AttemptOutcome,
    st: RetryState,
    cfg: RetryConfig,
    elapsed_ms: u64,
)
    requires
        spec_budget_spent(st, cfg, elapsed_ms),
    ensures
        !(spec_decide(outcome, st, cfg, elapsed_ms) is RetryAfter),
{
}

/// A retryable status (429, 502, 503 or 504) triggers a retry whenever
/// budget remains.
pub proof fn lemma_retryable_status_retries(
    status: u16,
    st: RetryState,
    cfg: RetryConfig,
    elapsed_ms: u64,
)
    requires
        spec_is_retryable(status),
        !spec_budget_spent(st, cfg, elapsed_ms),
    ensures
        spec_decide(AttemptOutcome::Response { status }, st, cfg, elapsed_ms)
            == (RetryDecision::RetryAfter { delay_ms: st.current_delay_ms }),
{
}

/// A non-retryable status — 401 and 404 among them — is surfaced at once,
/// whatever budget remains.
pub proof fn lemma_non_retryable_status_accepted(
    status: u16,
    st: RetryState,
    cfg: RetryConfig,
    elapsed_ms: u64,
)
    requires
        !spec_is_retryable(status),
    ensures
        spec_decide(AttemptOutcome::Response { status }, st, cfg, elapsed_ms)
            == RetryDecision::Accept,
{
}

} // verus!
