//! The retry loop around the attempts of one credential, and the collection
//! of the outcomes of many credentials in the order of the input.

use vstd::prelude::*;
use std::time::Duration;
use crate::api::translated;
use crate::checker::{check_view, checked, is_header_text, Attempt, CheckStep, Checker};
use crate::utils::enums::{ApiError, ApiErrorView, IoFault};
use crate::utils::parse::{duration_from_secs, duration_of_secs};
use crate::utils::structs::{TokenResult, TokenResultView};

verus! {

/// The number of attempts that a run allows where the caller names none.
pub const DEFAULT_CHECK_RETRIES: u8 = 5;

/// The seconds that a run waits after a rate limit where the caller names
/// none.
pub const DEFAULT_RATELIMIT_RETRY_SECS: u64 = 10;

/// The seconds that a run waits after a fault of the network where the
/// caller names none.
pub const DEFAULT_NETWORK_RETRY_SECS: u64 = 5;

/// What a run is told on the command line.
#[derive(Debug, PartialEq, Eq)]
pub struct Args {
    /// The credential to check, or the name of a file of credentials.
    pub token: String,
    /// Whether the report hides the last part of each credential.
    pub mask_token: bool,
    /// The number of attempts allowed for each credential.
    pub check_retries: u8,
    /// The pause before the next attempt after a rate limit.
    pub ratelimit_retry_delay: Duration,
    /// The pause before the next attempt after a fault of the network.
    pub network_retry_delay: Duration,
}

/// How often the check of a credential is attempted, and how long it
/// pauses between attempts.
#[derive(Debug, Clone, Copy, PartialEq, Eq)]
pub struct RetryPolicy {
    pub max_attempts: u8,
    pub ratelimit_retry_delay: Duration,
    pub network_retry_delay: Duration,
}

impl Default for RetryPolicy {
    /// The policy of a run that is told nothing else.
    fn default() -> (policy: RetryPolicy)
        ensures
            policy == (RetryPolicy {
                max_attempts: DEFAULT_CHECK_RETRIES,
                ratelimit_retry_delay: duration_of_secs(DEFAULT_RATELIMIT_RETRY_SECS),
                network_retry_delay: duration_of_secs(DEFAULT_NETWORK_RETRY_SECS),
            }),
    {
        RetryPolicy {
            max_attempts: DEFAULT_CHECK_RETRIES,
            ratelimit_retry_delay: duration_from_secs(DEFAULT_RATELIMIT_RETRY_SECS),
            network_retry_delay: duration_from_secs(DEFAULT_NETWORK_RETRY_SECS),
        }
    }
}

impl Args {
    /// The retry policy that the arguments ask for.
    pub fn policy(&self) -> (policy: RetryPolicy)
        ensures
            policy == (RetryPolicy {
                max_attempts: self.check_retries,
                ratelimit_retry_delay: self.ratelimit_retry_delay,
                network_retry_delay: self.network_retry_delay,
            }),
    {
        RetryPolicy {
            max_attempts: self.check_retries,
            ratelimit_retry_delay: self.ratelimit_retry_delay,
            network_retry_delay: self.network_retry_delay,
        }
    }
}

/// How the failure of an attempt bears on the attempts that may follow.
#[derive(Debug, Clone, Copy, PartialEq, Eq)]
pub enum FailureClass {
    /// A fault of the network that another attempt may not meet.
    Transient,
    /// The upstream asked for a pause.
    RateLimited,
    /// Another attempt would fail in the same way.
    Terminal,
}

/// The class of a failure. Of the faults of the transport only those of the
/// timeout, connect and request kind are worth another attempt.
pub open spec fn failure_class(error: ApiErrorView) -> FailureClass {
    match error {
        ApiErrorView::RequestError(fault) => if fault.transient() {
            FailureClass::Transient
        } else {
            FailureClass::Terminal
        },
        ApiErrorView::RateLimited(_) => FailureClass::RateLimited,
        _ => FailureClass::Terminal,
    }
}

/// The pause after which attempt number `attempt`, counted from zero and
/// ended with `outcome`, is followed by another, or `None` where the run
/// ends with it. A success ends the run, and so does a terminal failure,
/// and any failure of the last attempt that the policy allows.
pub open spec fn pause_after(
    policy: RetryPolicy,
    attempt: nat,
    outcome: Result<TokenResultView, ApiErrorView>,
) -> Option<Duration> {
    match outcome {
        Ok(_) => None,
        Err(error) => if attempt + 1 < policy.max_attempts {
            match failure_class(error) {
                FailureClass::Transient => Some(policy.network_retry_delay),
                FailureClass::RateLimited => Some(policy.ratelimit_retry_delay),
                FailureClass::Terminal => None,
            }
        } else {
            None
        },
    }
}

/// The failure that a run ends with where its policy allows no attempt.
pub open spec fn no_attempt_failure() -> ApiErrorView {
    ApiErrorView::IoError("Initial loop error"@)
}

/// What a run did and how it ended.
pub ghost struct Run {
    /// The number of attempts that were made.
    pub attempts: nat,
    /// The number of attempts in which the auxiliary calls were made.
    pub fan_outs: nat,
    /// The pauses between the attempts, in order.
    pub delays: Seq<Duration>,
    /// The outcome of the run.
    pub outcome: Result<TokenResultView, ApiErrorView>,
}

/// Whether the auxiliary calls are made in an attempt: 1 where the identity
/// call succeeds, 0 where it fails.
pub open spec fn fan_outs_in(attempt: Attempt) -> nat {
    if translated(attempt.identity) is Ok {
        1
    } else {
        0
    }
}

/// The run from attempt number `attempt` on, where `script[i]` is what the
/// upstream brings back in attempt number `i`.
pub open spec fn run_from(
    policy: RetryPolicy,
    token: Seq<char>,
    script: Seq<Attempt>,
    attempt: nat,
) -> Run
    decreases policy.max_attempts - attempt,
{
    let outcome = checked(token, script[attempt as int]);
    let pause = pause_after(policy, attempt, outcome);
    if pause is Some && attempt + 1 < policy.max_attempts {
        let rest = run_from(policy, token, script, attempt + 1);
        Run {
            attempts: rest.attempts + 1,
            fan_outs: rest.fan_outs + fan_outs_in(script[attempt as int]),
            delays: seq![pause->0] + rest.delays,
            outcome: rest.outcome,
        }
    } else {
        Run {
            attempts: 1,
            fan_outs: fan_outs_in(script[attempt as int]),
            delays: Seq::empty(),
            outcome,
        }
    }
}

/// The run of the check of the credential `token` under `policy`, where
/// `script[i]` is what the upstream brings back in attempt number `i`. A
/// policy that allows no attempt gives a run without one, which fails.
pub open spec fn run(policy: RetryPolicy, token: Seq<char>, script: Seq<Attempt>) -> Run {
    if policy.max_attempts == 0 {
        Run { attempts: 0, fan_outs: 0, delays: Seq::empty(), outcome: Err(no_attempt_failure()) }
    } else {
        run_from(policy, token, script, 0)
    }
}

impl ApiError {
    /// Tells how the failure bears on the attempts that may follow.
    pub fn class(&self) -> (class: FailureClass)
        ensures
            class == failure_class(self@),
    {
        match self {
            ApiError::RequestError(fault) => if fault.timeout || fault.connect || fault.request {
                FailureClass::Transient
            } else {
                FailureClass::Terminal
            },
            ApiError::RateLimited(_) => FailureClass::RateLimited,
            _ => FailureClass::Terminal,
        }
    }
}

/// The retry loop of one credential, while an attempt is under way.
#[derive(Debug, PartialEq, Eq)]
pub struct RetryLoop {
    policy: RetryPolicy,
    attempt: u8,
}

/// How a run goes on after an attempt.
#[derive(Debug, PartialEq, Eq)]
pub enum Next {
    /// Pause for the given time, then make another attempt.
    Retry(Duration, RetryLoop),
    /// The run is over, with this outcome.
    Done(Result<TokenResult, ApiError>),
}

impl RetryLoop {
    /// The attempt under way is one that the policy allows.
    #[verifier::type_invariant]
    spec fn attempt_allowed(self) -> bool {
        self.attempt < self.policy.max_attempts
    }

    /// The policy of the run.
    pub closed spec fn spec_policy(self) -> RetryPolicy {
        self.policy
    }

    /// The number of the attempt under way, counted from zero.
    pub closed spec fn spec_attempt(self) -> nat {
        self.attempt as nat
    }

    /// Returns the policy of the run.
    pub fn policy(&self) -> (policy: RetryPolicy)
        ensures
            policy == self.spec_policy(),
    {
        self.policy
    }

    /// Returns the number of the attempt under way, counted from zero.
    pub fn attempt(&self) -> (attempt: u8)
        ensures
            attempt == self.spec_attempt(),
            attempt < self.spec_policy().max_attempts,
    {
        proof {
            use_type_invariant(self);
        }
        self.attempt
    }

    /// Starts a run: the first attempt is under way. Where the policy
    /// allows no attempt, the run is over at once, and has failed.
    pub fn begin(policy: RetryPolicy) -> (started: Result<RetryLoop, ApiError>)
        ensures
            match started {
                Ok(state) => policy.max_attempts > 0 && state.spec_policy() == policy
                    && state.spec_attempt() == 0,
                Err(error) => policy.max_attempts == 0 && error@ == no_attempt_failure(),
            },
    {
        if policy.max_attempts == 0 {
            Err(ApiError::IoError(IoFault { detail: String::from_str("Initial loop error") }))
        } else {
            Ok(RetryLoop { policy, attempt: 0 })
        }
    }

    /// Decides, after the attempt under way has ended with `result`, how
    /// the run goes on. A success ends it. A transient fault of the network
    /// and a rate limit are followed by another attempt, after the pause
    /// that the policy sets for each, as long as the policy allows one;
    /// every other failure, and any failure of the last attempt allowed,
    /// ends the run. A run that ends hands `result` on as it is.
    pub fn settle(self, result: Result<TokenResult, ApiError>) -> (next: Next)
        ensures
            match pause_after(self.spec_policy(), self.spec_attempt(), check_view(result)) {
                Some(pause) => next matches Next::Retry(delay, state) && delay == pause
                    && state.spec_policy() == self.spec_policy() && state.spec_attempt()
                    == self.spec_attempt() + 1,
                None => next == Next::Done(result),
            },
    {
        proof {
            use_type_invariant(&self);
        }
        let more = self.attempt < self.policy.max_attempts - 1;
        let pause = match &result {
            Ok(_) => None,
            Err(error) => if more {
                match error.class() {
                    FailureClass::Transient => Some(self.policy.network_retry_delay),
                    FailureClass::RateLimited => Some(self.policy.ratelimit_retry_delay),
                    FailureClass::Terminal => None,
                }
            } else {
                None
            },
        };
        match pause {
            Some(delay) => Next::Retry(
                delay,
                RetryLoop { policy: self.policy, attempt: self.attempt + 1 },
            ),
            None => Next::Done(result),
        }
    }
}

/// What a replayed run did and how it ended.
#[derive(Debug, PartialEq, Eq)]
pub struct Report {
    /// The number of attempts that were made.
    pub attempts: usize,
    /// The number of attempts in which the auxiliary calls were made.
    pub fan_outs: usize,
    /// The pauses between the attempts, in order.
    pub delays: Vec<Duration>,
    /// The outcome of the run.
    pub outcome: Result<TokenResult, ApiError>,
}

impl View for Report {
    type V = Run;

    open spec fn view(&self) -> Run {
        Run {
            attempts: self.attempts as nat,
            fan_outs: self.fan_outs as nat,
            delays: self.delays@,
            outcome: check_view(self.outcome),
        }
    }
}

impl RetryLoop {
    /// Replays the run of the check of the credential `token` on a script:
    /// `script[i]` is what the upstream brings back in attempt number `i`.
    /// Nothing is sent and nothing is waited for; the report tells what a
    /// driver would have done. The script must reach as far as the policy
    /// allows attempts.
    pub fn replay(policy: RetryPolicy, token: &str, script: Vec<Attempt>) -> (report: Report)
        requires
            is_header_text(token@),
            script@.len() >= policy.max_attempts,
        ensures
            report@ == run(policy, token@, script@),
    {
        let mut state = match Self::begin(policy) {
            Ok(state) => state,
            Err(error) => {
                return Report { attempts: 0, fan_outs: 0, delays: Vec::new(), outcome: Err(error) };
            },
        };
        let checker = Checker::new(token);
        let mut rest = script;
        let mut attempts: usize = 0;
        let mut fan_outs: usize = 0;
        let mut delays: Vec<Duration> = Vec::new();
        loop
            invariant
                policy.max_attempts > 0,
                script@.len() >= policy.max_attempts,
                checker.token_text() == token@,
                state.spec_policy() == policy,
                state.spec_attempt() == attempts,
                attempts < policy.max_attempts,
                fan_outs <= attempts,
                rest@ == script@.skip(attempts as int),
                run(policy, token@, script@).attempts == attempts + run_from(
                    policy,
                    token@,
                    script@,
                    attempts as nat,
                ).attempts,
                run(policy, token@, script@).fan_outs == fan_outs + run_from(
                    policy,
                    token@,
                    script@,
                    attempts as nat,
                ).fan_outs,
                run(policy, token@, script@).delays == delays@ + run_from(
                    policy,
                    token@,
                    script@,
                    attempts as nat,
                ).delays,
                run(policy, token@, script@).outcome == run_from(
                    policy,
                    token@,
                    script@,
                    attempts as nat,
                ).outcome,
            decreases policy.max_attempts - attempts,
        {
            let Attempt { identity, fan_out } = rest.remove(0);
            let result = match checker.check(identity) {
                CheckStep::FanOut(info) => {
                    fan_outs = fan_outs + 1;
                    checker.process_token(info, fan_out)
                },
                CheckStep::Failed(error) => Err(error),
            };
            match state.settle(result) {
                Next::Retry(delay, next) => {
                    let ghost before = delays@;
                    delays.push(delay);
                    attempts = attempts + 1;
                    state = next;
                    proof {
                        let rest_run = run_from(policy, token@, script@, attempts as nat);
                        assert(before + (seq![delay] + rest_run.delays) =~= delays@
                            + rest_run.delays);
                    }
                },
                Next::Done(outcome) => {
                    return Report { attempts: attempts + 1, fan_outs, delays, outcome };
                },
            }
        }
    }
}

/// A run that makes an attempt ends with what its last attempt ended with.
pub proof fn lemma_outcome_is_last_attempt(
    policy: RetryPolicy,
    token: Seq<char>,
    script: Seq<Attempt>,
)
    requires
        policy.max_attempts >= 1,
    ensures
        1 <= run(policy, token, script).attempts <= policy.max_attempts,
        run(policy, token, script).outcome == checked(
            token,
            script[run(policy, token, script).attempts - 1],
        ),
{
    lemma_outcome_is_last_attempt_from(policy, token, script, 0);
}

/// The run from some attempt on ends with what its last attempt ended with.
proof fn lemma_outcome_is_last_attempt_from(
    policy: RetryPolicy,
    token: Seq<char>,
    script: Seq<Attempt>,
    attempt: nat,
)
    requires
        attempt < policy.max_attempts,
    ensures
        1 <= run_from(policy, token, script, attempt).attempts <= policy.max_attempts - attempt,
        run_from(policy, token, script, attempt).outcome == checked(
            token,
            script[attempt + run_from(policy, token, script, attempt).attempts - 1],
        ),
    decreases policy.max_attempts - attempt,
{
    let outcome = checked(token, script[attempt as int]);
    if pause_after(policy, attempt, outcome) is Some && attempt + 1 < policy.max_attempts {
        lemma_outcome_is_last_attempt_from(policy, token, script, attempt + 1);
    }
}

/// Where the identity call succeeds in no attempt, the auxiliary calls are
/// never made, and the run ends in failure: the failure of the identity
/// call of its last attempt. This holds of every policy that allows an
/// attempt.
pub proof fn lemma_no_identity_no_fan_out(
    policy: RetryPolicy,
    token: Seq<char>,
    script: Seq<Attempt>,
)
    requires
        policy.max_attempts >= 1,
        forall|i: int|
            0 <= i < policy.max_attempts ==> translated(#[trigger] script[i].identity) is Err,
    ensures
        run(policy, token, script).fan_outs == 0,
        1 <= run(policy, token, script).attempts <= policy.max_attempts,
        run(policy, token, script).outcome == Err::<TokenResultView, ApiErrorView>(
            translated(script[run(policy, token, script).attempts - 1].identity)->Err_0,
        ),
{
    lemma_no_identity_no_fan_out_from(policy, token, script, 0);
}

/// The same, of the run from some attempt on.
proof fn lemma_no_identity_no_fan_out_from(
    policy: RetryPolicy,
    token: Seq<char>,
    script: Seq<Attempt>,
    attempt: nat,
)
    requires
        attempt < policy.max_attempts,
        forall|i: int|
            0 <= i < policy.max_attempts ==> translated(#[trigger] script[i].identity) is Err,
    ensures
        run_from(policy, token, script, attempt).fan_outs == 0,
        1 <= run_from(policy, token, script, attempt).attempts <= policy.max_attempts - attempt,
        run_from(policy, token, script, attempt).outcome == Err::<TokenResultView, ApiErrorView>(
            translated(
                script[attempt + run_from(policy, token, script, attempt).attempts - 1].identity,
            )->Err_0,
        ),
    decreases policy.max_attempts - attempt,
{
    let outcome = checked(token, script[attempt as int]);
    if pause_after(policy, attempt, outcome) is Some && attempt + 1 < policy.max_attempts {
        lemma_no_identity_no_fan_out_from(policy, token, script, attempt + 1);
    }
}

/// Whether the identity call of every attempt that `policy` allows fails
/// in `script`, with a failure of the class `class`.
pub open spec fn always_fails_as(
    policy: RetryPolicy,
    script: Seq<Attempt>,
    class: FailureClass,
) -> bool {
    forall|i: int|
        0 <= i < policy.max_attempts ==> (translated(#[trigger] script[i].identity) matches Err(
            error,
        ) && failure_class(error) == class)
}

/// Where the identity call fails in every attempt with a transient fault of
/// the network, a run makes exactly as many attempts as the policy allows,
/// pauses between each two of them for the time that the policy sets for
/// such faults, and ends with the fault of its last attempt. This holds of
/// every policy that allows an attempt.
pub proof fn lemma_transient_faults_exhaust(
    policy: RetryPolicy,
    token: Seq<char>,
    script: Seq<Attempt>,
)
    requires
        policy.max_attempts >= 1,
        always_fails_as(policy, script, FailureClass::Transient),
    ensures
        run(policy, token, script).attempts == policy.max_attempts,
        run(policy, token, script).delays == Seq::new(
            (policy.max_attempts - 1) as nat,
            |i: int| policy.network_retry_delay,
        ),
        run(policy, token, script).fan_outs == 0,
        run(policy, token, script).outcome == Err::<TokenResultView, ApiErrorView>(
            translated(script[policy.max_attempts - 1].identity)->Err_0,
        ),
{
    lemma_retried_failures_exhaust(
        policy,
        token,
        script,
        FailureClass::Transient,
        policy.network_retry_delay,
        0,
    );
}

/// Where the identity call is told in every attempt to back off, a run
/// makes exactly as many attempts as the policy allows, pauses between each
/// two of them for the time that the policy sets for rate limits, and ends
/// with the rate limit of its last attempt. This holds of every policy that
/// allows an attempt.
pub proof fn lemma_rate_limits_exhaust(
    policy: RetryPolicy,
    token: Seq<char>,
    script: Seq<Attempt>,
)
    requires
        policy.max_attempts >= 1,
        always_fails_as(policy, script, FailureClass::RateLimited),
    ensures
        run(policy, token, script).attempts == policy.max_attempts,
        run(policy, token, script).delays == Seq::new(
            (policy.max_attempts - 1) as nat,
            |i: int| policy.ratelimit_retry_delay,
        ),
        run(policy, token, script).fan_outs == 0,
        run(policy, token, script).outcome == Err::<TokenResultView, ApiErrorView>(
            translated(script[policy.max_attempts - 1].identity)->Err_0,
        ),
{
    lemma_retried_failures_exhaust(
        policy,
        token,
        script,
        FailureClass::RateLimited,
        policy.ratelimit_retry_delay,
        0,
    );
}

/// A failure of a class that is retried, met in every attempt, takes the
/// run from any attempt on through all the attempts that are left.
proof fn lemma_retried_failures_exhaust(
    policy: RetryPolicy,
    token: Seq<char>,
    script: Seq<Attempt>,
    class: FailureClass,
    delay: Duration,
    attempt: nat,
)
    requires
        attempt < policy.max_attempts,
        always_fails_as(policy, script, class),
        class == FailureClass::Transient && delay == policy.network_retry_delay || class
            == FailureClass::RateLimited && delay == policy.ratelimit_retry_delay,
    ensures
        run_from(policy, token, script, attempt).attempts == policy.max_attempts - attempt,
        run_from(policy, token, script, attempt).delays == Seq::new(
            (policy.max_attempts - 1 - attempt) as nat,
            |i: int| delay,
        ),
        run_from(policy, token, script, attempt).fan_outs == 0,
        run_from(policy, token, script, attempt).outcome == Err::<TokenResultView, ApiErrorView>(
            translated(script[policy.max_attempts - 1].identity)->Err_0,
        ),
    decreases policy.max_attempts - attempt,
{
    let failed = translated(script[attempt as int].identity);
    if attempt + 1 < policy.max_attempts {
        lemma_retried_failures_exhaust(policy, token, script, class, delay, attempt + 1);
        let rest = run_from(policy, token, script, attempt + 1);
        assert(seq![delay] + rest.delays =~= Seq::new(
            (policy.max_attempts - 1 - attempt) as nat,
            |i: int| delay,
        ));
    } else {
        assert(Seq::<Duration>::empty() =~= Seq::new(
            (policy.max_attempts - 1 - attempt) as nat,
            |i: int| delay,
        ));
    }
}

} // verus!
