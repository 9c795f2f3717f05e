//! The supervisor: the retry/reconnect state machine that owns the
//! subscription lifecycle.
//!
//! The machine decides, it does not perform: the surrounding process
//! opens the stream, pulls events, calls the reactor and sleeps, and
//! reports each outcome here as a [`SupervisorInput`]. The machine
//! answers with its next state and, on entering backoff, with the delay
//! to wait before reconnecting.

use vstd::prelude::*;

verus! {

/// The failure taxonomy. A failure is fatal exactly when it reports
/// missing or rejected credentials, which no retry can remedy; every
/// other failure of the connection or the stream is transient.
#[derive(Clone, Copy, Debug, PartialEq, Eq, Structural)]
pub enum FailureClass {
    /// Missing or invalid client id, client secret, or access token.
    FatalAuth,
    /// Network, protocol or server trouble that a retry may outlive.
    Transient,
}

/// The pluggable restart strategy: how often to retry after transient
/// failures, and how long to wait before each reconnect.
#[derive(Clone, Copy, Debug, PartialEq, Eq, Structural)]
pub enum RestartPolicy {
    /// Retry forever, waiting `delay_ms` before each attempt.
    Unbounded { delay_ms: u64 },
    /// Retry while the count of consecutive failures stays within
    /// `max_attempts`; then give up visibly.
    Bounded { max_attempts: u64, delay_ms: u64 },
    /// Never retry: the first failure stops the machine.
    NoRetry,
}

/// What a policy answers when asked after a failure.
#[derive(Clone, Copy, Debug, PartialEq, Eq, Structural)]
pub enum PolicyDecision {
    /// Wait `delay_ms`, then reconnect.
    Retry { delay_ms: u64 },
    /// Give up: the machine terminates.
    Stop,
}

/// What a policy decides for a given consecutive-failure count and the
/// failure that was just observed. A fatal failure is never retried.
pub open spec fn spec_decide(
    policy: RestartPolicy,
    attempt_count: u64,
    last_error: FailureClass,
) -> PolicyDecision {
    if last_error is FatalAuth {
        PolicyDecision::Stop
    } else {
        match policy {
            RestartPolicy::Unbounded { delay_ms } => PolicyDecision::Retry { delay_ms },
            RestartPolicy::Bounded { max_attempts, delay_ms } => if attempt_count
                <= max_attempts {
                PolicyDecision::Retry { delay_ms }
            } else {
                PolicyDecision::Stop
            },
            RestartPolicy::NoRetry => PolicyDecision::Stop,
        }
    }
}

impl RestartPolicy {
    /// Asks the policy whether to retry after `last_error`, the
    /// `attempt_count`-th consecutive failure.
    pub fn decide(&self, attempt_count: u64, last_error: FailureClass) -> (d: PolicyDecision)
        ensures
            d == spec_decide(*self, attempt_count, last_error),
    {
        match last_error {
            FailureClass::FatalAuth => PolicyDecision::Stop,
            FailureClass::Transient => match self {
                RestartPolicy::Unbounded { delay_ms } => PolicyDecision::Retry {
                    delay_ms: *delay_ms,
                },
                RestartPolicy::Bounded { max_attempts, delay_ms } => {
                    if attempt_count <= *max_attempts {
                        PolicyDecision::Retry { delay_ms: *delay_ms }
                    } else {
                        PolicyDecision::Stop
                    }
                },
                RestartPolicy::NoRetry => PolicyDecision::Stop,
            },
        }
    }
}

/// The supervisor's states.
#[derive(Clone, Copy, Debug, PartialEq, Eq, Structural)]
pub enum SupervisorState {
    /// An attempt to open the event stream is under way.
    Connecting,
    /// The stream is open and events are being pulled.
    Streaming,
    /// A transient failure happened; the machine waits before it
    /// reconnects.
    BackoffWait,
    /// Absorbing: the machine has stopped, either on a fatal failure or
    /// because the policy gave up.
    Terminated,
}

/// What the surrounding process reports back to the machine.
#[derive(Clone, Copy, Debug, PartialEq, Eq, Structural)]
pub enum SupervisorInput {
    /// The event stream opened.
    ConnectSucceeded,
    /// The open attempt failed, with the failure's class.
    ConnectFailed(FailureClass),
    /// The remote side closed the stream cleanly.
    StreamClosed,
    /// The stream failed, with the failure's class.
    StreamFailed(FailureClass),
    /// A dispatched reaction succeeded.
    ReactionSucceeded,
    /// A dispatched reaction failed; the failure is scoped to its one
    /// event and never disturbs the subscription.
    ReactionFailed,
    /// The backoff delay has elapsed.
    BackoffElapsed,
}

/// The retry/reconnect state machine. `attempts` counts consecutive
/// transient failures; it is cleared by a successful connect.
#[derive(Clone, Copy, Debug, PartialEq, Eq, Structural)]
pub struct Supervisor {
    pub state: SupervisorState,
    pub attempts: u64,
    pub policy: RestartPolicy,
}

/// The failure counter after one more failure; it pins at the largest
/// representable count rather than wrap.
pub open spec fn bumped(attempts: u64) -> u64 {
    if attempts == u64::MAX {
        attempts
    } else {
        (attempts + 1) as u64
    }
}

/// Where a connection or stream failure takes the machine: a fatal
/// failure terminates it at once; a transient failure bumps the counter
/// and asks the policy, which answers backoff-and-retry or stop.
pub open spec fn spec_after_failure(s: Supervisor, error: FailureClass) -> (Supervisor, Option<
    u64,
>) {
    match error {
        FailureClass::FatalAuth => (
            Supervisor { state: SupervisorState::Terminated, attempts: s.attempts, policy: s.policy },
            None,
        ),
        FailureClass::Transient => {
            let attempts = bumped(s.attempts);
            match spec_decide(s.policy, attempts, error) {
                PolicyDecision::Retry { delay_ms } => (
                    Supervisor { state: SupervisorState::BackoffWait, attempts, policy: s.policy },
                    Some(delay_ms),
                ),
                PolicyDecision::Stop => (
                    Supervisor { state: SupervisorState::Terminated, attempts, policy: s.policy },
                    None,
                ),
            }
        },
    }
}

/// The machine's total transition function. `Terminated` absorbs every
/// input; an input that does not concern the current state leaves the
/// machine unchanged. The delay is `Some` exactly when the machine
/// enters `BackoffWait`.
pub open spec fn spec_step(s: Supervisor, input: SupervisorInput) -> (Supervisor, Option<u64>) {
    if s.state is Terminated {
        (s, None)
    } else {
        match input {
            SupervisorInput::ConnectSucceeded => if s.state is Connecting {
                (
                    Supervisor {
                        state: SupervisorState::Streaming,
                        attempts: 0,
                        policy: s.policy,
                    },
                    None,
                )
            } else {
                (s, None)
            },
            SupervisorInput::ConnectFailed(error) => if s.state is Connecting {
                spec_after_failure(s, error)
            } else {
                (s, None)
            },
            SupervisorInput::StreamClosed => if s.state is Streaming {
                spec_after_failure(s, FailureClass::Transient)
            } else {
                (s, None)
            },
            SupervisorInput::StreamFailed(error) => if s.state is Streaming {
                spec_after_failure(s, error)
            } else {
                (s, None)
            },
            SupervisorInput::ReactionSucceeded => (s, None),
            SupervisorInput::ReactionFailed => (s, None),
            SupervisorInput::BackoffElapsed => if s.state is BackoffWait {
                (
                    Supervisor {
                        state: SupervisorState::Connecting,
                        attempts: s.attempts,
                        policy: s.policy,
                    },
                    None,
                )
            } else {
                (s, None)
            },
        }
    }
}

impl Supervisor {
    /// A fresh machine about to make its first connection attempt.
    pub fn new(policy: RestartPolicy) -> (s: Supervisor)
        ensures
            s.state is Connecting,
            s.attempts == 0,
            s.policy == policy,
    {
        Supervisor { state: SupervisorState::Connecting, attempts: 0, policy }
    }

    /// Applies one reported outcome and returns the backoff delay when
    /// the machine decides to wait before reconnecting.
    pub fn step(&mut self, input: SupervisorInput) -> (delay: Option<u64>)
        ensures
            (*final(self), delay) == spec_step(*old(self), input),
    {
        if matches!(self.state, SupervisorState::Terminated) {
            return None;
        }
        match input {
            SupervisorInput::ConnectSucceeded => {
                if matches!(self.state, SupervisorState::Connecting) {
                    self.state = SupervisorState::Streaming;
                    self.attempts = 0;
                }
                None
            },
            SupervisorInput::ConnectFailed(error) => {
                if matches!(self.state, SupervisorState::Connecting) {
                    self.apply_failure(error)
                } else {
                    None
                }
            },
            SupervisorInput::StreamClosed => {
                if matches!(self.state, SupervisorState::Streaming) {
                    self.apply_failure(FailureClass::Transient)
                } else {
                    None
                }
            },
            SupervisorInput::StreamFailed(error) => {
                if matches!(self.state, SupervisorState::Streaming) {
                    self.apply_failure(error)
                } else {
                    None
                }
            },
            SupervisorInput::ReactionSucceeded => None,
            SupervisorInput::ReactionFailed => None,
            SupervisorInput::BackoffElapsed => {
                if matches!(self.state, SupervisorState::BackoffWait) {
                    self.state = SupervisorState::Connecting;
                }
                None
            },
        }
    }

    fn apply_failure(&mut self, error: FailureClass) -> (delay: Option<u64>)
        ensures
            (*final(self), delay) == spec_after_failure(*old(self), error),
    {
        match error {
            FailureClass::FatalAuth => {
                self.state = SupervisorState::Terminated;
                None
            },
            FailureClass::Transient => {
                self.attempts = if self.attempts == u64::MAX {
                    self.attempts
                } else {
                    self.attempts + 1
                };
                match self.policy.decide(self.attempts, error) {
                    PolicyDecision::Retry { delay_ms } => {
                        self.state = SupervisorState::BackoffWait;
                        Some(delay_ms)
                    },
                    PolicyDecision::Stop => {
                        self.state = SupervisorState::Terminated;
                        None
                    },
                }
            },
        }
    }
}

/// `Terminated` is absorbing: no input moves the machine out of it.
pub proof fn lemma_terminated_absorbing(s: Supervisor, input: SupervisorInput)
    requires
        s.state is Terminated,
    ensures
        spec_step(s, input).0 == s,
        spec_step(s, input).1 is None,
{
}

/// A fatal authentication failure terminates the machine at once, for
/// every policy and every attempt count, and no backoff delay is
/// handed out: the machine never waits to retry a fatal failure.
pub proof fn lemma_fatal_failure_terminates(s: Supervisor, input: SupervisorInput)
    requires
        (s.state is Connecting && input == SupervisorInput::ConnectFailed(
            FailureClass::FatalAuth,
        )) || (s.state is Streaming && input == SupervisorInput::StreamFailed(
            FailureClass::FatalAuth,
        )),
    ensures
        spec_step(s, input).0.state is Terminated,
        spec_step(s, input).1 is None,
{
}

/// Under an unbounded policy a transient failure always leads to
/// backoff, never to termination.
pub proof fn lemma_transient_failure_retried(s: Supervisor)
    requires
        s.policy is Unbounded,
        !(s.state is Terminated),
    ensures
        spec_after_failure(s, FailureClass::Transient).0.state is BackoffWait,
        spec_after_failure(s, FailureClass::Transient).1 is Some,
{
}

/// Retry works: from backoff, once the delay elapses and the reconnect
/// succeeds, the machine streams again with its failure counter
/// cleared, and it never passes through `Terminated` on the way.
pub proof fn lemma_retry_reaches_streaming(s: Supervisor)
    requires
        s.state is BackoffWait,
    ensures
        ({
            let reconnecting = spec_step(s, SupervisorInput::BackoffElapsed).0;
            let streaming = spec_step(reconnecting, SupervisorInput::ConnectSucceeded).0;
            &&& reconnecting.state is Connecting
            &&& streaming.state is Streaming
            &&& streaming.attempts == 0
        }),
{
}

/// A reactor failure is absorbed without any change to the machine, so
/// later events of the same session are still pulled, classified and,
/// when they match, acted upon.
pub proof fn lemma_reaction_failure_keeps_streaming(s: Supervisor)
    requires
        s.state is Streaming,
    ensures
        spec_step(s, SupervisorInput::ReactionFailed).0 == s,
        spec_step(s, SupervisorInput::ReactionSucceeded).0 == s,
{
}

} // verus!
