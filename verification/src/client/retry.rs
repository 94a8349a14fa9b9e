//! Bounded exponential backoff for a server that reports overload.
//!
//! The coordinator is a state machine. The embedding program reports what
//! happened (it is ready to send, or a response with some status came in) and
//! is told what to do next: send the request, sleep and come back, hand the
//! response on, or give up.

use vstd::prelude::*;
use crate::client::ClientConfig;
use crate::error::{Error, ErrorKind, ErrorModel};

verus! {

/// The HTTP status with which the server asks its clients to slow down. It is
/// the only status that is retried.
pub const SERVICE_UNAVAILABLE: u16 = 503;

/// What the embedding program reports to the coordinator.
#[derive(Clone, Copy, Debug, PartialEq, Eq, Structural)]
pub enum Event {
    /// Nothing is in flight: the fetch has just begun, or a backoff sleep is
    /// over.
    Ready,
    /// The request was answered with this HTTP status.
    Response(u16),
    /// The request could not be sent, or no response to it came in.
    Failed,
}

/// What the coordinator tells the embedding program to do.
#[derive(Clone, Copy, Debug, PartialEq, Eq, Structural)]
pub enum Action {
    /// Pass the rate gate, send the request, and report the response.
    Send,
    /// Sleep for this many milliseconds, then report [`Event::Ready`].
    Backoff(u64),
    /// The response is final, whatever its status: decode its body.
    Deliver,
    /// The retry budget is used up: fail with [`retries_exhausted`].
    GiveUp,
    /// The transport failed: fail with [`transport_failure`]. The request is
    /// not sent again.
    Abort,
}

/// Progress of one fetch through the retry loop. A new fetch starts from a
/// new state.
#[derive(Clone, Copy, Debug, PartialEq, Eq, Structural)]
pub struct RetryState {
    /// How many overload responses were seen.
    pub attempts: u8,
    /// The delay to sleep after the next overload response, in milliseconds.
    pub backoff: u64,
}

/// `2` to the power `n`.
pub open spec fn pow2(n: nat) -> nat
    decreases n,
{
    if n == 0 {
        1
    } else {
        2 * pow2((n - 1) as nat)
    }
}

/// The machine over unbounded numbers: state and event to next state and
/// action.
pub open spec fn step_spec(
    attempts: nat,
    backoff: nat,
    max_retries: nat,
    event: Event,
) -> (nat, nat, Action) {
    match event {
        Event::Ready => if attempts < max_retries {
            (attempts, backoff, Action::Send)
        } else {
            (attempts, backoff, Action::GiveUp)
        },
        Event::Response(status) => if status == SERVICE_UNAVAILABLE {
            (attempts + 1, 2 * backoff, Action::Backoff(backoff as u64))
        } else {
            (attempts, backoff, Action::Deliver)
        },
        Event::Failed => (attempts, backoff, Action::Abort),
    }
}

/// How a fetch ends when the server answers the successive requests with the
/// given statuses.
pub struct Outcome {
    /// Requests that were sent.
    pub requests: nat,
    /// Milliseconds spent in backoff sleeps.
    pub slept: nat,
    /// Whether a response was handed on for decoding, as opposed to giving up.
    pub delivered: bool,
}

/// Runs the machine from the given state against a server whose `i`-th
/// answer has status `statuses[i]`. The run ends when a response is delivered,
/// when the budget is used up, or when the recorded answers run out.
pub open spec fn run(attempts: nat, backoff: nat, max_retries: nat, statuses: Seq<u16>) -> Outcome
    decreases statuses.len(),
{
    if attempts >= max_retries || statuses.len() == 0 {
        Outcome { requests: 0, slept: 0, delivered: false }
    } else if statuses[0] != SERVICE_UNAVAILABLE {
        Outcome { requests: 1, slept: 0, delivered: true }
    } else {
        let rest = run(attempts + 1, 2 * backoff, max_retries, statuses.skip(1));
        Outcome {
            requests: rest.requests + 1,
            slept: rest.slept + backoff,
            delivered: rest.delivered,
        }
    }
}

impl RetryState {
    /// The state at the start of a fetch: no attempt made, the configured
    /// initial delay.
    pub fn start(config: &ClientConfig) -> (state: RetryState)
        ensures
            state.attempts == 0,
            state.backoff == config.waits.backoff_init,
    {
        RetryState { attempts: 0, backoff: config.waits.backoff_init }
    }

    /// Whether the machine can take `event` in this state: a response can only
    /// follow a request, which is granted only within the budget, and the
    /// doubled delay has to be representable.
    pub open spec fn accepts(self, max_retries: u8, event: Event) -> bool {
        event matches Event::Response(status) ==> (status == SERVICE_UNAVAILABLE ==> self.attempts
            < max_retries && 2 * self.backoff <= u64::MAX)
    }

    /// Executable form of [`RetryState::accepts`].
    pub fn can_step(&self, config: &ClientConfig, event: Event) -> (ok: bool)
        ensures
            ok == self.accepts(config.max_retries, event),
    {
        self.can_step_within(config.max_retries, event)
    }

    /// Whether `event` can be taken in this state with a budget of
    /// `max_retries`.
    pub fn can_step_within(&self, max_retries: u8, event: Event) -> (ok: bool)
        ensures
            ok == self.accepts(max_retries, event),
    {
        match event {
            Event::Ready => true,
            Event::Response(status) => status != SERVICE_UNAVAILABLE || (self.attempts
                < max_retries && self.backoff <= u64::MAX / 2),
            Event::Failed => true,
        }
    }

    /// Takes one step: updates the state and answers what to do.
    ///
    /// An overload response is answered with a backoff of the current delay,
    /// which then doubles; any other response is delivered. When ready, the
    /// request is sent as long as fewer overload responses were seen than the
    /// configuration allows retries. A failure of the transport ends the
    /// fetch; only overload is retried.
    pub fn step(&mut self, config: &ClientConfig, event: Event) -> (action: Action)
        requires
            old(self).accepts(config.max_retries, event),
        ensures
            (final(self).attempts as nat, final(self).backoff as nat, action) == step_spec(
                old(self).attempts as nat,
                old(self).backoff as nat,
                config.max_retries as nat,
                event,
            ),
    {
        self.step_within(config.max_retries, event)
    }

    /// Takes one step with a budget of `max_retries`, as [`RetryState::step`]
    /// does with the budget of a configuration.
    pub fn step_within(&mut self, max_retries: u8, event: Event) -> (action: Action)
        requires
            old(self).accepts(max_retries, event),
        ensures
            (final(self).attempts as nat, final(self).backoff as nat, action) == step_spec(
                old(self).attempts as nat,
                old(self).backoff as nat,
                max_retries as nat,
                event,
            ),
    {
        match event {
            Event::Ready => {
                if self.attempts < max_retries {
                    Action::Send
                } else {
                    Action::GiveUp
                }
            },
            Event::Response(status) => {
                if status == SERVICE_UNAVAILABLE {
                    let delay = self.backoff;
                    self.attempts = self.attempts + 1;
                    self.backoff = 2 * delay;
                    Action::Backoff(delay)
                } else {
                    Action::Deliver
                }
            },
            Event::Failed => Action::Abort,
        }
    }
}

/// The failure that ends a fetch whose retry budget is used up.
pub fn retries_exhausted() -> (e: Error)
    ensures
        e@ == (ErrorModel {
            message: "MusicBrainz returned 503 (ServiceUnavailable) too many times."@,
            kind: ErrorKind::Communication,
        }),
{
    Error::new(
        "MusicBrainz returned 503 (ServiceUnavailable) too many times.",
        ErrorKind::Communication,
    )
}

/// The failure of the transport, with what the transport said of it. It is
/// an operating condition that a caller can act on, not a defect.
pub open spec fn transport_failure_spec(detail: Seq<char>) -> ErrorModel {
    ErrorModel { message: "transport error: "@ + detail, kind: ErrorKind::Communication }
}

/// The failure that ends a fetch whose request could not be sent or was not
/// answered.
pub fn transport_failure(detail: &str) -> (e: Error)
    ensures
        e@ == transport_failure_spec(detail@),
        !e@.kind.spec_is_bug(),
{
    let message = crate::text::appended("transport error: ", detail);
    Error::new(message.as_str(), ErrorKind::Communication)
}

/// The failure to put a request together, which is a defect of the caller or
/// of this library.
pub open spec fn request_failure_spec(detail: Seq<char>) -> ErrorModel {
    ErrorModel { message: "request error: "@ + detail, kind: ErrorKind::Internal }
}

/// The failure that ends a fetch whose request cannot be put together, as
/// with a user agent that no header can hold.
pub fn request_failure(detail: &str) -> (e: Error)
    ensures
        e@ == request_failure_spec(detail@),
        e@.kind.spec_is_bug(),
{
    let message = crate::text::appended("request error: ", detail);
    Error::new(message.as_str(), ErrorKind::Internal)
}

/// The sum `2^0 + 2^1 + ... + 2^(k-1)`.
pub open spec fn pow2_sum(k: nat) -> nat
    decreases k,
{
    if k == 0 {
        0
    } else {
        pow2_sum((k - 1) as nat) + pow2((k - 1) as nat)
    }
}

/// The sum of the first `k` powers of two is one less than the next power.
pub proof fn lemma_pow2_sum(k: nat)
    ensures
        pow2_sum(k) + 1 == pow2(k),
    decreases k,
{
    if k > 0 {
        lemma_pow2_sum((k - 1) as nat);
    }
}

/// A run is the run that the machine's steps produce: one request per
/// `Ready` event that is answered with `Send`, one sleep per overload
/// response.
pub proof fn lemma_run_follows_steps(
    attempts: nat,
    backoff: nat,
    max_retries: nat,
    statuses: Seq<u16>,
)
    requires
        statuses.len() > 0,
    ensures
        step_spec(attempts, backoff, max_retries, Event::Ready).2 == Action::GiveUp ==> run(
            attempts,
            backoff,
            max_retries,
            statuses,
        ) == (Outcome { requests: 0, slept: 0, delivered: false }),
        step_spec(attempts, backoff, max_retries, Event::Ready).2 == Action::Send && step_spec(
            attempts,
            backoff,
            max_retries,
            Event::Response(statuses[0]),
        ).2 == Action::Deliver ==> run(attempts, backoff, max_retries, statuses) == (Outcome {
            requests: 1,
            slept: 0,
            delivered: true,
        }),
        step_spec(attempts, backoff, max_retries, Event::Ready).2 == Action::Send && step_spec(
            attempts,
            backoff,
            max_retries,
            Event::Response(statuses[0]),
        ).2 is Backoff ==> {
            let next = step_spec(attempts, backoff, max_retries, Event::Response(statuses[0]));
            let rest = run(next.0, next.1, max_retries, statuses.skip(1));
            run(attempts, backoff, max_retries, statuses) == (Outcome {
                requests: rest.requests + 1,
                slept: rest.slept + backoff,
                delivered: rest.delivered,
            })
        },
{
}

/// A server that reports overload `k` times, with `k` below the retry budget,
/// and then answers with any other status: the fetch delivers that answer
/// after `k + 1` requests, and has slept the initial delay times
/// `2^0 + 2^1 + ... + 2^(k-1)`.
pub proof fn lemma_overload_then_success(
    attempts: nat,
    backoff: nat,
    max_retries: nat,
    statuses: Seq<u16>,
    k: nat,
)
    requires
        attempts + k < max_retries,
        k < statuses.len(),
        forall|i: int| 0 <= i < k ==> statuses[i] == SERVICE_UNAVAILABLE,
        statuses[k as int] != SERVICE_UNAVAILABLE,
    ensures
        run(attempts, backoff, max_retries, statuses).delivered,
        run(attempts, backoff, max_retries, statuses).requests == k + 1,
        run(attempts, backoff, max_retries, statuses).slept == backoff * pow2_sum(k),
    decreases k,
{
    if k > 0 {
        let rest = statuses.skip(1);
        assert(forall|i: int| 0 <= i < k - 1 ==> rest[i] == statuses[i + 1]);
        lemma_overload_then_success(attempts + 1, 2 * backoff, max_retries, rest, (k - 1) as nat);
        lemma_pow2_sum(k);
        lemma_pow2_sum((k - 1) as nat);
        assert(2 * backoff * pow2_sum((k - 1) as nat) + backoff == backoff * pow2_sum(k))
            by (nonlinear_arith)
            requires
                pow2_sum(k) + 1 == 2 * (pow2_sum((k - 1) as nat) + 1),
        ;
    } else {
        assert(backoff * pow2_sum(0) == 0) by (nonlinear_arith)
            requires
                pow2_sum(0) == 0,
        ;
    }
}

/// A server that always reports overload: the fetch gives up after exactly as
/// many requests as the retry budget allows.
pub proof fn lemma_always_overloaded(
    attempts: nat,
    backoff: nat,
    max_retries: nat,
    statuses: Seq<u16>,
)
    requires
        attempts <= max_retries,
        statuses.len() >= max_retries - attempts,
        forall|i: int| 0 <= i < max_retries - attempts ==> statuses[i] == SERVICE_UNAVAILABLE,
    ensures
        !run(attempts, backoff, max_retries, statuses).delivered,
        run(attempts, backoff, max_retries, statuses).requests == max_retries - attempts,
    decreases max_retries - attempts,
{
    if attempts < max_retries {
        let rest = statuses.skip(1);
        assert(forall|i: int| 0 <= i < max_retries - attempts - 1 ==> rest[i] == statuses[i + 1]);
        lemma_always_overloaded(attempts + 1, 2 * backoff, max_retries, rest);
    }
}

/// After `k` overload responses the delay is the initial delay times `2^k`.
pub open spec fn delay_after(backoff_init: nat, k: nat) -> nat {
    backoff_init * pow2(k)
}

/// The delay doubles with every overload response: the `k`-th response is
/// answered with a backoff of the initial delay times `2^k`.
pub proof fn lemma_delay_doubles(attempts: nat, backoff: nat, max_retries: nat, k: nat)
    ensures
        step_spec(
            attempts + k,
            delay_after(backoff, k),
            max_retries,
            Event::Response(SERVICE_UNAVAILABLE),
        ).1 == delay_after(backoff, k + 1),
        delay_after(backoff, 0) == backoff,
{
    assert(2 * (backoff * pow2(k)) == backoff * pow2(k + 1)) by (nonlinear_arith)
        requires
            pow2(k + 1) == 2 * pow2(k),
    ;
    assert(backoff * pow2(0) == backoff) by (nonlinear_arith)
        requires
            pow2(0) == 1,
    ;
}

} // verus!
