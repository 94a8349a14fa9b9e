//! One fetch, from the address to the final response.
//!
//! A [`Fetch`] holds what is requested and how far the retry loop has come.
//! The embedding program reports what happened and is told what to do next.
//! Where that is to send the request, the rate gate of the client has been
//! passed in the same step: the directive carries the time to sleep first,
//! the address, and the user agent to send along.

use vstd::prelude::*;
use crate::client::fetch::{checked_url, checked_url_spec};
use crate::client::rate::{required_wait, RateGate};
use crate::client::retry::{step_spec, Action, Event, RetryState};
use crate::client::ClientConfig;
use crate::error::Error;

verus! {

/// What the embedding program is told to do next.
#[derive(Clone, Debug, PartialEq, Eq)]
pub enum Directive {
    /// Sleep for `wait` milliseconds, then send a GET request for `url` with
    /// the header `User-Agent: user_agent`, and report the response or the
    /// failure.
    Send { wait: u64, url: String, user_agent: String },
    /// Sleep for this many milliseconds, then report [`Event::Ready`].
    Backoff(u64),
    /// The response is final, whatever its status: decode its body.
    Deliver,
    /// The retry budget is used up: fail with
    /// [`retries_exhausted`](crate::client::retry::retries_exhausted).
    GiveUp,
    /// The transport failed: fail with
    /// [`transport_failure`](crate::client::retry::transport_failure).
    Abort,
}

/// One fetch in progress.
#[derive(Clone, Debug)]
pub struct Fetch {
    url: String,
    user_agent: String,
    max_retries: u8,
    state: RetryState,
}

impl Fetch {
    /// The address that is requested.
    pub closed spec fn url_spec(&self) -> Seq<char> {
        self.url@
    }

    /// The user agent that is sent with every request.
    pub closed spec fn agent_spec(&self) -> Seq<char> {
        self.user_agent@
    }

    /// How many overload responses are retried.
    pub closed spec fn max_retries_spec(&self) -> u8 {
        self.max_retries
    }

    /// How far the retry loop has come.
    pub closed spec fn state_spec(&self) -> RetryState {
        self.state
    }

    /// Whether `event` can be reported in this state.
    pub open spec fn accepts(&self, event: Event) -> bool {
        self.state_spec().accepts(self.max_retries_spec(), event)
    }

    /// Begins a fetch of the address `url` for a client with the given
    /// configuration. The address is checked first; one that the URL parser
    /// refuses is an internal failure, and nothing is requested.
    pub fn start(config: &ClientConfig, url: &str) -> (r: Result<Fetch, Error>)
        ensures
            match checked_url_spec(url@) {
                Ok(checked) => r is Ok && r->Ok_0.url_spec() == checked && r->Ok_0.agent_spec()
                    == config.user_agent@ && r->Ok_0.max_retries_spec() == config.max_retries
                    && r->Ok_0.state_spec() == (RetryState {
                    attempts: 0,
                    backoff: config.waits.backoff_init,
                }),
                Err(e) => r is Err && r->Err_0@ == e,
            },
    {
        let url = checked_url(url)?;
        Ok(
            Fetch {
                url,
                user_agent: config.user_agent.clone(),
                max_retries: config.max_retries,
                state: RetryState::start(config),
            },
        )
    }

    /// Executable form of [`Fetch::accepts`].
    pub fn can_advance(&self, event: Event) -> (ok: bool)
        ensures
            ok == self.accepts(event),
    {
        self.state.can_step_within(self.max_retries, event)
    }

    /// Takes one step of the fetch at the clock reading `now`.
    ///
    /// The retry loop decides as [`step_spec`] says. Where it decides to send,
    /// the rate gate is passed in this same step, first tries and retries
    /// alike: the directive carries the wait that the rate gate answers, and
    /// the dispatch is recorded there. In every other step the rate gate is
    /// left as it is. Address and user agent are those the fetch was begun
    /// with.
    pub fn advance(&mut self, gate: &mut RateGate, now: u64, event: Event) -> (d: Directive)
        requires
            old(self).accepts(event),
        ensures
            final(self).url_spec() == old(self).url_spec(),
            final(self).agent_spec() == old(self).agent_spec(),
            final(self).max_retries_spec() == old(self).max_retries_spec(),
            final(gate).interval() == old(gate).interval(),
            ({
                let next = step_spec(
                    old(self).state_spec().attempts as nat,
                    old(self).state_spec().backoff as nat,
                    old(self).max_retries_spec() as nat,
                    event,
                );
                &&& final(self).state_spec().attempts == next.0
                &&& final(self).state_spec().backoff == next.1
                &&& match next.2 {
                    Action::Send => {
                        &&& d matches Directive::Send { wait, url, user_agent }
                        &&& wait == required_wait(
                            old(gate).last_dispatch(),
                            old(gate).interval(),
                            now as int,
                        )
                        &&& url@ == old(self).url_spec()
                        &&& user_agent@ == old(self).agent_spec()
                        &&& final(gate).last_dispatch() == Some(now + wait)
                    },
                    Action::Backoff(delay) => d == Directive::Backoff(delay) && *final(gate)
                        == *old(gate),
                    Action::Deliver => d == Directive::Deliver && *final(gate) == *old(gate),
                    Action::GiveUp => d == Directive::GiveUp && *final(gate) == *old(gate),
                    Action::Abort => d == Directive::Abort && *final(gate) == *old(gate),
                }
            }),
    {
        let mut state = self.state;
        let action = state.step_within(self.max_retries, event);
        self.state = state;
        match action {
            Action::Send => {
                let wait = gate.wait_if_needed(now);
                Directive::Send { wait, url: self.url.clone(), user_agent: self.user_agent.clone() }
            },
            Action::Backoff(delay) => Directive::Backoff(delay),
            Action::Deliver => Directive::Deliver,
            Action::GiveUp => Directive::GiveUp,
            Action::Abort => Directive::Abort,
        }
    }

    /// The address that is requested.
    pub fn url(&self) -> (url: &str)
        ensures
            url@ == self.url_spec(),
    {
        self.url.as_str()
    }

    /// The user agent that is sent with every request.
    pub fn user_agent(&self) -> (agent: &str)
        ensures
            agent@ == self.agent_spec(),
    {
        self.user_agent.as_str()
    }
}

} // verus!
