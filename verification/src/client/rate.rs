//! The rate gate: minimum spacing between outgoing requests.
//!
//! A rate gate reads no clock and never sleeps. Its caller passes in the
//! current reading of a monotonic millisecond clock, sleeps for the time it
//! is told, and then dispatches.

use vstd::prelude::*;

verus! {

/// Remembers when the previous request was dispatched.
///
/// One gate belongs to one client and is consulted before every outgoing
/// request, retried ones included.
#[derive(Clone, Copy, Debug)]
pub struct RateGate {
    min_interval: u64,
    /// Clock reading at the previous call and the wait that was answered. The
    /// instant of dispatch is their sum, which need not fit the clock's type.
    previous: Option<(u64, u64)>,
}

/// How long a caller arriving at `now` has to wait so that `interval`
/// milliseconds lie between the previous dispatch and the next one.
///
/// The first caller never waits. A reading that lies before the previous
/// dispatch is taken as "no time has passed".
pub open spec fn required_wait(last_dispatch: Option<int>, interval: int, now: int) -> int {
    match last_dispatch {
        None => 0,
        Some(last) => if now >= last + interval {
            0
        } else if now >= last {
            last + interval - now
        } else {
            interval
        },
    }
}

/// The instants at which a gate that starts in state `last_dispatch` lets the
/// callers through that arrive at the given clock readings.
pub open spec fn dispatch_times(
    last_dispatch: Option<int>,
    interval: int,
    readings: Seq<int>,
) -> Seq<int>
    decreases readings.len(),
{
    if readings.len() == 0 {
        Seq::empty()
    } else {
        let at = readings[0] + required_wait(last_dispatch, interval, readings[0]);
        seq![at] + dispatch_times(Some(at), interval, readings.skip(1))
    }
}

/// Each caller arrives no earlier than the moment the one before it was let
/// through.
pub open spec fn back_to_back(last_dispatch: Option<int>, interval: int, readings: Seq<int>) -> bool
    decreases readings.len(),
{
    if readings.len() == 0 {
        true
    } else {
        let at = readings[0] + required_wait(last_dispatch, interval, readings[0]);
        &&& (last_dispatch matches Some(last) ==> readings[0] >= last)
        &&& back_to_back(Some(at), interval, readings.skip(1))
    }
}

impl RateGate {
    /// The configured spacing, in milliseconds.
    pub closed spec fn interval(&self) -> int {
        self.min_interval as int
    }

    /// The instant of the previous dispatch, if there was one.
    pub closed spec fn last_dispatch(&self) -> Option<int> {
        match self.previous {
            None => None,
            Some((reading, wait)) => Some(reading + wait),
        }
    }

    /// A gate that has not let anything through yet.
    pub fn new(min_interval: u64) -> (gate: RateGate)
        ensures
            gate.interval() == min_interval,
            gate.last_dispatch() is None,
    {
        RateGate { min_interval, previous: None }
    }

    /// The configured spacing, in milliseconds.
    pub fn min_interval(&self) -> (ms: u64)
        ensures
            ms == self.interval(),
    {
        self.min_interval
    }

    /// Answers how many milliseconds the caller must sleep before it may
    /// dispatch, and records that dispatch.
    pub fn wait_if_needed(&mut self, now: u64) -> (wait: u64)
        ensures
            final(self).interval() == old(self).interval(),
            wait == required_wait(old(self).last_dispatch(), old(self).interval(), now as int),
            final(self).last_dispatch() == Some(now + wait),
    {
        let wait: u64 = match self.previous {
            None => 0,
            Some((reading, answered)) => {
                let elapsed: u64 = if now >= reading && now - reading >= answered {
                    now - reading - answered
                } else {
                    0
                };
                if elapsed >= self.min_interval {
                    0
                } else {
                    self.min_interval - elapsed
                }
            },
        };
        self.previous = Some((now, wait));
        wait
    }
}

/// A caller that arrives after the previous dispatch is let through no earlier
/// than one interval after it.
pub proof fn lemma_spacing(last: int, interval: int, now: int)
    requires
        0 <= interval,
        last <= now,
    ensures
        now + required_wait(Some(last), interval, now) >= last + interval,
        required_wait(Some(last), interval, now) == 0 <==> now >= last + interval,
{
}

/// The first caller at a fresh gate is let through at once.
pub proof fn lemma_first_never_waits(interval: int, now: int)
    ensures
        required_wait(None, interval, now) == 0,
{
}

/// `n` callers that arrive back to back at one gate are let through over a
/// span of at least `n - 1` intervals.
pub proof fn lemma_dispatches_span(last_dispatch: Option<int>, interval: int, readings: Seq<int>)
    requires
        0 <= interval,
        readings.len() > 0,
        back_to_back(last_dispatch, interval, readings),
    ensures
        dispatch_times(last_dispatch, interval, readings).len() == readings.len(),
        dispatch_times(last_dispatch, interval, readings).last() - dispatch_times(
            last_dispatch,
            interval,
            readings,
        )[0] >= (readings.len() - 1) * interval,
    decreases readings.len(),
{
    let at = readings[0] + required_wait(last_dispatch, interval, readings[0]);
    let rest = readings.skip(1);
    let times = dispatch_times(last_dispatch, interval, readings);
    let later = dispatch_times(Some(at), interval, rest);
    assert(times == seq![at] + later);
    if rest.len() == 0 {
        assert(later.len() == 0);
        assert(times.last() == at);
    } else {
        lemma_dispatches_span(Some(at), interval, rest);
        let second = rest[0] + required_wait(Some(at), interval, rest[0]);
        assert(later[0] == second);
        lemma_spacing(at, interval, rest[0]);
        assert(times.last() == later.last());
        assert((readings.len() - 1) * interval == (rest.len() - 1) * interval + interval)
            by (nonlinear_arith)
            requires
                readings.len() == rest.len() + 1,
        ;
    }
}

} // verus!
