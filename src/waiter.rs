use vstd::prelude::*;
use crate::cluster::ClusterStatus;
use crate::error::{DsqlError, ErrorKind};

verus! {

/// How long a cluster operation is waited for.
pub const WAIT_TIMEOUT_SECS: u64 = 300;

/// The first pause between two polls.
pub const MIN_POLL_DELAY_SECS: u64 = 2;

/// The longest pause between two polls.
pub const MAX_POLL_DELAY_SECS: u64 = 120;

/// The state that a wait is for.
#[derive(Debug, Clone, Copy, PartialEq, Eq, Structural)]
pub enum WaitTarget {
    /// The cluster reports `ACTIVE`.
    Active,
    /// The control plane no longer knows the cluster.
    NotExists,
}

/// What one poll of a cluster returned.
#[derive(Debug, Clone, Copy, PartialEq, Eq, Structural)]
pub enum Observation {
    Status(ClusterStatus),
    /// A status whose name this library does not know; the wait goes on.
    Unrecognized,
    NotFound,
    /// Any other failed request.
    Error,
}

/// What the poller does after an observation.
#[derive(Debug, Clone, Copy, PartialEq, Eq, Structural)]
pub enum WaitDecision {
    Reached,
    /// Poll again after this many seconds.
    PollAfter(u64),
    TimedOut,
    Failed,
}

impl WaitTarget {
    pub open spec fn reached_by(self, obs: Observation) -> bool {
        match self {
            WaitTarget::Active => obs == Observation::Status(ClusterStatus::Active),
            WaitTarget::NotExists => obs is NotFound,
        }
    }

    pub open spec fn fails_on(self, obs: Observation) -> bool {
        obs is Error || (self is Active && obs is NotFound)
    }
}

/// A poll loop with a deadline and a pause that starts at two seconds and
/// doubles up to two minutes, without random jitter.
#[derive(Debug, Clone, Copy, PartialEq, Eq, Structural)]
pub struct Waiter {
    pub target: WaitTarget,
    pub deadline: u64,
    pub delay: u64,
}

pub open spec fn min(a: int, b: int) -> int {
    if a <= b {
        a
    } else {
        b
    }
}

impl Waiter {
    pub open spec fn wf(self) -> bool {
        MIN_POLL_DELAY_SECS <= self.delay <= MAX_POLL_DELAY_SECS
    }

    /// The answer to `obs`, seen at `now`.
    pub open spec fn decision(self, obs: Observation, now: u64) -> WaitDecision {
        if self.target.reached_by(obs) {
            WaitDecision::Reached
        } else if self.target.fails_on(obs) {
            WaitDecision::Failed
        } else if now >= self.deadline {
            WaitDecision::TimedOut
        } else {
            WaitDecision::PollAfter(min(self.delay as int, self.deadline - now) as u64)
        }
    }

    /// A wait for `target` that started at `now` and gives up `max_wait`
    /// seconds later (at the end of the clock if that comes first).
    pub fn start(target: WaitTarget, now: u64, max_wait: u64) -> (r: Waiter)
        ensures
            r.wf(),
            r.target == target,
            r.deadline == min(now + max_wait, u64::MAX as int),
            r.delay == MIN_POLL_DELAY_SECS,
    {
        let deadline = if now > u64::MAX - max_wait {
            u64::MAX
        } else {
            now + max_wait
        };
        Waiter { target, deadline, delay: MIN_POLL_DELAY_SECS }
    }

    /// Decides on one observation. A pause never reaches past the deadline,
    /// and each pause doubles the next one, up to the longest pause.
    pub fn observe(&mut self, obs: Observation, now: u64) -> (r: WaitDecision)
        requires
            old(self).wf(),
        ensures
            r == old(self).decision(obs, now),
            final(self).wf(),
            final(self).target == old(self).target,
            final(self).deadline == old(self).deadline,
            final(self).delay == (if r is PollAfter {
                min(2 * old(self).delay, MAX_POLL_DELAY_SECS as int)
            } else {
                old(self).delay as int
            }),
            r matches WaitDecision::PollAfter(d) ==> 0 < d && now + d <= old(self).deadline,
    {
        let reached = match self.target {
            WaitTarget::Active => match obs {
                Observation::Status(ClusterStatus::Active) => true,
                _ => false,
            },
            WaitTarget::NotExists => match obs {
                Observation::NotFound => true,
                _ => false,
            },
        };
        if reached {
            return WaitDecision::Reached;
        }
        let failed = match obs {
            Observation::Error => true,
            Observation::NotFound => match self.target {
                WaitTarget::Active => true,
                WaitTarget::NotExists => false,
            },
            Observation::Status(_) => false,
            Observation::Unrecognized => false,
        };
        if failed {
            return WaitDecision::Failed;
        }
        if now >= self.deadline {
            return WaitDecision::TimedOut;
        }
        let left = self.deadline - now;
        let pause = if self.delay <= left {
            self.delay
        } else {
            left
        };
        self.delay = if self.delay <= MAX_POLL_DELAY_SECS / 2 {
            2 * self.delay
        } else {
            MAX_POLL_DELAY_SECS
        };
        WaitDecision::PollAfter(pause)
    }
}

/// The error that ends a wait, or `None` when the wait went on or succeeded.
pub fn wait_error(decision: WaitDecision) -> (r: Option<DsqlError>)
    ensures
        r is Some <==> (decision is TimedOut || decision is Failed),
        r matches Some(e) ==> e.kind == ErrorKind::ControlPlane,
{
    match decision {
        WaitDecision::TimedOut => Some(
            DsqlError::new(ErrorKind::ControlPlane, "timed out waiting for the cluster"),
        ),
        WaitDecision::Failed => Some(
            DsqlError::new(ErrorKind::ControlPlane, "the cluster can no longer reach the awaited state"),
        ),
        _ => None,
    }
}

} // verus!
