//! The scheduler of one handler: a state machine that is told what woke it
//! and when, and answers what to do next.
//!
//! The caller owns the clock, the slot that events arrive in, and the child
//! process. It waits as the scheduler asks, reports what ended the wait, and
//! spawns the command when told to. Time is in nanoseconds on a monotonic
//! clock of the caller's choosing.
use vstd::prelude::*;
use crate::config::Handler;
use crate::limiter::{burst_tolerance, refill_interval, TokenBucket, Verdict};
use crate::message::ImseMessage;

verus! {

/// How long an idle scheduler sleeps when no periodic spawn is configured:
/// one hour. Such a wake never spawns.
pub const IDLE_WAKE: u64 = 3_600_000_000_000;

/// The time in which the bucket refills when none is configured: thirty
/// seconds.
pub const DEFAULT_RATE_PERIOD: u64 = 30_000_000_000;

/// The later of two times.
pub open spec fn later(a: u64, b: u64) -> u64 {
    if a >= b {
        a
    } else {
        b
    }
}

/// A time and a span added, held to the range of the clock.
pub open spec fn plus(t: u64, span: u64) -> u64 {
    if t + span > u64::MAX {
        u64::MAX
    } else {
        (t + span) as u64
    }
}

/// The scheduling policy of one handler, in nanoseconds.
#[derive(Clone, Copy, Debug, PartialEq, Eq, Structural)]
pub struct Policy {
    /// Least time between the first event of a burst and its spawn.
    pub delay: Option<u64>,
    /// Cadence of spawns when no event arrives.
    pub periodic: Option<u64>,
    /// Time in which the bucket refills wholly.
    pub rate_period: u64,
    /// Tokens that the bucket holds.
    pub rate_burst: u32,
}

impl Policy {
    /// The policy that a handler's configuration asks for.
    pub open spec fn of(h: Handler) -> Policy {
        Policy {
            delay: match h.delay {
                Some(d) => Some(d.clamped_nanos()),
                None => None,
            },
            periodic: match h.periodic {
                Some(d) => Some(d.clamped_nanos()),
                None => None,
            },
            rate_period: match h.limit_period {
                Some(d) => if d.clamped_nanos() == 0 {
                    DEFAULT_RATE_PERIOD
                } else {
                    d.clamped_nanos()
                },
                None => DEFAULT_RATE_PERIOD,
            },
            rate_burst: match h.limit_burst {
                Some(b) => if b == 0 {
                    1
                } else {
                    b
                },
                None => 1,
            },
        }
    }

    /// The policy that a handler's configuration asks for.
    pub fn from_handler(h: &Handler) -> (r: Policy)
        ensures
            r == Policy::of(*h),
            r.rate_burst >= 1,
            r.rate_period >= 1,
    {
        let delay: Option<u64> = match &h.delay {
            Some(d) => Some(d.as_nanos()),
            None => None,
        };
        let periodic: Option<u64> = match &h.periodic {
            Some(d) => Some(d.as_nanos()),
            None => None,
        };
        let rate_period: u64 = match &h.limit_period {
            Some(d) => {
                let n: u64 = d.as_nanos();
                if n == 0 {
                    DEFAULT_RATE_PERIOD
                } else {
                    n
                }
            },
            None => DEFAULT_RATE_PERIOD,
        };
        let rate_burst: u32 = match h.limit_burst {
            Some(b) => if b == 0 {
                1
            } else {
                b
            },
            None => 1,
        };
        Policy { delay, periodic, rate_period, rate_burst }
    }

    /// How long the scheduler sleeps when nothing is pending: the periodic
    /// interval, or the idle wake.
    pub open spec fn wake_span(self) -> u64 {
        match self.periodic {
            Some(p) => p,
            None => IDLE_WAKE,
        }
    }

    /// The delay, zero if none is configured.
    pub open spec fn hold(self) -> u64 {
        match self.delay {
            Some(d) => d,
            None => 0,
        }
    }

    /// The time that one token takes to come back.
    pub open spec fn interval(self) -> nat {
        refill_interval(self.rate_period, self.rate_burst)
    }

    /// How far ahead of the steady rate the spawns may run.
    pub open spec fn tolerance(self) -> nat {
        burst_tolerance(self.rate_period, self.rate_burst)
    }
}

/// Where the scheduler is in its life.
#[derive(Clone, Copy, Debug, PartialEq, Eq, Structural)]
pub enum Phase {
    /// No child runs; the scheduler waits for its deadline or for an event.
    Waiting,
    /// The child runs; nothing is spawned until it has exited.
    Spawning,
    /// The slot was closed; nothing is spawned any more.
    Closed,
}

/// A burst of events that waits for its spawn.
#[derive(Clone, Debug)]
pub struct Pending {
    /// When the first event of the burst was observed.
    pub since: u64,
    /// The most recent event of the burst.
    pub message: ImseMessage,
}

/// What ended the scheduler's wait.
#[derive(Clone, Debug)]
pub enum Wake {
    /// The deadline was reached.
    Deadline,
    /// The slot held a new value, which was observed.
    Changed(ImseMessage),
    /// The slot was closed.
    Closed,
    /// The child that was spawned has exited, or could not be started.
    ChildExited,
}

/// What the scheduler asks its caller to do.
#[derive(Clone, Debug)]
pub enum Action {
    /// Wait until the given time or until the slot changes or closes.
    Wait { until: u64 },
    /// Spawn the command, with the event if there is one, and report when
    /// the child has exited.
    Spawn { payload: Option<ImseMessage> },
    /// Keep waiting for the child that runs.
    AwaitChild,
    /// Stop: the slot is closed.
    Exit,
}

/// Everything that the scheduler remembers between two wakes.
#[derive(Clone, Debug)]
pub struct SchedulerState {
    pub phase: Phase,
    /// The slot was closed while the child ran.
    pub closing: bool,
    /// The latest time that the scheduler was told.
    pub clock: u64,
    /// The burst that waits for its spawn, if any.
    pub pending: Option<Pending>,
    /// When the last child exited, or when the scheduler started.
    pub last_exec: u64,
    /// The next wake that the scheduler asked for.
    pub deadline: u64,
    /// The rate limiter of event-driven spawns.
    pub bucket: TokenBucket,
}

impl SchedulerState {
    /// The event that the next spawn hands over, if any.
    pub open spec fn latest(self) -> Option<ImseMessage> {
        match self.pending {
            Some(b) => Some(b.message),
            None => None,
        }
    }

    /// When the first event of the pending burst was observed.
    pub open spec fn first_event_at(self) -> Option<u64> {
        match self.pending {
            Some(b) => Some(b.since),
            None => None,
        }
    }

    /// The state of a scheduler that starts at `now`: nothing pending, a
    /// full bucket, and the first wake one sleep away.
    pub open spec fn initial(p: Policy, now: u64) -> SchedulerState {
        SchedulerState {
            phase: Phase::Waiting,
            closing: false,
            clock: now,
            pending: None,
            last_exec: now,
            deadline: plus(now, p.wake_span()),
            bucket: TokenBucket {
                interval: p.interval() as u64,
                tolerance: p.tolerance() as u64,
                horizon: 0,
            },
        }
    }

    /// The state is one that a scheduler with policy `p` can be in.
    pub open spec fn inv(self, p: Policy) -> bool {
        &&& p.rate_burst >= 1
        &&& self.bucket.wf()
        &&& self.bucket.interval == p.interval()
        &&& self.bucket.tolerance == p.tolerance()
    }

    /// The burst after an event was observed at `t`: the event replaces the
    /// one before it, and the burst keeps the time of its first event.
    pub open spec fn absorb(self, m: ImseMessage, t: u64) -> Pending {
        match self.pending {
            Some(b) => Pending { since: b.since, message: m },
            None => Pending { since: t, message: m },
        }
    }

    /// The wake that the scheduler asks for when nothing is to be spawned
    /// at `t`: the end of the pending burst's delay, or one sleep from `t`.
    pub open spec fn rest_until(self, p: Policy, t: u64) -> u64 {
        match self.pending {
            Some(b) => plus(b.since, p.hold()),
            None => plus(t, p.wake_span()),
        }
    }

    /// The state after the scheduler committed to a spawn: nothing is
    /// pending, and the child runs.
    pub open spec fn committed(self) -> SchedulerState {
        SchedulerState { phase: Phase::Spawning, pending: None, ..self }
    }

    /// What a waiting scheduler does at time `self.clock` once it is due.
    ///
    /// With nothing pending it spawns only if a periodic interval is set;
    /// otherwise it sleeps on. A pending burst is spawned once its delay has
    /// run out and the bucket grants a token; until then the scheduler asks
    /// for a wake at the time that it waits for.
    pub open spec fn decide(self, p: Policy) -> (SchedulerState, Action) {
        let t = self.clock;
        match self.pending {
            None => if p.periodic is Some {
                (self.committed(), Action::Spawn { payload: None })
            } else {
                let d = plus(t, IDLE_WAKE);
                (SchedulerState { deadline: d, ..self }, Action::Wait { until: d })
            },
            Some(b) => if b.since + p.hold() > t {
                let d = plus(b.since, p.hold());
                (SchedulerState { deadline: d, ..self }, Action::Wait { until: d })
            } else if !self.bucket.grants(t) {
                let d = self.bucket.earliest();
                (SchedulerState { deadline: d, ..self }, Action::Wait { until: d })
            } else {
                (
                    SchedulerState { bucket: self.bucket.taken(t), ..self }.committed(),
                    Action::Spawn { payload: Some(b.message) },
                )
            },
        }
    }

    /// The state and the action that follow a wake at `now`.
    ///
    /// The clock never runs backwards: a `now` before the latest time told
    /// counts as that time.
    pub open spec fn advance(self, p: Policy, wake: Wake, now: u64) -> (SchedulerState, Action) {
        let t = later(now, self.clock);
        let s = SchedulerState { clock: t, ..self };
        match self.phase {
            Phase::Closed => (self, Action::Exit),
            Phase::Spawning => match wake {
                Wake::ChildExited => if self.closing {
                    (
                        SchedulerState { phase: Phase::Closed, closing: false, last_exec: t, ..s },
                        Action::Exit,
                    )
                } else {
                    let d = s.rest_until(p, t);
                    (
                        SchedulerState { phase: Phase::Waiting, last_exec: t, deadline: d, ..s },
                        Action::Wait { until: d },
                    )
                },
                Wake::Closed => (SchedulerState { closing: true, ..s }, Action::AwaitChild),
                Wake::Changed(m) => (
                    SchedulerState { pending: Some(s.absorb(m, t)), ..s },
                    Action::AwaitChild,
                ),
                Wake::Deadline => (s, Action::AwaitChild),
            },
            Phase::Waiting => match wake {
                Wake::Closed => (SchedulerState { phase: Phase::Closed, ..s }, Action::Exit),
                Wake::ChildExited => (s, Action::Wait { until: s.deadline }),
                Wake::Changed(m) => SchedulerState { pending: Some(s.absorb(m, t)), ..s }.decide(p),
                Wake::Deadline => if t < s.deadline {
                    (s, Action::Wait { until: s.deadline })
                } else {
                    s.decide(p)
                },
            },
        }
    }
}

/// The scheduler of one handler.
#[derive(Debug)]
pub struct Scheduler {
    policy: Policy,
    state: SchedulerState,
}

impl Scheduler {
    /// The policy that the scheduler follows.
    pub closed spec fn policy(&self) -> Policy {
        self.policy
    }

    /// What the scheduler remembers.
    pub closed spec fn state(&self) -> SchedulerState {
        self.state
    }

    #[verifier::type_invariant]
    spec fn valid(self) -> bool {
        self.state.inv(self.policy)
    }

    /// A scheduler for `handler` that starts at `now`.
    pub fn new(handler: &Handler, now: u64) -> (r: Scheduler)
        ensures
            r.policy() == Policy::of(*handler),
            r.state() == SchedulerState::initial(r.policy(), now),
    {
        let policy: Policy = Policy::from_handler(handler);
        let bucket: TokenBucket = TokenBucket::new(policy.rate_period, policy.rate_burst);
        let state: SchedulerState = SchedulerState {
            phase: Phase::Waiting,
            closing: false,
            clock: now,
            pending: None,
            last_exec: now,
            deadline: now.saturating_add(
                match policy.periodic {
                    Some(p) => p,
                    None => IDLE_WAKE,
                },
            ),
            bucket,
        };
        Scheduler { policy, state }
    }

    /// The wake that the scheduler asked for last.
    pub fn deadline(&self) -> (r: u64)
        ensures
            r == self.state().deadline,
    {
        self.state.deadline
    }

    /// When the last child exited, or when the scheduler started.
    pub fn last_exec(&self) -> (r: u64)
        ensures
            r == self.state().last_exec,
    {
        self.state.last_exec
    }

    /// Where the scheduler is in its life.
    pub fn phase(&self) -> (r: Phase)
        ensures
            r == self.state().phase,
    {
        self.state.phase
    }

    /// Whether a burst of events waits for its spawn.
    pub fn has_pending(&self) -> (r: bool)
        ensures
            r == self.state().pending is Some,
    {
        self.state.pending.is_some()
    }

    /// Observes an event at `t`.
    fn observe(&mut self, m: ImseMessage, t: u64)
        ensures
            final(self).policy == old(self).policy,
            final(self).state == (SchedulerState {
                pending: Some(old(self).state.absorb(m, t)),
                ..old(self).state
            }),
    {
        proof {
            use_type_invariant(&*self);
        }
        let since: u64 = match &self.state.pending {
            Some(b) => b.since,
            None => t,
        };
        self.state.pending = Some(Pending { since, message: m });
    }

    /// The wake to ask for when nothing is to be spawned at `t`.
    fn rest_until(&self, t: u64) -> (r: u64)
        ensures
            r == self.state.rest_until(self.policy, t),
    {
        match &self.state.pending {
            Some(b) => b.since.saturating_add(
                match self.policy.delay {
                    Some(d) => d,
                    None => 0,
                },
            ),
            None => t.saturating_add(
                match self.policy.periodic {
                    Some(p) => p,
                    None => IDLE_WAKE,
                },
            ),
        }
    }

    /// Decides what a waiting scheduler does once it is due.
    fn decide(&mut self) -> (r: Action)
        ensures
            final(self).policy == old(self).policy,
            (final(self).state, r) == old(self).state.decide(old(self).policy),
    {
        proof {
            use_type_invariant(&*self);
        }
        let t: u64 = self.state.clock;
        let since: Option<u64> = match &self.state.pending {
            Some(b) => Some(b.since),
            None => None,
        };
        match since {
            None => {
                if self.policy.periodic.is_some() {
                    self.state.phase = Phase::Spawning;
                    Action::Spawn { payload: None }
                } else {
                    let d: u64 = t.saturating_add(IDLE_WAKE);
                    self.state.deadline = d;
                    Action::Wait { until: d }
                }
            },
            Some(since) => {
                let hold: u64 = match self.policy.delay {
                    Some(d) => d,
                    None => 0,
                };
                let ready: Option<u64> = since.checked_add(hold);
                let due: bool = match ready {
                    Some(r) => r <= t,
                    None => false,
                };
                if !due {
                    let d: u64 = since.saturating_add(hold);
                    self.state.deadline = d;
                    Action::Wait { until: d }
                } else {
                    let mut bucket: TokenBucket = self.state.bucket;
                    match bucket.check(t) {
                        Verdict::NotBefore(d) => {
                            self.state.deadline = d;
                            Action::Wait { until: d }
                        },
                        Verdict::Granted => {
                            self.state.bucket = bucket;
                            self.state.phase = Phase::Spawning;
                            let mut burst: Option<Pending> = None;
                            core::mem::swap(&mut self.state.pending, &mut burst);
                            match burst {
                                Some(b) => Action::Spawn { payload: Some(b.message) },
                                None => Action::Spawn { payload: None },
                            }
                        },
                    }
                }
            },
        }
    }

    /// Tells the scheduler what ended its wait, and when; the answer is what
    /// to do next.
    pub fn step(&mut self, wake: Wake, now: u64) -> (r: Action)
        ensures
            final(self).policy() == old(self).policy(),
            (final(self).state(), r) == old(self).state().advance(old(self).policy(), wake, now),
    {
        proof {
            use_type_invariant(&*self);
        }
        let t: u64 = if now >= self.state.clock {
            now
        } else {
            self.state.clock
        };
        match self.state.phase {
            Phase::Closed => Action::Exit,
            Phase::Spawning => {
                self.state.clock = t;
                match wake {
                    Wake::ChildExited => {
                        self.state.last_exec = t;
                        if self.state.closing {
                            self.state.phase = Phase::Closed;
                            self.state.closing = false;
                            Action::Exit
                        } else {
                            let d: u64 = self.rest_until(t);
                            self.state.phase = Phase::Waiting;
                            self.state.deadline = d;
                            Action::Wait { until: d }
                        }
                    },
                    Wake::Closed => {
                        self.state.closing = true;
                        Action::AwaitChild
                    },
                    Wake::Changed(m) => {
                        self.observe(m, t);
                        Action::AwaitChild
                    },
                    Wake::Deadline => Action::AwaitChild,
                }
            },
            Phase::Waiting => {
                self.state.clock = t;
                match wake {
                    Wake::Closed => {
                        self.state.phase = Phase::Closed;
                        Action::Exit
                    },
                    Wake::ChildExited => Action::Wait { until: self.state.deadline },
                    Wake::Changed(m) => {
                        self.observe(m, t);
                        self.decide()
                    },
                    Wake::Deadline => {
                        if t < self.state.deadline {
                            Action::Wait { until: self.state.deadline }
                        } else {
                            self.decide()
                        }
                    },
                }
            },
        }
    }
}

} // verus!
