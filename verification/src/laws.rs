//! What holds of a scheduler whatever it is told: the laws of its runs.
//!
//! A run is the sequence of wakes that a scheduler is told, each with its
//! time. The laws speak of the state before each wake, of the action that
//! answers it, and of the time at which it is handled.
//!
//! `Scheduler::step` answers a wake with exactly what
//! `SchedulerState::advance` says, and `Scheduler::new` starts in
//! `SchedulerState::initial`: a scheduler that started at `start` and was
//! told `inputs` is in the state `state_after(p, start, inputs)`, and what is proved
//! here of every run holds of it.
use vstd::prelude::*;
use crate::handler::{later, plus, Action, Policy, SchedulerState, Wake};
use crate::limiter::lemma_tolerance_bounded;
use crate::message::ImseMessage;

verus! {

/// One wake, and the time at which the scheduler is told of it.
pub struct Stimulus {
    pub wake: Wake,
    pub now: u64,
}

/// The state of a scheduler that started at `start` and was told `inputs`.
pub open spec fn state_after(p: Policy, start: u64, inputs: Seq<Stimulus>) -> SchedulerState
    decreases inputs.len(),
{
    if inputs.len() == 0 {
        SchedulerState::initial(p, start)
    } else {
        state_after(p, start, inputs.drop_last()).advance(p, inputs.last().wake, inputs.last().now).0
    }
}

/// The state in which the scheduler is told of wake `i`.
pub open spec fn state_before(p: Policy, start: u64, inputs: Seq<Stimulus>, i: int) -> SchedulerState {
    state_after(p, start, inputs.take(i))
}

/// The action that answers wake `i`.
pub open spec fn action_at(p: Policy, start: u64, inputs: Seq<Stimulus>, i: int) -> Action {
    state_before(p, start, inputs, i).advance(p, inputs[i].wake, inputs[i].now).1
}

/// The time at which wake `i` is handled.
pub open spec fn time_at(p: Policy, start: u64, inputs: Seq<Stimulus>, i: int) -> u64 {
    later(inputs[i].now, state_before(p, start, inputs, i).clock)
}

/// Wake `i` is answered by a spawn.
pub open spec fn spawns_at(p: Policy, start: u64, inputs: Seq<Stimulus>, i: int) -> bool {
    action_at(p, start, inputs, i) is Spawn
}

/// Wake `i` is answered by a spawn that hands over an event.
pub open spec fn event_spawn_at(p: Policy, start: u64, inputs: Seq<Stimulus>, i: int) -> bool {
    match action_at(p, start, inputs, i) {
        Action::Spawn { payload } => payload is Some,
        _ => false,
    }
}

/// The state before wake `i + 1` is the state before wake `i`, advanced by
/// wake `i`.
pub proof fn lemma_run_step(p: Policy, start: u64, inputs: Seq<Stimulus>, i: int)
    requires
        0 <= i < inputs.len(),
    ensures
        state_before(p, start, inputs, i + 1) == state_before(p, start, inputs, i).advance(
            p,
            inputs[i].wake,
            inputs[i].now,
        ).0,
        state_before(p, start, inputs, 0) == SchedulerState::initial(p, start),
        state_before(p, start, inputs, inputs.len() as int) == state_after(p, start, inputs),
{
    assert(inputs.take(i + 1).drop_last() =~= inputs.take(i));
    assert(inputs.take(i + 1).last() == inputs[i]);
    assert(inputs.take(0).len() == 0);
    assert(inputs.take(inputs.len() as int) =~= inputs);
}

/// A step keeps the state within what the policy allows.
pub proof fn lemma_advance_inv(p: Policy, s: SchedulerState, wake: Wake, now: u64)
    requires
        s.inv(p),
    ensures
        s.advance(p, wake, now).0.inv(p),
{
}

/// Every state of a run is one that the policy allows.
pub proof fn lemma_run_inv(p: Policy, start: u64, inputs: Seq<Stimulus>, i: int)
    requires
        p.rate_burst >= 1,
        0 <= i <= inputs.len(),
    ensures
        state_before(p, start, inputs, i).inv(p),
    decreases i,
{
    lemma_tolerance_bounded(p.rate_period, p.rate_burst);
    if i == 0 {
        assert(inputs.take(0).len() == 0);
    } else {
        lemma_run_inv(p, start, inputs, i - 1);
        lemma_run_step(p, start, inputs, i - 1);
        lemma_advance_inv(
            p,
            state_before(p, start, inputs, i - 1),
            inputs[i - 1].wake,
            inputs[i - 1].now,
        );
    }
}

// ---------------------------------------------------------------------------
// At most one child
// ---------------------------------------------------------------------------
/// How many of the first `n` wakes were answered by a spawn.
pub open spec fn spawned(p: Policy, start: u64, inputs: Seq<Stimulus>, n: int) -> nat
    decreases n,
{
    if n <= 0 {
        0
    } else {
        spawned(p, start, inputs, n - 1) + if spawns_at(p, start, inputs, n - 1) {
            1nat
        } else {
            0nat
        }
    }
}

/// How many of the first `n` wakes told of the exit of a child that ran.
pub open spec fn reaped(p: Policy, start: u64, inputs: Seq<Stimulus>, n: int) -> nat
    decreases n,
{
    if n <= 0 {
        0
    } else {
        reaped(p, start, inputs, n - 1) + if state_before(p, start, inputs, n - 1).phase is Spawning
            && inputs[n - 1].wake is ChildExited {
            1nat
        } else {
            0nat
        }
    }
}

/// At every point of a run, the children spawned and not yet reported as
/// exited number one while the scheduler is in its spawning phase, and none
/// otherwise: never more than one child is in flight.
pub proof fn law_single_child(p: Policy, start: u64, inputs: Seq<Stimulus>, n: int)
    requires
        0 <= n <= inputs.len(),
    ensures
        spawned(p, start, inputs, n) - reaped(p, start, inputs, n) == (if state_before(
            p,
            start,
            inputs,
            n,
        ).phase is Spawning {
            1int
        } else {
            0int
        }),
        spawned(p, start, inputs, n) - reaped(p, start, inputs, n) <= 1,
    decreases n,
{
    if n == 0 {
        lemma_run_step_zero(p, start, inputs);
    } else {
        law_single_child(p, start, inputs, n - 1);
        lemma_run_step(p, start, inputs, n - 1);
    }
}

/// The state before the first wake is the initial state.
pub proof fn lemma_run_step_zero(p: Policy, start: u64, inputs: Seq<Stimulus>)
    ensures
        state_before(p, start, inputs, 0) == SchedulerState::initial(p, start),
{
    assert(inputs.take(0).len() == 0);
}

// ---------------------------------------------------------------------------
// Closing the slot
// ---------------------------------------------------------------------------
/// Once the scheduler was told that the slot is closed, it has stopped or
/// waits for the running child in order to stop.
pub proof fn lemma_closed_stays(p: Policy, start: u64, inputs: Seq<Stimulus>, i: int, j: int)
    requires
        p.rate_burst >= 1,
        0 <= i < j <= inputs.len(),
        inputs[i].wake is Closed,
    ensures
        ({
            let s = state_before(p, start, inputs, j);
            s.phase is Closed || (s.phase is Spawning && s.closing)
        }),
    decreases j,
{
    lemma_run_step(p, start, inputs, j - 1);
    if j - 1 > i {
        lemma_closed_stays(p, start, inputs, i, j - 1);
    }
}

/// After the scheduler was told that the slot is closed, no wake is
/// answered by a spawn: only a child that already runs is still awaited,
/// and the answer to its exit, as to any wake outside the spawning phase,
/// is to stop.
pub proof fn law_close_ends_spawning(p: Policy, start: u64, inputs: Seq<Stimulus>, i: int, j: int)
    requires
        p.rate_burst >= 1,
        0 <= i < j < inputs.len(),
        inputs[i].wake is Closed,
    ensures
        !spawns_at(p, start, inputs, j),
        action_at(p, start, inputs, j) is Exit || action_at(p, start, inputs, j) is AwaitChild,
        (inputs[j].wake is ChildExited || !(state_before(p, start, inputs, j).phase is Spawning))
            ==> action_at(p, start, inputs, j) is Exit,
{
    lemma_closed_stays(p, start, inputs, i, j);
}

// ---------------------------------------------------------------------------
// Bursts: delay and latest-wins
// ---------------------------------------------------------------------------
/// Wakes `f` and `l` frame a burst that is pending before wake `n`: `f` is
/// its first event, observed at `since`, `l` its last, `m`; no event came
/// after `l`, and nothing was spawned from `f` on.
pub open spec fn frames_burst(
    p: Policy,
    start: u64,
    inputs: Seq<Stimulus>,
    n: int,
    f: int,
    l: int,
    since: u64,
    m: ImseMessage,
) -> bool {
    &&& 0 <= f <= l < n
    &&& inputs[f].wake is Changed
    &&& time_at(p, start, inputs, f) == since
    &&& inputs[l].wake == Wake::Changed(m)
    &&& forall|j: int| l < j < n ==> !((#[trigger] inputs[j]).wake is Changed)
    &&& forall|j: int| f <= j < n ==> !#[trigger] spawns_at(p, start, inputs, j)
}

/// How one step changes what is pending: a spawn clears it, an event that
/// is observed replaces the message and keeps the time of the burst's first
/// event, and nothing else touches it.
pub proof fn lemma_advance_pending(p: Policy, s: SchedulerState, wake: Wake, now: u64)
    ensures
        ({
            let next = s.advance(p, wake, now);
            &&& next.1 is Spawn ==> next.0.pending is None && s.phase is Waiting
            &&& s.phase is Closed ==> next.0 == s && next.1 is Exit
            &&& !(next.1 is Spawn) && !(wake is Changed) ==> next.0.pending == s.pending
            &&& !(next.1 is Spawn) && wake is Changed && !(s.phase is Closed) ==> next.0.pending
                == Some(s.absorb(wake->Changed_0, later(now, s.clock)))
        }),
{
}

/// A burst that is pending before wake `n` is framed by two earlier wakes.
pub proof fn lemma_pending_burst(p: Policy, start: u64, inputs: Seq<Stimulus>, n: int) -> (w: (
    int,
    int,
))
    requires
        0 <= n <= inputs.len(),
        state_before(p, start, inputs, n).pending is Some,
        !(state_before(p, start, inputs, n).phase is Closed),
    ensures
        frames_burst(
            p,
            start,
            inputs,
            n,
            w.0,
            w.1,
            state_before(p, start, inputs, n).pending->0.since,
            state_before(p, start, inputs, n).pending->0.message,
        ),
    decreases n,
{
    if n == 0 {
        lemma_run_step_zero(p, start, inputs);
        (0, 0)
    } else {
        let i = n - 1;
        lemma_run_step(p, start, inputs, i);
        let before = state_before(p, start, inputs, i);
        let after = state_before(p, start, inputs, n);
        lemma_advance_pending(p, before, inputs[i].wake, inputs[i].now);
        assert(!spawns_at(p, start, inputs, i));
        assert(!(before.phase is Closed));
        if inputs[i].wake is Changed && before.pending is None {
            assert(after.pending->0.since == time_at(p, start, inputs, i));
            (i, i)
        } else {
            assert(before.pending is Some);
            let prev = lemma_pending_burst(p, start, inputs, i);
            let since = before.pending->0.since;
            let m = before.pending->0.message;
            assert(frames_burst(p, start, inputs, i, prev.0, prev.1, since, m));
            assert(after.pending->0.since == since);
            if inputs[i].wake is Changed {
                lemma_frame_moves(p, start, inputs, i, prev.0, prev.1, since, m);
                (prev.0, i)
            } else {
                assert(after.pending->0.message == m);
                lemma_frame_stays(p, start, inputs, i, prev.0, prev.1, since, m);
                prev
            }
        }
    }
}

/// A frame of a burst still holds after a wake that is no event and is not
/// answered by a spawn.
pub proof fn lemma_frame_stays(
    p: Policy,
    start: u64,
    inputs: Seq<Stimulus>,
    i: int,
    f: int,
    l: int,
    since: u64,
    m: ImseMessage,
)
    requires
        frames_burst(p, start, inputs, i, f, l, since, m),
        !(inputs[i].wake is Changed),
        !spawns_at(p, start, inputs, i),
    ensures
        frames_burst(p, start, inputs, i + 1, f, l, since, m),
{
}

/// After an event that is not answered by a spawn, the burst's frame ends
/// at that event.
pub proof fn lemma_frame_moves(
    p: Policy,
    start: u64,
    inputs: Seq<Stimulus>,
    i: int,
    f: int,
    l: int,
    since: u64,
    m: ImseMessage,
)
    requires
        frames_burst(p, start, inputs, i, f, l, since, m),
        inputs[i].wake is Changed,
        !spawns_at(p, start, inputs, i),
    ensures
        frames_burst(p, start, inputs, i + 1, f, i, since, inputs[i].wake->Changed_0),
{
}

/// While nothing is pending, every event told so far was followed by a
/// spawn.
pub proof fn lemma_nothing_pending(p: Policy, start: u64, inputs: Seq<Stimulus>, n: int, j: int) -> (k:
    int)
    requires
        0 <= j < n <= inputs.len(),
        state_before(p, start, inputs, n).pending is None,
        !(state_before(p, start, inputs, n).phase is Closed),
        inputs[j].wake is Changed,
    ensures
        j <= k < n,
        spawns_at(p, start, inputs, k),
    decreases n,
{
    lemma_run_step(p, start, inputs, n - 1);
    let before = state_before(p, start, inputs, n - 1);
    lemma_advance_pending(p, before, inputs[n - 1].wake, inputs[n - 1].now);
    if spawns_at(p, start, inputs, n - 1) {
        n - 1
    } else {
        assert(before.pending is None);
        assert(j < n - 1);
        lemma_nothing_pending(p, start, inputs, n - 1, j)
    }
}

/// The action is a spawn that hands over `m`.
pub open spec fn hands_over(a: Action, m: ImseMessage) -> bool {
    a == (Action::Spawn { payload: Some(m) })
}

/// Event `f` opened the burst that wake `i` finds, or is wake `i` itself:
/// it was told no later than wake `i`, the delay has run out since, and
/// nothing was spawned from it on.
pub open spec fn opens_burst(p: Policy, start: u64, inputs: Seq<Stimulus>, i: int, f: int) -> bool {
    &&& 0 <= f <= i
    &&& inputs[f].wake is Changed
    &&& time_at(p, start, inputs, i) >= time_at(p, start, inputs, f) + p.hold()
    &&& forall|j: int| f <= j < i ==> !#[trigger] spawns_at(p, start, inputs, j)
}

/// Event `l` is the most recent one at wake `i`: no event was told after
/// it, and nothing was spawned from it on.
pub open spec fn is_latest(p: Policy, start: u64, inputs: Seq<Stimulus>, i: int, l: int) -> bool {
    &&& 0 <= l <= i
    &&& inputs[l].wake is Changed
    &&& forall|j: int| l < j <= i ==> !((#[trigger] inputs[j]).wake is Changed)
    &&& forall|j: int| l <= j < i ==> !#[trigger] spawns_at(p, start, inputs, j)
}

/// Something was spawned from wake `j` on, before wake `i`.
pub open spec fn spawned_since(p: Policy, start: u64, inputs: Seq<Stimulus>, i: int, j: int) -> bool {
    exists|k: int| j <= k < i && #[trigger] spawns_at(p, start, inputs, k)
}

/// The burst behind a spawn that hands over an event: its first event and
/// its last.
pub proof fn lemma_spawned_burst(p: Policy, start: u64, inputs: Seq<Stimulus>, i: int) -> (w: (
    int,
    int,
))
    requires
        0 <= i < inputs.len(),
        event_spawn_at(p, start, inputs, i),
    ensures
        opens_burst(p, start, inputs, i, w.0),
        is_latest(p, start, inputs, i, w.1),
        hands_over(action_at(p, start, inputs, i), inputs[w.1].wake->Changed_0),
{
    let before = state_before(p, start, inputs, i);
    lemma_advance_pending(p, before, inputs[i].wake, inputs[i].now);
    if inputs[i].wake is Changed {
        if before.pending is Some {
            let prev = lemma_pending_burst(p, start, inputs, i);
            (prev.0, i)
        } else {
            (i, i)
        }
    } else {
        let prev = lemma_pending_burst(p, start, inputs, i);
        prev
    }
}

/// Latest wins: a spawn that hands over an event hands over the most recent
/// one told since the spawn before it.
pub proof fn law_latest_wins(p: Policy, start: u64, inputs: Seq<Stimulus>, i: int)
    requires
        0 <= i < inputs.len(),
        event_spawn_at(p, start, inputs, i),
    ensures
        exists|l: int|
            #![trigger is_latest(p, start, inputs, i, l)]
            is_latest(p, start, inputs, i, l) && hands_over(
                action_at(p, start, inputs, i),
                inputs[l].wake->Changed_0,
            ),
{
    let w = lemma_spawned_burst(p, start, inputs, i);
    assert(is_latest(p, start, inputs, i, w.1));
}

/// A spawn hands over no event only if none was told since the spawn
/// before it: every event told earlier was followed by a spawn.
pub proof fn law_empty_spawn_lost_nothing(p: Policy, start: u64, inputs: Seq<Stimulus>, i: int, j: int)
    requires
        0 <= j <= i < inputs.len(),
        spawns_at(p, start, inputs, i),
        !event_spawn_at(p, start, inputs, i),
        inputs[j].wake is Changed,
    ensures
        spawned_since(p, start, inputs, i, j),
{
    let before = state_before(p, start, inputs, i);
    assert(before.pending is None);
    let k = lemma_nothing_pending(p, start, inputs, i, j);
    assert(spawns_at(p, start, inputs, k));
}

/// The delay is kept: a spawn that hands over an event comes no sooner than
/// the delay after some event that was told, and nothing was spawned from
/// that event on.
pub proof fn law_delay_kept(p: Policy, start: u64, inputs: Seq<Stimulus>, i: int)
    requires
        0 <= i < inputs.len(),
        event_spawn_at(p, start, inputs, i),
    ensures
        exists|f: int| #[trigger] opens_burst(p, start, inputs, i, f),
{
    let w = lemma_spawned_burst(p, start, inputs, i);
    assert(opens_burst(p, start, inputs, i, w.0));
}

/// Without a periodic interval nothing is spawned unless an event was told
/// since the spawn before: every spawn hands over an event.
pub proof fn law_spawn_needs_event(p: Policy, start: u64, inputs: Seq<Stimulus>, i: int)
    requires
        p.periodic is None,
        0 <= i < inputs.len(),
        spawns_at(p, start, inputs, i),
    ensures
        event_spawn_at(p, start, inputs, i),
        exists|f: int| #[trigger] opens_burst(p, start, inputs, i, f),
{
    law_delay_kept(p, start, inputs, i);
}

// ---------------------------------------------------------------------------
// The rate limit
// ---------------------------------------------------------------------------
/// How many of the wakes from `lo` up to, not including, `hi` were answered
/// by a spawn that hands over an event.
pub open spec fn event_spawns(p: Policy, start: u64, inputs: Seq<Stimulus>, lo: int, hi: int) -> nat
    decreases hi - lo,
{
    if hi <= lo {
        0
    } else {
        event_spawns(p, start, inputs, lo, hi - 1) + if event_spawn_at(p, start, inputs, hi - 1) {
            1nat
        } else {
            0nat
        }
    }
}

/// How one step changes the bucket: a spawn that hands over an event takes
/// a token that the bucket grants at the time of the step, and nothing else
/// touches the bucket.
pub proof fn lemma_advance_bucket(p: Policy, s: SchedulerState, wake: Wake, now: u64)
    ensures
        ({
            let next = s.advance(p, wake, now);
            let t = later(now, s.clock);
            let with_event = match next.1 {
                Action::Spawn { payload } => payload is Some,
                _ => false,
            };
            &&& with_event ==> s.bucket.grants(t) && next.0.bucket == s.bucket.taken(t)
            &&& !with_event ==> next.0.bucket == s.bucket
        }),
{
}

/// After a spawn that handed over an event, the bucket's horizon lies one
/// interval past that spawn for each such spawn since, unless it has
/// reached its ceiling.
pub proof fn lemma_horizon_grows(p: Policy, start: u64, inputs: Seq<Stimulus>, i: int, n: int)
    requires
        p.rate_burst >= 1,
        0 <= i < n <= inputs.len(),
        event_spawn_at(p, start, inputs, i),
    ensures
        ({
            let b = state_before(p, start, inputs, n).bucket;
            b.horizon == b.ceiling() || b.horizon >= time_at(p, start, inputs, i) + event_spawns(
                p,
                start,
                inputs,
                i,
                n,
            ) * p.interval()
        }),
    decreases n,
{
    lemma_run_step(p, start, inputs, n - 1);
    lemma_run_inv(p, start, inputs, n - 1);
    lemma_run_inv(p, start, inputs, n);
    let before = state_before(p, start, inputs, n - 1);
    let after = state_before(p, start, inputs, n);
    lemma_advance_bucket(p, before, inputs[n - 1].wake, inputs[n - 1].now);
    let t = p.interval() as int;
    if n - 1 == i {
        assert(event_spawns(p, start, inputs, i, i) == 0);
        assert(event_spawns(p, start, inputs, i, n) == 1);
        assert(1 * t == t);
        assert(after.bucket == before.bucket.taken(time_at(p, start, inputs, i)));
    } else {
        lemma_horizon_grows(p, start, inputs, i, n - 1);
        let c = event_spawns(p, start, inputs, i, n - 1) as int;
        if event_spawn_at(p, start, inputs, n - 1) {
            assert(after.bucket == before.bucket.taken(time_at(p, start, inputs, n - 1)));
            assert((c + 1) * t == c * t + t) by (nonlinear_arith);
        } else {
            assert(after.bucket == before.bucket);
        }
    }
}

/// The rate limit: of two spawns that hand over an event, the later one,
/// moved forward by the tolerance, comes no sooner than one refill interval
/// after the earlier one for each such spawn from the earlier one up to it.
pub proof fn law_rate_limit(p: Policy, start: u64, inputs: Seq<Stimulus>, i: int, j: int)
    requires
        p.rate_burst >= 1,
        0 <= i < j < inputs.len(),
        event_spawn_at(p, start, inputs, i),
        event_spawn_at(p, start, inputs, j),
    ensures
        event_spawns(p, start, inputs, i, j) >= 1,
        time_at(p, start, inputs, j) + p.tolerance() >= time_at(p, start, inputs, i) + event_spawns(
            p,
            start,
            inputs,
            i,
            j,
        ) * p.interval(),
{
    lemma_horizon_grows(p, start, inputs, i, j);
    lemma_run_inv(p, start, inputs, j);
    lemma_event_spawns_counts_first(p, start, inputs, i, j);
    lemma_advance_bucket(p, state_before(p, start, inputs, j), inputs[j].wake, inputs[j].now);
}

/// The count of spawns from `i` on includes the one at `i`.
pub proof fn lemma_event_spawns_counts_first(p: Policy, start: u64, inputs: Seq<Stimulus>, i: int, j: int)
    requires
        i < j,
        event_spawn_at(p, start, inputs, i),
    ensures
        event_spawns(p, start, inputs, i, j) >= 1,
    decreases j - i,
{
    if j - 1 == i {
        assert(event_spawns(p, start, inputs, i, i) == 0);
    } else {
        lemma_event_spawns_counts_first(p, start, inputs, i, j - 1);
    }
}

/// With a bucket of one token, two spawns that hand over an event lie at
/// least the whole period apart: no window of the period's length, its end
/// excluded, holds more than one of them.
pub proof fn law_rate_window(p: Policy, start: u64, inputs: Seq<Stimulus>, i: int, j: int)
    requires
        p.rate_burst == 1,
        0 <= i < j < inputs.len(),
        event_spawn_at(p, start, inputs, i),
        event_spawn_at(p, start, inputs, j),
    ensures
        time_at(p, start, inputs, j) >= time_at(p, start, inputs, i) + p.rate_period,
{
    law_rate_limit(p, start, inputs, i, j);
    lemma_tolerance_bounded(p.rate_period, p.rate_burst);
    let c = event_spawns(p, start, inputs, i, j) as int;
    let t = p.rate_period as int;
    assert(c * t >= t) by (nonlinear_arith)
        requires
            c >= 1,
            t >= 0,
    ;
}

/// With a bucket of any size, a run of spawns that hand over an event and
/// number more than the bucket holds takes at least one refill interval.
pub proof fn law_rate_burst(p: Policy, start: u64, inputs: Seq<Stimulus>, i: int, j: int)
    requires
        p.rate_burst >= 1,
        0 <= i < j < inputs.len(),
        event_spawn_at(p, start, inputs, i),
        event_spawn_at(p, start, inputs, j),
        event_spawns(p, start, inputs, i, j) >= p.rate_burst,
    ensures
        time_at(p, start, inputs, j) >= time_at(p, start, inputs, i) + p.interval(),
{
    law_rate_limit(p, start, inputs, i, j);
    let c = event_spawns(p, start, inputs, i, j) as int;
    let t = p.interval() as int;
    let b = p.rate_burst as int;
    assert(c * t - (b - 1) * t >= t) by (nonlinear_arith)
        requires
            c >= b,
            t >= 0,
    ;
}

// ---------------------------------------------------------------------------
// Periodic spawns
// ---------------------------------------------------------------------------
/// No event arrives in the run, and the slot stays open.
pub open spec fn quiet(inputs: Seq<Stimulus>) -> bool {
    forall|k: int|
        0 <= k < inputs.len() ==> !((#[trigger] inputs[k]).wake is Changed) && !(inputs[k].wake
            is Closed)
}

/// In a quiet run nothing is ever pending, and a waiting scheduler has asked
/// to be woken one periodic interval after the last child exited.
pub proof fn lemma_quiet_state(p: Policy, start: u64, inputs: Seq<Stimulus>, n: int)
    requires
        p.periodic is Some,
        quiet(inputs),
        0 <= n <= inputs.len(),
    ensures
        ({
            let s = state_before(p, start, inputs, n);
            &&& s.pending is None
            &&& !(s.phase is Closed)
            &&& !s.closing
            &&& s.phase is Waiting ==> s.deadline == plus(s.last_exec, p.periodic->0)
        }),
    decreases n,
{
    if n == 0 {
        lemma_run_step_zero(p, start, inputs);
    } else {
        lemma_quiet_state(p, start, inputs, n - 1);
        lemma_run_step(p, start, inputs, n - 1);
    }
}

/// The periodic cadence: when no event arrives, a waiting scheduler spawns
/// at the first deadline wake that comes one periodic interval or more
/// after the last child exited, and at no other wake; it hands over no
/// event and does not ask the bucket. Until then it asks to be woken at
/// exactly that time.
pub proof fn law_periodic_cadence(p: Policy, start: u64, inputs: Seq<Stimulus>, i: int)
    requires
        p.periodic is Some,
        quiet(inputs),
        0 <= i < inputs.len(),
    ensures
        ({
            let s = state_before(p, start, inputs, i);
            let due = plus(s.last_exec, p.periodic->0);
            let at = time_at(p, start, inputs, i);
            &&& spawns_at(p, start, inputs, i) <==> s.phase is Waiting && inputs[i].wake is Deadline
                && at >= due
            &&& spawns_at(p, start, inputs, i) ==> !event_spawn_at(p, start, inputs, i)
            &&& spawns_at(p, start, inputs, i) ==> state_before(p, start, inputs, i + 1).bucket
                == s.bucket
            &&& s.phase is Waiting && !spawns_at(p, start, inputs, i) ==> action_at(
                p,
                start,
                inputs,
                i,
            ) == (Action::Wait { until: due })
            &&& s.phase is Spawning && inputs[i].wake is ChildExited ==> action_at(
                p,
                start,
                inputs,
                i,
            ) == (Action::Wait { until: plus(at, p.periodic->0) })
        }),
{
    lemma_quiet_state(p, start, inputs, i);
    lemma_run_step(p, start, inputs, i);
}

} // verus!
