use imserious::config::{EnvVar, Handler, NonZeroDuration, SplitCommand};
use imserious::handler::{Action, Phase, Scheduler, Wake};
use imserious::message::{ImseEvent, ImseMessage, RemoteAddr};

const SEC: u64 = 1_000_000_000;
const MS: u64 = 1_000_000;
const HOUR: u64 = 3_600 * SEC;

fn secs(n: u64) -> Option<NonZeroDuration> {
    Some(NonZeroDuration::from_parts(n, 0).expect("a span that is not zero"))
}

fn handler(
    delay: Option<NonZeroDuration>,
    limit_period: Option<NonZeroDuration>,
    limit_burst: Option<u32>,
    periodic: Option<NonZeroDuration>,
) -> Handler {
    Handler {
        user: String::from("alice"),
        event: ImseEvent::MessageNew,
        delay,
        limit_period,
        limit_burst,
        periodic,
        command: SplitCommand::parse("notify-send 'new mail'").expect("a command"),
    }
}

fn message(unseen: u32) -> ImseMessage {
    ImseMessage {
        remote_addr: Some(RemoteAddr { ip: String::from("192.0.2.7"), port: 40123 }),
        event: ImseEvent::MessageNew,
        user: String::from("alice"),
        unseen,
        folder: String::from("INBOX"),
        from: Some(String::from("bob@example.org")),
        snippet: None,
    }
}

fn event(unseen: u32) -> Wake {
    Wake::Changed(message(unseen))
}

fn wait_until(action: &Action) -> u64 {
    match action {
        Action::Wait { until } => *until,
        other => panic!("expected a wait, got {:?}", other),
    }
}

fn spawned_unseen(action: &Action) -> Option<u32> {
    match action {
        Action::Spawn { payload } => payload.as_ref().map(|m| m.unseen),
        other => panic!("expected a spawn, got {:?}", other),
    }
}

fn value_of<'a>(env: &'a [EnvVar], name: &str) -> Option<&'a str> {
    env.iter().find(|v| v.name == name).map(|v| v.value.as_str())
}

#[test]
fn new_scheduler_waits_one_idle_wake() {
    let s = Scheduler::new(&handler(None, None, None, None), 7 * SEC);
    assert_eq!(s.deadline(), 7 * SEC + HOUR);
    assert_eq!(s.last_exec(), 7 * SEC);
    assert_eq!(s.phase(), Phase::Waiting);
    assert!(!s.has_pending());
}

#[test]
fn new_scheduler_waits_one_period() {
    let s = Scheduler::new(&handler(None, None, None, secs(60)), 0);
    assert_eq!(s.deadline(), 60 * SEC);
}

#[test]
fn burst_is_coalesced_into_one_spawn() {
    let h = handler(secs(2), None, None, None);
    let mut s = Scheduler::new(&h, 0);
    assert_eq!(wait_until(&s.step(event(1), 100 * MS)), 2_100 * MS);
    assert_eq!(wait_until(&s.step(event(2), 200 * MS)), 2_100 * MS);
    assert_eq!(wait_until(&s.step(event(3), 300 * MS)), 2_100 * MS);
    let action = s.step(Wake::Deadline, 2_100 * MS);
    assert_eq!(spawned_unseen(&action), Some(3));
    let payload = match action {
        Action::Spawn { payload } => payload,
        _ => unreachable!(),
    };
    let env = h.environment(&payload);
    assert_eq!(value_of(&env, "IMSE_UNSEEN"), Some("3"));
    assert_eq!(s.phase(), Phase::Spawning);
    assert!(!s.has_pending());
    assert_eq!(wait_until(&s.step(Wake::ChildExited, 2_200 * MS)), 2_200 * MS + HOUR);
    assert_eq!(s.last_exec(), 2_200 * MS);
}

#[test]
fn rate_limit_holds_third_spawn_until_refill() {
    let mut s = Scheduler::new(&handler(None, secs(10), Some(2), None), 0);
    let mut spawns: Vec<(u64, u32)> = Vec::new();

    let a = s.step(event(1), 0);
    assert_eq!(spawned_unseen(&a), Some(1));
    spawns.push((0, 1));
    assert_eq!(wait_until(&s.step(Wake::ChildExited, 0)), HOUR);

    let a = s.step(event(2), SEC);
    assert_eq!(spawned_unseen(&a), Some(2));
    spawns.push((SEC, 2));
    assert_eq!(wait_until(&s.step(Wake::ChildExited, SEC)), SEC + HOUR);

    assert_eq!(wait_until(&s.step(event(3), 2 * SEC)), 5 * SEC);
    assert_eq!(wait_until(&s.step(event(4), 3 * SEC)), 5 * SEC);
    assert_eq!(wait_until(&s.step(event(5), 4 * SEC)), 5 * SEC);

    let a = s.step(Wake::Deadline, 5 * SEC);
    assert_eq!(spawned_unseen(&a), Some(5));
    spawns.push((5 * SEC, 5));
    assert_eq!(wait_until(&s.step(Wake::ChildExited, 5 * SEC)), 5 * SEC + HOUR);

    let a = s.step(Wake::Deadline, 11 * SEC);
    assert_eq!(wait_until(&a), 5 * SEC + HOUR);
    assert_eq!(spawns, vec![(0, 1), (SEC, 2), (5 * SEC, 5)]);
}

#[test]
fn periodic_spawns_without_events() {
    let h = handler(None, None, None, secs(60));
    let mut s = Scheduler::new(&h, 0);
    for k in 1..=3u64 {
        let action = s.step(Wake::Deadline, 60 * k * SEC);
        assert_eq!(spawned_unseen(&action), None);
        let payload = match action {
            Action::Spawn { payload } => payload,
            _ => unreachable!(),
        };
        let env = h.environment(&payload);
        assert_eq!(env.len(), 2);
        assert_eq!(value_of(&env, "IMSE_USER"), Some("alice"));
        assert_eq!(value_of(&env, "IMSE_EVENT"), Some("MessageNew"));
        assert_eq!(value_of(&env, "IMSE_UNSEEN"), None);
        assert_eq!(value_of(&env, "IMSE_FOLDER"), None);
        assert_eq!(wait_until(&s.step(Wake::ChildExited, 60 * k * SEC)), 60 * (k + 1) * SEC);
    }
}

#[test]
fn periodic_spawns_bypass_rate_limit() {
    let mut s = Scheduler::new(&handler(None, secs(60), Some(1), secs(5)), 0);
    for k in 1..=6u64 {
        let action = s.step(Wake::Deadline, 5 * k * SEC);
        assert_eq!(spawned_unseen(&action), None);
        assert_eq!(wait_until(&s.step(Wake::ChildExited, 5 * k * SEC)), 5 * (k + 1) * SEC);
    }
}

#[test]
fn periodic_spawn_leaves_the_token_for_an_event() {
    let mut s = Scheduler::new(&handler(None, secs(60), Some(1), secs(5)), 0);
    assert_eq!(spawned_unseen(&s.step(Wake::Deadline, 5 * SEC)), None);
    assert_eq!(wait_until(&s.step(Wake::ChildExited, 5 * SEC)), 10 * SEC);
    assert_eq!(spawned_unseen(&s.step(event(9), 6 * SEC)), Some(9));
    assert_eq!(wait_until(&s.step(Wake::ChildExited, 6 * SEC)), 11 * SEC);
    assert_eq!(wait_until(&s.step(event(10), 7 * SEC)), 66 * SEC);
}

#[test]
fn event_during_delay_keeps_the_anchor() {
    let h = handler(secs(5), None, None, None);
    let mut s = Scheduler::new(&h, 0);
    assert_eq!(wait_until(&s.step(event(1), 0)), 5 * SEC);
    assert_eq!(wait_until(&s.step(event(7), 3 * SEC)), 5 * SEC);
    let action = s.step(Wake::Deadline, 5 * SEC);
    assert_eq!(spawned_unseen(&action), Some(7));
    let payload = match action {
        Action::Spawn { payload } => payload,
        _ => unreachable!(),
    };
    assert_eq!(value_of(&h.environment(&payload), "IMSE_UNSEEN"), Some("7"));
    assert_eq!(wait_until(&s.step(Wake::ChildExited, 5 * SEC)), 5 * SEC + HOUR);
    assert_eq!(wait_until(&s.step(Wake::Deadline, 6 * SEC)), 5 * SEC + HOUR);
}

#[test]
fn shutdown_waits_for_the_running_child() {
    let mut s = Scheduler::new(&handler(None, None, None, None), 0);
    assert_eq!(spawned_unseen(&s.step(event(1), 0)), Some(1));
    assert!(matches!(s.step(Wake::Closed, SEC), Action::AwaitChild));
    assert_eq!(s.phase(), Phase::Spawning);
    assert!(matches!(s.step(Wake::ChildExited, 2 * SEC), Action::Exit));
    assert_eq!(s.phase(), Phase::Closed);
    assert_eq!(s.last_exec(), 2 * SEC);
    assert!(matches!(s.step(event(2), 3 * SEC), Action::Exit));
    assert!(matches!(s.step(Wake::Deadline, 2 * HOUR), Action::Exit));
    assert!(!s.has_pending());
}

#[test]
fn closing_an_idle_scheduler_stops_it() {
    let mut s = Scheduler::new(&handler(None, None, None, secs(1)), 0);
    assert!(matches!(s.step(Wake::Closed, 10), Action::Exit));
    assert_eq!(s.phase(), Phase::Closed);
    assert!(matches!(s.step(Wake::Deadline, 5 * SEC), Action::Exit));
}

#[test]
fn closing_drops_a_pending_burst() {
    let mut s = Scheduler::new(&handler(secs(5), None, None, None), 0);
    assert_eq!(wait_until(&s.step(event(1), 0)), 5 * SEC);
    assert!(matches!(s.step(Wake::Closed, SEC), Action::Exit));
    assert!(matches!(s.step(Wake::Deadline, 5 * SEC), Action::Exit));
}

#[test]
fn idle_wake_never_spawns() {
    let mut s = Scheduler::new(&handler(None, None, None, None), 0);
    assert_eq!(wait_until(&s.step(Wake::Deadline, HOUR)), 2 * HOUR);
    assert_eq!(wait_until(&s.step(Wake::Deadline, 2 * HOUR + 5)), 3 * HOUR + 5);
    assert_eq!(s.phase(), Phase::Waiting);
}

#[test]
fn early_deadline_wake_keeps_waiting() {
    let mut s = Scheduler::new(&handler(None, None, None, secs(60)), 0);
    assert_eq!(wait_until(&s.step(Wake::Deadline, 59 * SEC)), 60 * SEC);
    assert_eq!(spawned_unseen(&s.step(Wake::Deadline, 60 * SEC)), None);
}

#[test]
fn without_delay_an_event_spawns_at_once() {
    let mut s = Scheduler::new(&handler(None, None, None, None), 0);
    assert_eq!(spawned_unseen(&s.step(event(4), 17)), Some(4));
}

#[test]
fn delay_that_has_just_run_out_does_not_defer() {
    let mut s = Scheduler::new(&handler(secs(2), None, None, None), 0);
    assert_eq!(wait_until(&s.step(event(1), SEC)), 3 * SEC);
    assert_eq!(spawned_unseen(&s.step(event(2), 3 * SEC)), Some(2));
}

#[test]
fn one_nanosecond_before_the_delay_ends_still_defers() {
    let mut s = Scheduler::new(&handler(secs(2), None, None, None), 0);
    assert_eq!(wait_until(&s.step(event(1), SEC)), 3 * SEC);
    assert_eq!(wait_until(&s.step(Wake::Deadline, 3 * SEC - 1)), 3 * SEC);
    assert_eq!(wait_until(&s.step(event(2), 3 * SEC - 1)), 3 * SEC);
    assert_eq!(spawned_unseen(&s.step(Wake::Deadline, 3 * SEC)), Some(2));
}

#[test]
fn event_after_rate_denial_replaces_payload_and_keeps_deadline() {
    let mut s = Scheduler::new(&handler(None, secs(30), None, None), 0);
    assert_eq!(spawned_unseen(&s.step(event(1), 0)), Some(1));
    assert_eq!(wait_until(&s.step(Wake::ChildExited, 0)), HOUR);
    assert_eq!(wait_until(&s.step(event(2), SEC)), 30 * SEC);
    assert_eq!(wait_until(&s.step(event(3), 2 * SEC)), 30 * SEC);
    assert_eq!(spawned_unseen(&s.step(Wake::Deadline, 30 * SEC)), Some(3));
}

#[test]
fn default_rate_limit_is_one_spawn_per_thirty_seconds() {
    let mut s = Scheduler::new(&handler(None, None, None, None), 0);
    assert_eq!(spawned_unseen(&s.step(event(1), 5 * SEC)), Some(1));
    s.step(Wake::ChildExited, 5 * SEC);
    assert_eq!(wait_until(&s.step(event(2), 6 * SEC)), 35 * SEC);
    assert_eq!(wait_until(&s.step(Wake::Deadline, 35 * SEC - 1)), 35 * SEC);
    assert_eq!(spawned_unseen(&s.step(Wake::Deadline, 35 * SEC)), Some(2));
}

#[test]
fn one_token_keeps_event_spawns_a_period_apart() {
    let mut s = Scheduler::new(&handler(None, secs(3), Some(1), None), 0);
    let mut spawns: Vec<u64> = Vec::new();
    let mut now: u64 = 0;
    let mut unseen: u32 = 0;
    while now <= 20 * SEC {
        unseen += 1;
        let mut action = s.step(event(unseen), now);
        if let Action::Wait { until } = action {
            if until <= now + SEC / 2 {
                action = s.step(Wake::Deadline, until);
                now = until;
            }
        }
        if matches!(action, Action::Spawn { .. }) {
            spawns.push(now);
            s.step(Wake::ChildExited, now);
        }
        now += 700 * MS;
    }
    assert!(spawns.len() >= 6);
    for pair in spawns.windows(2) {
        assert!(pair[1] - pair[0] >= 3 * SEC);
    }
}

#[test]
fn without_periodic_every_spawn_follows_an_event() {
    let mut s = Scheduler::new(&handler(None, secs(1), Some(3), None), 0);
    let wakes: Vec<(Wake, u64)> = vec![
        (Wake::Deadline, HOUR),
        (Wake::ChildExited, HOUR),
        (event(1), HOUR + 1),
        (Wake::ChildExited, HOUR + 2),
        (Wake::Deadline, 3 * HOUR),
        (Wake::Deadline, 5 * HOUR),
        (event(2), 5 * HOUR),
        (Wake::ChildExited, 5 * HOUR),
        (Wake::Deadline, 7 * HOUR),
    ];
    let mut events_since_spawn: u32 = 0;
    let mut spawns: u32 = 0;
    for (wake, now) in wakes {
        if matches!(wake, Wake::Changed(_)) {
            events_since_spawn += 1;
        }
        if let Action::Spawn { payload } = s.step(wake, now) {
            assert!(payload.is_some());
            assert!(events_since_spawn > 0);
            events_since_spawn = 0;
            spawns += 1;
        }
    }
    assert_eq!(spawns, 2);
}

#[test]
fn zero_burst_counts_as_one() {
    let mut s = Scheduler::new(&handler(None, secs(10), Some(0), None), 0);
    assert_eq!(spawned_unseen(&s.step(event(1), 0)), Some(1));
    s.step(Wake::ChildExited, 0);
    assert_eq!(wait_until(&s.step(event(2), 0)), 10 * SEC);
}

#[test]
fn event_during_spawn_opens_the_next_burst() {
    let mut s = Scheduler::new(&handler(secs(5), secs(1), None, None), 0);
    assert_eq!(wait_until(&s.step(event(1), 0)), 5 * SEC);
    assert_eq!(spawned_unseen(&s.step(Wake::Deadline, 5 * SEC)), Some(1));
    assert!(matches!(s.step(event(2), 6 * SEC), Action::AwaitChild));
    assert!(s.has_pending());
    assert!(matches!(s.step(Wake::Deadline, 7 * SEC), Action::AwaitChild));
    assert_eq!(wait_until(&s.step(Wake::ChildExited, 8 * SEC)), 11 * SEC);
    assert_eq!(spawned_unseen(&s.step(Wake::Deadline, 11 * SEC)), Some(2));
}

#[test]
fn at_most_one_child_in_flight() {
    let mut s = Scheduler::new(&handler(None, secs(1), Some(5), secs(1)), 0);
    let mut in_flight: i64 = 0;
    let wakes: Vec<(Wake, u64)> = vec![
        (event(1), 0),
        (event(2), 1),
        (Wake::Deadline, 2 * SEC),
        (Wake::ChildExited, 3 * SEC),
        (Wake::ChildExited, 3 * SEC),
        (Wake::Deadline, 3 * SEC),
        (event(3), 4 * SEC),
        (Wake::Deadline, 5 * SEC),
        (Wake::ChildExited, 6 * SEC),
        (Wake::Deadline, 7 * SEC),
        (Wake::Deadline, 8 * SEC),
        (Wake::ChildExited, 9 * SEC),
    ];
    for (wake, now) in wakes {
        let reaps = matches!(wake, Wake::ChildExited) && s.phase() == Phase::Spawning;
        let action = s.step(wake, now);
        if reaps {
            in_flight -= 1;
        }
        if matches!(action, Action::Spawn { .. }) {
            in_flight += 1;
        }
        assert!(in_flight == 0 || in_flight == 1);
        assert_eq!(in_flight == 1, s.phase() == Phase::Spawning);
    }
}

#[test]
fn child_exit_without_child_changes_nothing() {
    let mut s = Scheduler::new(&handler(None, None, None, secs(60)), 0);
    assert_eq!(wait_until(&s.step(Wake::ChildExited, 10 * SEC)), 60 * SEC);
    assert_eq!(s.last_exec(), 0);
    assert_eq!(s.phase(), Phase::Waiting);
}

#[test]
fn clock_never_runs_backwards() {
    let mut s = Scheduler::new(&handler(secs(2), None, None, None), 10 * SEC);
    assert_eq!(wait_until(&s.step(event(1), 4 * SEC)), 12 * SEC);
    assert_eq!(wait_until(&s.step(Wake::Deadline, 11 * SEC)), 12 * SEC);
    assert_eq!(spawned_unseen(&s.step(Wake::Deadline, 12 * SEC)), Some(1));
    assert_eq!(wait_until(&s.step(Wake::ChildExited, 0)), 12 * SEC + HOUR);
}

#[test]
fn deadline_stops_at_the_end_of_the_clock() {
    let mut s = Scheduler::new(&handler(secs(2), None, None, None), u64::MAX - SEC);
    assert_eq!(s.deadline(), u64::MAX);
    assert_eq!(wait_until(&s.step(event(1), u64::MAX - SEC)), u64::MAX);
    assert_eq!(wait_until(&s.step(Wake::Deadline, u64::MAX)), u64::MAX);
}

#[test]
fn spawn_hands_over_the_whole_event() {
    let mut s = Scheduler::new(&handler(None, None, None, None), 0);
    match s.step(event(12), 0) {
        Action::Spawn { payload: Some(m) } => {
            assert_eq!(m.unseen, 12);
            assert_eq!(m.user, "alice");
            assert_eq!(m.folder, "INBOX");
            assert_eq!(m.event, ImseEvent::MessageNew);
            assert_eq!(m.from.as_deref(), Some("bob@example.org"));
            assert_eq!(m.snippet, None);
            assert_eq!(m.remote_addr.map(|r| (r.ip, r.port)), Some((String::from("192.0.2.7"), 40123)));
        }
        other => panic!("expected a spawn with an event, got {:?}", other),
    }
}
