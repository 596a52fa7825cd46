use imserious::access::{admits, IpAddress, IpRange};
use imserious::config::{EnvVar, Handler, SplitCommand};
use imserious::execute::decimal_text;
use imserious::frontend::{registry, targets, Failure, Route};
use imserious::message::{ImseEvent, ImseMessage, RemoteAddr};
use imserious::text::{eq_ignoring_case, same_text, to_lower};

fn v4(a: u8, b: u8, c: u8, d: u8) -> IpAddress {
    IpAddress::V4(u32::from_be_bytes([a, b, c, d]))
}

fn net4(a: u8, b: u8, c: u8, d: u8, prefix_len: u8) -> IpRange {
    IpRange { addr: v4(a, b, c, d), prefix_len }
}

fn handler(user: &str, event: ImseEvent) -> Handler {
    Handler {
        user: String::from(user),
        event,
        delay: None,
        limit_period: None,
        limit_burst: None,
        periodic: None,
        command: SplitCommand::parse("handle --now").expect("a command"),
    }
}

fn message(user: &str, event: ImseEvent) -> ImseMessage {
    ImseMessage {
        remote_addr: None,
        event,
        user: String::from(user),
        unseen: 0,
        folder: String::from("INBOX"),
        from: None,
        snippet: None,
    }
}

fn pairs(env: &[EnvVar]) -> Vec<(&str, &str)> {
    env.iter().map(|v| (v.name.as_str(), v.value.as_str())).collect()
}

#[test]
fn event_kind_is_read_without_regard_to_case() {
    assert_eq!(ImseEvent::parse("MessageNew"), Some(ImseEvent::MessageNew));
    assert_eq!(ImseEvent::parse("messagenew"), Some(ImseEvent::MessageNew));
    assert_eq!(ImseEvent::parse("MAILBOXUNSUBSCRIBE"), Some(ImseEvent::MailboxUnsubscribe));
    assert_eq!(ImseEvent::parse("flagsCLEAR"), Some(ImseEvent::FlagsClear));
    assert_eq!(ImseEvent::parse("MessageNe"), None);
    assert_eq!(ImseEvent::parse("MessageNew "), None);
    assert_eq!(ImseEvent::parse(""), None);
    assert_eq!(ImseEvent::parse("Messag\u{212a}New"), None);
}

#[test]
fn event_kind_names_round_trip() {
    let names = [
        "FlagsClear",
        "FlagsSet",
        "MailboxCreate",
        "MailboxDelete",
        "MailboxRename",
        "MailboxSubscribe",
        "MailboxUnsubscribe",
        "MessageAppend",
        "MessageExpunge",
        "MessageNew",
        "MessageRead",
        "MessageTrash",
    ];
    for (i, name) in names.iter().enumerate() {
        let kind = ImseEvent::nth(i).expect("one of the twelve kinds");
        assert_eq!(kind.as_str(), *name);
        assert_eq!(ImseEvent::parse(name), Some(kind));
        assert_eq!(ImseEvent::parse(&name.to_uppercase()), Some(kind));
        assert_eq!(ImseEvent::parse(&name.to_lowercase()), Some(kind));
    }
    assert_eq!(ImseEvent::nth(12), None);
}

#[test]
fn text_comparison_folds_only_ascii_letters() {
    assert!(eq_ignoring_case("Hello", "hELLO"));
    assert!(eq_ignoring_case("", ""));
    assert!(!eq_ignoring_case("Hello", "Hello!"));
    assert!(!eq_ignoring_case("straSSe", "stra\u{df}e"));
    assert!(!eq_ignoring_case("\u{c4}", "\u{e4}"));
    assert!(eq_ignoring_case("\u{e4}b", "\u{e4}B"));
    assert!(!eq_ignoring_case("@", "`"));
    assert!(!eq_ignoring_case("[", "{"));
    assert_eq!(to_lower('A'), 'a');
    assert_eq!(to_lower('Z'), 'z');
    assert_eq!(to_lower('a'), 'a');
    assert_eq!(to_lower('@'), '@');
    assert_eq!(to_lower('['), '[');
}

#[test]
fn text_comparison_is_exact_where_asked() {
    assert!(same_text("", ""));
    assert!(same_text("min", "min"));
    assert!(!same_text("min", "Min"));
    assert!(!same_text("min", "mins"));
    assert!(!same_text("\u{b5}s", "us"));
}

#[test]
fn decimal_text_has_no_leading_zeros() {
    assert_eq!(decimal_text(0), "0");
    assert_eq!(decimal_text(7), "7");
    assert_eq!(decimal_text(10), "10");
    assert_eq!(decimal_text(40123), "40123");
    assert_eq!(decimal_text(4_294_967_295), "4294967295");
    assert_eq!(decimal_text(u64::MAX), "18446744073709551615");
}

#[test]
fn environment_of_an_event_spawn_has_all_variables() {
    let h = handler("alice", ImseEvent::MessageNew);
    let m = ImseMessage {
        remote_addr: Some(RemoteAddr { ip: String::from("2001:db8::1"), port: 65535 }),
        event: ImseEvent::MessageNew,
        user: String::from("alice"),
        unseen: 4_294_967_295,
        folder: String::from("Lists/rust"),
        from: Some(String::from("bob@example.org")),
        snippet: Some(String::from("Hi there")),
    };
    assert_eq!(
        pairs(&h.environment(&Some(m))),
        vec![
            ("IMSE_USER", "alice"),
            ("IMSE_EVENT", "MessageNew"),
            ("IMSE_REMOTE_IP", "2001:db8::1"),
            ("IMSE_REMOTE_PORT", "65535"),
            ("IMSE_UNSEEN", "4294967295"),
            ("IMSE_FOLDER", "Lists/rust"),
            ("IMSE_FROM", "bob@example.org"),
            ("IMSE_SNIPPET", "Hi there"),
        ]
    );
}

#[test]
fn environment_without_remote_or_optional_fields() {
    let h = handler("carol", ImseEvent::FlagsSet);
    assert_eq!(
        pairs(&h.environment(&Some(message("carol", ImseEvent::FlagsSet)))),
        vec![
            ("IMSE_USER", "carol"),
            ("IMSE_EVENT", "FlagsSet"),
            ("IMSE_UNSEEN", "0"),
            ("IMSE_FOLDER", "INBOX"),
            ("IMSE_FROM", ""),
            ("IMSE_SNIPPET", ""),
        ]
    );
}

#[test]
fn environment_of_a_periodic_spawn_names_the_handler_only() {
    let h = handler("carol", ImseEvent::MailboxRename);
    assert_eq!(
        pairs(&h.environment(&None)),
        vec![("IMSE_USER", "carol"), ("IMSE_EVENT", "MailboxRename")]
    );
}

#[test]
fn invocation_joins_command_and_environment() {
    let h = handler("carol", ImseEvent::MessageRead);
    let inv = h.invocation(&None);
    assert_eq!(inv.program, "handle");
    assert_eq!(inv.args, vec![String::from("--now")]);
    assert_eq!(pairs(&inv.env), vec![("IMSE_USER", "carol"), ("IMSE_EVENT", "MessageRead")]);
}

#[test]
fn registry_keeps_order_and_shared_keys() {
    let handlers = vec![
        handler("alice", ImseEvent::MessageNew),
        handler("bob", ImseEvent::MessageNew),
        handler("alice", ImseEvent::MessageNew),
        handler("alice", ImseEvent::FlagsSet),
    ];
    let routes = registry(&handlers);
    let keys: Vec<(ImseEvent, &str)> = routes.iter().map(|r| (r.event, r.user.as_str())).collect();
    assert_eq!(
        keys,
        vec![
            (ImseEvent::MessageNew, "alice"),
            (ImseEvent::MessageNew, "bob"),
            (ImseEvent::MessageNew, "alice"),
            (ImseEvent::FlagsSet, "alice"),
        ]
    );
    assert_eq!(targets(&routes, &message("alice", ImseEvent::MessageNew)), vec![0, 2]);
    assert_eq!(targets(&routes, &message("bob", ImseEvent::MessageNew)), vec![1]);
    assert_eq!(targets(&routes, &message("alice", ImseEvent::FlagsSet)), vec![3]);
    assert_eq!(targets(&routes, &message("bob", ImseEvent::FlagsSet)), Vec::<usize>::new());
    assert_eq!(targets(&routes, &message("Alice", ImseEvent::MessageNew)), Vec::<usize>::new());
    assert_eq!(targets(&Vec::new(), &message("alice", ImseEvent::MessageNew)), Vec::<usize>::new());
}

#[test]
fn route_takes_its_own_key_only() {
    let r = Route { event: ImseEvent::MessageTrash, user: String::from("dave") };
    assert!(r.accepts(&message("dave", ImseEvent::MessageTrash)));
    assert!(!r.accepts(&message("dave", ImseEvent::MessageRead)));
    assert!(!r.accepts(&message("dav", ImseEvent::MessageTrash)));
}

#[test]
fn failures_map_to_their_status() {
    assert_eq!(Failure::TimedOut.status(), 408);
    assert_eq!(Failure::Overloaded.status(), 503);
    assert_eq!(Failure::Other(String::from("x")).status(), 500);
    assert_eq!(Failure::TimedOut.reason(), "request timed out");
    assert_eq!(Failure::Overloaded.reason(), "service is overloaded, try again later");
    assert_eq!(
        Failure::Other(String::from("disk on fire")).reason(),
        "Unhandled internal error: disk on fire"
    );
    assert_eq!(imserious::frontend::STATUS_OK, 200);
    assert_eq!(imserious::frontend::STATUS_FORBIDDEN, 403);
    assert_eq!(imserious::frontend::BODY_LIMIT, 1024);
}

#[test]
fn empty_allow_list_admits_everyone() {
    assert!(admits(&Vec::new(), v4(203, 0, 113, 9)));
    assert!(admits(&Vec::new(), IpAddress::V6(1)));
}

#[test]
fn allow_list_admits_addresses_in_a_range() {
    let ranges = vec![net4(192, 168, 0, 0, 16), net4(10, 1, 2, 3, 32)];
    assert!(admits(&ranges, v4(192, 168, 0, 0)));
    assert!(admits(&ranges, v4(192, 168, 255, 255)));
    assert!(!admits(&ranges, v4(192, 169, 0, 0)));
    assert!(!admits(&ranges, v4(192, 167, 255, 255)));
    assert!(admits(&ranges, v4(10, 1, 2, 3)));
    assert!(!admits(&ranges, v4(10, 1, 2, 2)));
    assert!(!admits(&ranges, IpAddress::V6(u128::from(u32::from_be_bytes([192, 168, 0, 1])))));
}

#[test]
fn range_bounds_follow_the_prefix() {
    let r = net4(172, 16, 5, 77, 12);
    assert!(r.includes(v4(172, 16, 0, 0)));
    assert!(r.includes(v4(172, 31, 255, 255)));
    assert!(!r.includes(v4(172, 32, 0, 0)));
    assert!(!r.includes(v4(172, 15, 255, 255)));
    let all = net4(1, 2, 3, 4, 0);
    assert!(all.includes(v4(0, 0, 0, 0)));
    assert!(all.includes(v4(255, 255, 255, 255)));
    let odd = net4(10, 0, 0, 128, 25);
    assert!(odd.includes(v4(10, 0, 0, 255)));
    assert!(!odd.includes(v4(10, 0, 0, 127)));
}

#[test]
fn six_ranges_follow_the_prefix() {
    let base: u128 = 0x2001_0db8_0000_0000_0000_0000_0000_0000;
    let r = IpRange { addr: IpAddress::V6(base), prefix_len: 32 };
    assert!(r.includes(IpAddress::V6(base | 0xffff)));
    assert!(r.includes(IpAddress::V6(base | (0xffff_ffff_ffff_ffff_ffff_ffff >> 0))));
    assert!(!r.includes(IpAddress::V6(base + (1u128 << 96))));
    assert!(!r.includes(IpAddress::V4(0x2001_0db8)));
    let one = IpRange { addr: IpAddress::V6(1), prefix_len: 128 };
    assert!(one.includes(IpAddress::V6(1)));
    assert!(!one.includes(IpAddress::V6(0)));
    let all = IpRange { addr: IpAddress::V6(1), prefix_len: 0 };
    assert!(all.includes(IpAddress::V6(u128::MAX)));
}
