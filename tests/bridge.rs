use ton_bridge::json::{decimal, integer, json_quote, string_member};
use ton_bridge::receiver::{classify, decode_response, AwaitPoll, RawReceiver};
use ton_bridge::request::{extra, AccountState, Request, SyncClient};
use ton_bridge::table::Outcome;

fn parse(text: &str) -> serde_json::Value {
    serde_json::from_str(text).expect("valid JSON")
}

#[test]
fn reply_resolves_and_awaiter_returns_success() {
    let mut rx = RawReceiver::new(1000);
    rx.add_task("A");
    let msg = AccountState { address: "addr".to_string() }.serialize("A");
    assert_eq!(parse(&msg)["@extra"], "A");
    let awaiter = rx.receive("A", 0);
    assert_eq!(awaiter.deadline, 1000);
    assert!(matches!(awaiter.poll(&mut rx, 1), AwaitPoll::Pending));
    rx.deliver(r#"{"@extra": "A", "@type": "ok", "value": 42}"#);
    match awaiter.poll(&mut rx, 2) {
        AwaitPoll::Ready(Outcome::Success(text)) => assert_eq!(parse(&text)["value"], 42),
        _ => panic!("expected a success"),
    }
    assert!(!rx.contains("A"));
}

#[test]
fn unanswered_request_times_out_and_leaves_table() {
    let mut rx = RawReceiver::new(50);
    rx.add_task("B");
    let awaiter = rx.receive("B", 0);
    assert_eq!(awaiter.deadline, 50);
    assert!(matches!(awaiter.poll(&mut rx, 10), AwaitPoll::Pending));
    assert!(matches!(awaiter.poll(&mut rx, 49), AwaitPoll::Pending));
    assert!(rx.contains("B"));
    assert!(matches!(awaiter.poll(&mut rx, 50), AwaitPoll::TimedOut));
    assert!(!rx.contains("B"));
}

#[test]
fn error_reply_becomes_failure_with_message() {
    let mut rx = RawReceiver::new(1000);
    rx.add_task("C");
    rx.deliver(r#"{"@extra":"C","@type":"error","message":"not found"}"#);
    match rx.take("C") {
        Some(Outcome::Failure(m)) => assert_eq!(m, "not found"),
        _ => panic!("expected a failure"),
    }
}

#[test]
fn error_reply_without_message_has_empty_text() {
    let mut rx = RawReceiver::new(1000);
    rx.add_task("C2");
    rx.deliver(r#"{"@extra":"C2","@type":"error"}"#);
    match rx.take("C2") {
        Some(Outcome::Failure(m)) => assert_eq!(m, ""),
        _ => panic!("expected a failure"),
    }
}

#[test]
fn take_hands_out_an_entry_once() {
    let mut rx = RawReceiver::new(10);
    rx.add_task("x");
    rx.resolve("x", Outcome::Success("{}".to_string()));
    assert!(rx.take("x").is_some());
    assert!(rx.take("x").is_none());
}

#[test]
fn take_of_pending_entry_leaves_it() {
    let mut rx = RawReceiver::new(10);
    rx.add_task("p");
    assert!(rx.take("p").is_none());
    assert!(rx.contains("p"));
}

#[test]
fn late_reply_after_take_does_not_revive() {
    let mut rx = RawReceiver::new(10);
    rx.add_task("late");
    rx.resolve("late", Outcome::Success("{}".to_string()));
    assert!(rx.take("late").is_some());
    rx.deliver(r#"{"@extra":"late","@type":"ok"}"#);
    assert!(!rx.contains("late"));
    assert!(rx.take("late").is_none());
}

#[test]
fn late_reply_after_expiry_does_not_revive() {
    let mut rx = RawReceiver::new(10);
    rx.add_task("gone");
    let awaiter = rx.receive("gone", 5);
    assert!(matches!(awaiter.poll(&mut rx, 15), AwaitPoll::TimedOut));
    rx.resolve("gone", Outcome::Failure("x".to_string()));
    assert!(!rx.contains("gone"));
}

#[test]
fn reply_without_string_id_is_dropped() {
    let mut rx = RawReceiver::new(10);
    rx.add_task("7");
    rx.deliver(r#"{"@extra":7,"@type":"ok"}"#);
    rx.deliver(r#"{"@type":"ok"}"#);
    rx.deliver("not json at all");
    assert!(rx.take("7").is_none());
    assert!(rx.contains("7"));
}

#[test]
fn reply_for_unknown_id_is_dropped() {
    let mut rx = RawReceiver::new(10);
    rx.add_task("known");
    rx.deliver(r#"{"@extra":"other","@type":"ok"}"#);
    assert!(!rx.contains("other"));
    assert!(rx.take("known").is_none());
}

#[test]
fn deadline_saturates() {
    let rx = RawReceiver::new(10);
    assert_eq!(rx.receive("s", u64::MAX - 3).deadline, u64::MAX);
}

#[test]
fn dispatch_registers_the_id_it_embeds() {
    let mut rx = RawReceiver::new(10);
    let (id, msg) = rx.dispatch(&SyncClient {}, 1234).expect("fresh id");
    assert!(id.starts_with("1234:"));
    assert!(id["1234:".len()..].parse::<u64>().is_ok());
    assert!(rx.contains(&id));
    let v = parse(&msg);
    assert_eq!(v["@extra"], id.as_str());
    assert_eq!(v["@type"], "sync");
}

#[test]
fn two_dispatches_get_distinct_ids() {
    let mut rx = RawReceiver::new(10);
    let (a, _) = rx.dispatch(&SyncClient {}, 1).expect("fresh id");
    let (b, _) = rx.dispatch(&SyncClient {}, 1).expect("fresh id");
    assert_ne!(a, b);
    assert!(rx.contains(&a) && rx.contains(&b));
}

#[test]
fn extra_is_time_colon_nonce() {
    let id = extra(1700000000000000);
    let (t, n) = id.split_once(':').expect("colon");
    assert_eq!(t, "1700000000000000");
    assert!(n.parse::<u64>().is_ok());
}

#[test]
fn classify_cases() {
    assert!(classify(None, Some("ok".to_string()), None, "t".to_string()).is_none());
    match classify(Some("i".to_string()), Some("error".to_string()), Some("bad".to_string()), "t".to_string()) {
        Some((id, Outcome::Failure(m))) => {
            assert_eq!(id, "i");
            assert_eq!(m, "bad");
        }
        _ => panic!("expected a failure"),
    }
    match classify(Some("i".to_string()), None, Some("bad".to_string()), "t".to_string()) {
        Some((_, Outcome::Success(p))) => assert_eq!(p, "t"),
        _ => panic!("expected a success"),
    }
}

#[test]
fn decode_response_reads_members() {
    match decode_response(r#"{"@extra":"q","@type":"error","message":"m"}"#) {
        Some((id, Outcome::Failure(m))) => {
            assert_eq!(id, "q");
            assert_eq!(m, "m");
        }
        _ => panic!("expected a failure"),
    }
}

#[test]
fn string_member_reads_strings_only() {
    assert_eq!(string_member(r#"{"a":"b"}"#, "a"), Some("b".to_string()));
    assert_eq!(string_member(r#"{"a":1}"#, "a"), None);
    assert_eq!(string_member(r#"{"a":"b"}"#, "c"), None);
    assert_eq!(string_member("[", "a"), None);
}

#[test]
fn json_quote_escapes() {
    assert_eq!(json_quote("ab"), "\"ab\"");
    assert_eq!(json_quote("a\"b\\"), "\"a\\\"b\\\\\"");
    assert_eq!(json_quote(""), "\"\"");
}

#[test]
fn decimal_and_integer_text() {
    assert_eq!(decimal(0), "0");
    assert_eq!(decimal(7), "7");
    assert_eq!(decimal(1234567890), "1234567890");
    assert_eq!(decimal(u128::MAX), u128::MAX.to_string());
    assert_eq!(integer(0), "0");
    assert_eq!(integer(-1), "-1");
    assert_eq!(integer(i32::MIN), "-2147483648");
    assert_eq!(integer(i32::MAX), "2147483647");
}
