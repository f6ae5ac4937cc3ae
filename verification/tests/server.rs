use opensnitch_tui::server::{relay_ping, MyUI, PingReply, PingRequest, Statistics};
use std::sync::mpsc;

fn stats(uptime: u64) -> Statistics {
    Statistics {
        daemon_version: "1.6.0".to_string(),
        uptime,
        rules: 2,
        dns_responses: 3,
        connections: 4,
        ignored: 5,
        accepted: 6,
        dropped: 7,
        rule_hits: 8,
        rule_misses: 9,
    }
}

#[test]
fn test_relay_ping_echoes_the_identifier() {
    let out = relay_ping(PingRequest { id: 77, stats: Some(stats(1)) });
    assert_eq!(out.reply, PingReply { id: 77 });
    assert_eq!(out.forward, Some(stats(1)));
}

#[test]
fn test_relay_ping_without_statistics() {
    let out = relay_ping(PingRequest { id: u64::MAX, stats: None });
    assert_eq!(out.reply, PingReply { id: u64::MAX });
    assert_eq!(out.forward, None);
}

#[test]
fn test_ping_hands_statistics_over_in_order() {
    let (tx, rx) = mpsc::sync_channel(4);
    let ui = MyUI { tx };
    assert_eq!(ui.ping(PingRequest { id: 1, stats: Some(stats(10)) }), (PingReply { id: 1 }, true));
    assert_eq!(ui.ping(PingRequest { id: 2, stats: None }), (PingReply { id: 2 }, false));
    assert_eq!(ui.ping(PingRequest { id: 3, stats: Some(stats(30)) }), (PingReply { id: 3 }, true));
    assert_eq!(rx.try_recv(), Ok(stats(10)));
    assert_eq!(rx.try_recv(), Ok(stats(30)));
    assert!(rx.try_recv().is_err());
}

#[test]
fn test_ping_answers_when_the_engine_is_gone() {
    let (tx, rx) = mpsc::sync_channel(4);
    drop(rx);
    let ui = MyUI { tx };
    assert_eq!(ui.ping(PingRequest { id: 9, stats: Some(stats(1)) }), (PingReply { id: 9 }, false));
}

#[test]
fn test_ping_drops_statistics_when_the_channel_is_full() {
    let (tx, rx) = mpsc::sync_channel(1);
    let ui = MyUI { tx };
    assert_eq!(ui.ping(PingRequest { id: 1, stats: Some(stats(10)) }), (PingReply { id: 1 }, true));
    // The engine has not taken the first snapshot: the second is dropped,
    // and the call is answered all the same.
    assert_eq!(ui.ping(PingRequest { id: 2, stats: Some(stats(20)) }), (PingReply { id: 2 }, false));
    assert_eq!(rx.try_recv(), Ok(stats(10)));
    assert!(rx.try_recv().is_err());
    assert_eq!(ui.ping(PingRequest { id: 3, stats: Some(stats(30)) }), (PingReply { id: 3 }, true));
    assert_eq!(rx.try_recv(), Ok(stats(30)));
}
