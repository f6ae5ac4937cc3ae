use opensnitch_tui::alert::{Alert, Priority, Type, What};
use opensnitch_tui::engine::TuiState;
use opensnitch_tui::operator_util::GeneratedOperatorsInputs;
use opensnitch_tui::presets::PresetCombination;
use opensnitch_tui::review::{Action, Connection, ReviewItem, ReviewRequest};
use opensnitch_tui::server::Statistics;
use opensnitch_tui::time::{Timestamp, NANOS_PER_SEC};
use opensnitch_tui::ui::{alert_line, countdown_label, format_ip_address_string};

fn request(src_ip: &str, dst_ip: &str, dst_host: &str) -> ReviewRequest {
    ReviewRequest {
        id: 7,
        connection: Connection {
            protocol: "tcp".to_string(),
            src_ip: src_ip.to_string(),
            src_port: 40000,
            dst_ip: dst_ip.to_string(),
            dst_host: dst_host.to_string(),
            dst_port: 443,
            user_id: 1000,
            process_id: 4242,
            process_path: "/usr/bin/curl".to_string(),
        },
        inputs: GeneratedOperatorsInputs::default(),
        window_secs: 15,
        default_action: Action::Deny,
    }
}

#[test]
fn test_format_ip_address_string() {
    assert_eq!(format_ip_address_string(&"1.2.3.4".to_string()), "1.2.3.4");
    assert_eq!(format_ip_address_string(&"::1".to_string()), "[::1]");
    assert_eq!(format_ip_address_string(&"fe80::1ff:fe23:4567:890a".to_string()), "[fe80::1ff:fe23:4567:890a]");
    assert_eq!(format_ip_address_string(&String::new()), "");
}

#[test]
fn test_format_stats_panel() {
    let mut state = TuiState::new(PresetCombination::default(), 0);
    assert_eq!(state.format_stats_panel(), "");
    state.update_stats(Statistics {
        daemon_version: "1.6.0".to_string(),
        uptime: 42,
        rules: 3,
        dns_responses: 4,
        connections: 5,
        ignored: 6,
        accepted: 7,
        dropped: 8,
        rule_hits: 9,
        rule_misses: 10,
    });
    assert_eq!(
        state.format_stats_panel(),
        "daemon version: 1.6.0 | uptime: 42\n\
         rules: 3 | dns responses: 4 | connections: 5\n\
         ignored: 6 | accepted: 7 | dropped: 8\n\
         rule hits: 9 | rule misses: 10"
    );
}

#[test]
fn test_format_connection_panel() {
    let mut state = TuiState::new(PresetCombination::default(), 0);
    assert_eq!(state.format_connection_panel(), "");
    state.request_review(Timestamp { nanos: 0 }, request("10.0.0.2", "2606:4700::1111", ""));
    assert_eq!(
        state.format_connection_panel(),
        "src       10.0.0.2:40000\n\
         dst       [2606:4700::1111]:443\n\
         proto     tcp\n\
         dst host  -\n\
         uid       1000\n\
         pid       4242\n\
         ppath     /usr/bin/curl"
    );
}

#[test]
fn test_format_connection_panel_with_host() {
    let mut state = TuiState::new(PresetCombination::default(), 0);
    state.request_review(Timestamp { nanos: 0 }, request("::1", "1.1.1.1", "one.one.one.one"));
    assert_eq!(
        state.format_connection_panel(),
        "src       [::1]:40000\n\
         dst       1.1.1.1:443\n\
         proto     tcp\n\
         dst host  one.one.one.one\n\
         uid       1000\n\
         pid       4242\n\
         ppath     /usr/bin/curl"
    );
}

#[test]
fn test_alert_line() {
    let alert = Alert {
        timestamp: Timestamp { nanos: 10 * NANOS_PER_SEC },
        priority: Priority::High,
        kind: Type::Warning,
        what: What::ProcMonitor,
        msg: "ebpf failed".to_string(),
    };
    assert_eq!(
        alert_line(Timestamp { nanos: 75 * NANOS_PER_SEC + 999 }, &alert),
        "65s ago : Warning : High : ProcMonitor : ebpf failed\n"
    );
    // The clock went backwards: the age is shown as zero.
    assert_eq!(
        alert_line(Timestamp { nanos: 0 }, &alert),
        "0s ago : Warning : High : ProcMonitor : ebpf failed\n"
    );
}

#[test]
fn test_alert_labels_are_the_variant_names() {
    for p in [Priority::Low, Priority::Medium, Priority::High] {
        assert_eq!(p.label(), format!("{p:?}"));
    }
    for t in [Type::Error, Type::Warning, Type::Info] {
        assert_eq!(t.label(), format!("{t:?}"));
    }
    for w in [
        What::Generic,
        What::ProcMonitor,
        What::Firewall,
        What::Connection,
        What::Rule,
        What::Netlink,
        What::KernelEvent,
    ] {
        assert_eq!(w.label(), format!("{w:?}"));
    }
}

#[test]
fn test_countdown_label() {
    let item = ReviewItem::start(request("::1", "1.1.1.1", ""), Timestamp { nanos: 0 });
    assert_eq!(
        countdown_label(Timestamp { nanos: 0 }, &item),
        Some(" 15s to disposition, else deny ".to_string())
    );
    assert_eq!(
        countdown_label(Timestamp { nanos: 1 }, &item),
        Some(" 14s to disposition, else deny ".to_string())
    );
    assert_eq!(
        countdown_label(Timestamp { nanos: 15 * NANOS_PER_SEC }, &item),
        Some(" 0s to disposition, else deny ".to_string())
    );
    assert_eq!(countdown_label(Timestamp { nanos: 15 * NANOS_PER_SEC + 1 }, &item), None);
}
