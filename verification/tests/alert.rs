use opensnitch_tui::alert::{Alert, AlertData, AlertMessage, Priority, Type, What};
use opensnitch_tui::time::Timestamp;

#[test]
fn test_priority_codes() {
    assert_eq!(Priority::new(0), Priority::Low);
    assert_eq!(Priority::new(1), Priority::Medium);
    assert_eq!(Priority::new(2), Priority::High);
    assert_eq!(Priority::new(3), Priority::High);
    assert_eq!(Priority::new(-1), Priority::High);
    assert_eq!(Priority::new(i32::MAX), Priority::High);
    assert_eq!(Priority::new(i32::MIN), Priority::High);
}

#[test]
fn test_type_codes() {
    assert_eq!(Type::new(0), Type::Error);
    assert_eq!(Type::new(1), Type::Warning);
    assert_eq!(Type::new(2), Type::Info);
    assert_eq!(Type::new(99), Type::Info);
    assert_eq!(Type::new(-5), Type::Info);
}

#[test]
fn test_what_codes() {
    assert_eq!(What::new(0), What::Generic);
    assert_eq!(What::new(1), What::ProcMonitor);
    assert_eq!(What::new(2), What::Firewall);
    assert_eq!(What::new(3), What::Connection);
    assert_eq!(What::new(4), What::Rule);
    assert_eq!(What::new(5), What::Netlink);
    assert_eq!(What::new(6), What::KernelEvent);
    assert_eq!(What::new(7), What::Generic);
    assert_eq!(What::new(-1), What::Generic);
    assert_eq!(What::new(i32::MAX), What::Generic);
}

#[test]
fn test_from_proto_text() {
    let ts = Timestamp { nanos: 1_700_000_000_000_000_000 };
    let proto = AlertMessage {
        priority: 1,
        kind: 0,
        what: 2,
        data: Some(AlertData::Text("rule reloaded".to_string())),
    };
    assert_eq!(
        Alert::from_proto(ts, &proto),
        Alert {
            timestamp: ts,
            priority: Priority::Medium,
            kind: Type::Error,
            what: What::Firewall,
            msg: "rule reloaded".to_string(),
        }
    );
}

#[test]
fn test_from_proto_other_payloads() {
    let ts = Timestamp { nanos: 5 };
    let proto = AlertMessage { priority: 0, kind: 1, what: 6, data: Some(AlertData::Other) };
    let alert = Alert::from_proto(ts, &proto);
    assert_eq!(alert.msg, "unsupported alert data");
    assert_eq!(alert.what, What::KernelEvent);

    let proto = AlertMessage { priority: 0, kind: 1, what: 6, data: None };
    assert_eq!(Alert::from_proto(ts, &proto).msg, "no data");
}

#[test]
fn test_from_proto_out_of_range_codes_fall_back() {
    let ts = Timestamp { nanos: 0 };
    let proto = AlertMessage { priority: 17, kind: -3, what: 1000, data: None };
    let alert = Alert::from_proto(ts, &proto);
    assert_eq!(alert.priority, Priority::High);
    assert_eq!(alert.kind, Type::Info);
    assert_eq!(alert.what, What::Generic);
    assert_eq!(alert.timestamp, ts);
}

#[test]
fn test_create_simple() {
    let ts = Timestamp { nanos: 99 };
    assert_eq!(
        Alert::create_simple(ts, "daemon gone"),
        Alert {
            timestamp: ts,
            priority: Priority::Low,
            kind: Type::Warning,
            what: What::Generic,
            msg: "daemon gone".to_string(),
        }
    );
}
