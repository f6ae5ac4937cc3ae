//! Alerts of the daemon, normalized for the alert log.

use vstd::prelude::*;
use crate::time::Timestamp;

verus! {

/// Urgency of an alert.
#[derive(Clone, Copy, Debug, PartialEq, Eq, Structural)]
pub enum Priority {
    Low,
    Medium,
    High,
}

impl Priority {
    /// The priority that a wire code stands for.
    pub open spec fn decode(v: int) -> Priority {
        if v == 0 {
            Priority::Low
        } else if v == 1 {
            Priority::Medium
        } else {
            Priority::High
        }
    }

    /// Decodes a wire code; a code outside the known range is `High`.
    pub fn new(v: i32) -> (p: Priority)
        ensures
            p == Priority::decode(v as int),
    {
        match v {
            0 => Priority::Low,
            1 => Priority::Medium,
            _ => Priority::High,
        }
    }
}

/// Kind of an alert.
#[derive(Clone, Copy, Debug, PartialEq, Eq, Structural)]
pub enum Type {
    Error,
    Warning,
    Info,
}

impl Type {
    /// The kind that a wire code stands for.
    pub open spec fn decode(v: int) -> Type {
        if v == 0 {
            Type::Error
        } else if v == 1 {
            Type::Warning
        } else {
            Type::Info
        }
    }

    /// Decodes a wire code; a code outside the known range is `Info`.
    pub fn new(v: i32) -> (t: Type)
        ensures
            t == Type::decode(v as int),
    {
        match v {
            0 => Type::Error,
            1 => Type::Warning,
            _ => Type::Info,
        }
    }
}

/// The part of the daemon that an alert is about.
#[derive(Clone, Copy, Debug, PartialEq, Eq, Structural)]
pub enum What {
    Generic,
    ProcMonitor,
    Firewall,
    Connection,
    Rule,
    Netlink,
    KernelEvent,
}

impl What {
    /// The source that a wire code stands for.
    pub open spec fn decode(v: int) -> What {
        if v == 1 {
            What::ProcMonitor
        } else if v == 2 {
            What::Firewall
        } else if v == 3 {
            What::Connection
        } else if v == 4 {
            What::Rule
        } else if v == 5 {
            What::Netlink
        } else if v == 6 {
            What::KernelEvent
        } else {
            What::Generic
        }
    }

    /// Decodes a wire code; zero and every code outside the known range
    /// are `Generic`.
    pub fn new(v: i32) -> (w: What)
        ensures
            w == What::decode(v as int),
    {
        match v {
            1 => What::ProcMonitor,
            2 => What::Firewall,
            3 => What::Connection,
            4 => What::Rule,
            5 => What::Netlink,
            6 => What::KernelEvent,
            _ => What::Generic,
        }
    }
}

/// Payload of an alert message.
#[derive(Clone, Debug, PartialEq, Eq)]
pub enum AlertData {
    /// A text.
    Text(String),
    /// Any payload that is no text.
    Other,
}

/// Mathematical value of [`AlertData`].
pub ghost enum AlertDataView {
    Text(Seq<char>),
    Other,
}

impl View for AlertData {
    type V = AlertDataView;

    open spec fn view(&self) -> AlertDataView {
        match self {
            AlertData::Text(t) => AlertDataView::Text(t@),
            AlertData::Other => AlertDataView::Other,
        }
    }
}

/// An alert as the daemon sends it: numeric codes and an optional payload.
#[derive(Clone, Debug, PartialEq, Eq)]
pub struct AlertMessage {
    pub priority: i32,
    pub kind: i32,
    pub what: i32,
    pub data: Option<AlertData>,
}

/// Mathematical value of [`AlertMessage`].
pub ghost struct AlertMessageView {
    pub priority: int,
    pub kind: int,
    pub what: int,
    pub data: Option<AlertDataView>,
}

impl View for AlertMessage {
    type V = AlertMessageView;

    open spec fn view(&self) -> AlertMessageView {
        AlertMessageView {
            priority: self.priority as int,
            kind: self.kind as int,
            what: self.what as int,
            data: match self.data {
                Some(d) => Some(d@),
                None => None,
            },
        }
    }
}

/// An entry of the alert log.
#[derive(Clone, Debug, PartialEq, Eq)]
pub struct Alert {
    /// When this process received the alert.
    pub timestamp: Timestamp,
    pub priority: Priority,
    pub kind: Type,
    pub what: What,
    pub msg: String,
}

/// Mathematical value of an [`Alert`].
pub ghost struct AlertView {
    pub timestamp: Timestamp,
    pub priority: Priority,
    pub kind: Type,
    pub what: What,
    pub msg: Seq<char>,
}

impl View for Alert {
    type V = AlertView;

    open spec fn view(&self) -> AlertView {
        AlertView {
            timestamp: self.timestamp,
            priority: self.priority,
            kind: self.kind,
            what: self.what,
            msg: self.msg@,
        }
    }
}

impl AlertView {
    /// The text that the log shows for a payload.
    pub open spec fn message_of(data: Option<AlertDataView>) -> Seq<char> {
        match data {
            Some(AlertDataView::Text(t)) => t,
            Some(AlertDataView::Other) => "unsupported alert data"@,
            None => "no data"@,
        }
    }

    /// The log entry for a message received at `ts`. The time is that of
    /// the receiver, never one that the message carries.
    pub open spec fn normalized(ts: Timestamp, m: AlertMessageView) -> AlertView {
        AlertView {
            timestamp: ts,
            priority: Priority::decode(m.priority),
            kind: Type::decode(m.kind),
            what: What::decode(m.what),
            msg: AlertView::message_of(m.data),
        }
    }

    /// The entry for a plain warning raised by this process.
    pub open spec fn simple(ts: Timestamp, msg: Seq<char>) -> AlertView {
        AlertView {
            timestamp: ts,
            priority: Priority::Low,
            kind: Type::Warning,
            what: What::Generic,
            msg,
        }
    }
}

impl Alert {
    /// Normalizes a message of the daemon, received at `ts`.
    pub fn from_proto(ts: Timestamp, proto: &AlertMessage) -> (a: Alert)
        ensures
            a@ == AlertView::normalized(ts, proto@),
    {
        let msg = match &proto.data {
            Some(data) => match data {
                AlertData::Text(v) => v.clone(),
                AlertData::Other => "unsupported alert data".to_owned(),
            },
            None => "no data".to_owned(),
        };

        Alert {
            timestamp: ts,
            priority: Priority::new(proto.priority),
            kind: Type::new(proto.kind),
            what: What::new(proto.what),
            msg,
        }
    }

    /// Creates a simple alert.
    pub fn create_simple(ts: Timestamp, msg: &str) -> (a: Alert)
        ensures
            a@ == AlertView::simple(ts, msg@),
    {
        Alert {
            timestamp: ts,
            priority: Priority::Low,
            kind: Type::Warning,
            what: What::Generic,
            msg: msg.to_owned(),
        }
    }
}

/// Codes that this version does not know still give an entry: a priority
/// code other than 0 and 1 is read as `High`, a kind code other than 0 and
/// 1 as `Info`, and a source code outside 1 to 6 as `Generic`.
pub proof fn lemma_unknown_codes_fall_back(ts: Timestamp, m: AlertMessageView)
    ensures
        !(0 <= m.priority <= 1) ==> AlertView::normalized(ts, m).priority == Priority::High,
        !(0 <= m.kind <= 1) ==> AlertView::normalized(ts, m).kind == Type::Info,
        !(1 <= m.what <= 6) ==> AlertView::normalized(ts, m).what == What::Generic,
{
}

} // verus!
