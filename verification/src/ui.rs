//! The texts of the panels. Laying them out on a terminal is left to the
//! program that shows them.

use vstd::prelude::*;
use crate::alert::{Alert, AlertView, Priority, Type, What};
use crate::engine::TuiState;
use crate::review::{ConnectionView, ReviewItem, ReviewItemView};
use crate::server::StatisticsView;
use crate::text::{decimal, has_char, push_decimal};
use crate::time::Timestamp;

verus! {

impl Priority {
    /// Name of the priority in the alert log.
    pub open spec fn label_text(self) -> Seq<char> {
        match self {
            Priority::Low => "Low"@,
            Priority::Medium => "Medium"@,
            Priority::High => "High"@,
        }
    }

    /// Name of the priority in the alert log.
    pub fn label(&self) -> (s: &'static str)
        ensures
            s@ == self.label_text(),
    {
        match self {
            Priority::Low => "Low",
            Priority::Medium => "Medium",
            Priority::High => "High",
        }
    }
}

impl Type {
    /// Name of the kind in the alert log.
    pub open spec fn label_text(self) -> Seq<char> {
        match self {
            Type::Error => "Error"@,
            Type::Warning => "Warning"@,
            Type::Info => "Info"@,
        }
    }

    /// Name of the kind in the alert log.
    pub fn label(&self) -> (s: &'static str)
        ensures
            s@ == self.label_text(),
    {
        match self {
            Type::Error => "Error",
            Type::Warning => "Warning",
            Type::Info => "Info",
        }
    }
}

impl What {
    /// Name of the source in the alert log.
    pub open spec fn label_text(self) -> Seq<char> {
        match self {
            What::Generic => "Generic"@,
            What::ProcMonitor => "ProcMonitor"@,
            What::Firewall => "Firewall"@,
            What::Connection => "Connection"@,
            What::Rule => "Rule"@,
            What::Netlink => "Netlink"@,
            What::KernelEvent => "KernelEvent"@,
        }
    }

    /// Name of the source in the alert log.
    pub fn label(&self) -> (s: &'static str)
        ensures
            s@ == self.label_text(),
    {
        match self {
            What::Generic => "Generic",
            What::ProcMonitor => "ProcMonitor",
            What::Firewall => "Firewall",
            What::Connection => "Connection",
            What::Rule => "Rule",
            What::Netlink => "Netlink",
            What::KernelEvent => "KernelEvent",
        }
    }
}

/// An address as it is shown in front of a port: one that holds a colon
/// stands in square brackets, any other stands as it is.
pub open spec fn bracketed(ip: Seq<char>) -> Seq<char> {
    if ip.contains(':') {
        seq!['['] + ip + seq![']']
    } else {
        ip
    }
}

/// The text of the statistics panel.
pub open spec fn stats_panel(s: StatisticsView) -> Seq<char> {
    "daemon version: "@ + s.daemon_version + " | uptime: "@ + decimal(s.uptime as nat)
        + "\nrules: "@ + decimal(s.rules as nat) + " | dns responses: "@ + decimal(
        s.dns_responses as nat,
    ) + " | connections: "@ + decimal(s.connections as nat) + "\nignored: "@ + decimal(
        s.ignored as nat,
    ) + " | accepted: "@ + decimal(s.accepted as nat) + " | dropped: "@ + decimal(
        s.dropped as nat,
    ) + "\nrule hits: "@ + decimal(s.rule_hits as nat) + " | rule misses: "@ + decimal(
        s.rule_misses as nat,
    )
}

/// The host as the connection panel shows it: a dash where it is unknown.
pub open spec fn shown_host(host: Seq<char>) -> Seq<char> {
    if host.len() == 0 {
        "-"@
    } else {
        host
    }
}

/// The text of the connection panel.
pub open spec fn connection_panel(c: ConnectionView) -> Seq<char> {
    "src       "@ + bracketed(c.src_ip) + ":"@ + decimal(c.src_port as nat) + "\ndst       "@
        + bracketed(c.dst_ip) + ":"@ + decimal(c.dst_port as nat) + "\nproto     "@ + c.protocol
        + "\ndst host  "@ + shown_host(c.dst_host) + "\nuid       "@ + decimal(c.user_id as nat)
        + "\npid       "@ + decimal(c.process_id as nat) + "\nppath     "@ + c.process_path
}

/// Whole seconds since the alert was received; zero if the clock went
/// backwards since.
pub open spec fn alert_age(now: Timestamp, alert: AlertView) -> nat {
    match now.whole_secs_since(alert.timestamp) {
        Some(secs) => secs,
        None => 0,
    }
}

/// The line of the alert log for `alert`, read at `now`.
pub open spec fn alert_line_text(now: Timestamp, alert: AlertView) -> Seq<char> {
    decimal(alert_age(now, alert)) + "s ago : "@ + alert.kind.label_text() + " : "@
        + alert.priority.label_text() + " : "@ + alert.what.label_text() + " : "@ + alert.msg
        + "\n"@
}

/// The countdown under the connection panel, read at `now`: the whole
/// seconds left until the deadline and the action that follows. There is
/// none once the deadline has passed.
pub open spec fn countdown_text(now: Timestamp, item: ReviewItemView) -> Option<Seq<char>> {
    match item.expiry.whole_secs_since(now) {
        Some(secs) => Some(
            " "@ + decimal(secs) + "s to disposition, else "@ + item.default_action.name() + " "@,
        ),
        None => None,
    }
}

/// The title of the statistics panel, with the daemon's address where it
/// is known.
pub open spec fn stats_title_text(peer: Option<Seq<char>>) -> Seq<char> {
    match peer {
        Some(addr) => " OpenSnitch ("@ + addr + ") "@,
        None => " OpenSnitch "@,
    }
}

/// The title of the alert panel: the number of alerts in the log.
pub open spec fn alerts_title_text(count: nat) -> Seq<char> {
    " Alerts ("@ + decimal(count) + ") "@
}

/// The lines of the alert log from the entry at `offset` on, read at
/// `now`; none if the log has no such entry.
pub open spec fn alert_lines_text(now: Timestamp, alerts: Seq<AlertView>, offset: nat) -> Seq<
    Seq<char>,
> {
    Seq::new(
        if offset <= alerts.len() {
            (alerts.len() - offset) as nat
        } else {
            0
        },
        |i: int| alert_line_text(now, alerts[offset + i]),
    )
}

/// The characters of each of the strings, in order.
pub open spec fn texts(lines: Seq<String>) -> Seq<Seq<char>> {
    Seq::new(lines.len(), |i: int| lines[i]@)
}

/// The title of the statistics panel.
pub fn stats_title(peer: Option<&str>) -> (out: String)
    ensures
        out@ == stats_title_text(
            match peer {
                Some(addr) => Some(addr@),
                None => None,
            },
        ),
{
    match peer {
        Some(addr) => {
            let mut out = " OpenSnitch (".to_owned();
            out.append(addr);
            out.append(") ");
            out
        },
        None => " OpenSnitch ".to_owned(),
    }
}

/// The title of the alert panel.
pub fn alerts_title(count: usize) -> (out: String)
    ensures
        out@ == alerts_title_text(count as nat),
{
    let mut out = " Alerts (".to_owned();
    push_decimal(&mut out, count as u128);
    out.append(") ");
    out
}

/// Format IPv6 addresses (that are already strings) with square brackets.
/// No change for IPv4.
pub fn format_ip_address_string(ip: &String) -> (out: String)
    ensures
        out@ == bracketed(ip@),
{
    if has_char(ip.as_str(), ':') {
        let mut out = String::new();
        out.push('[');
        out.append(ip.as_str());
        out.push(']');
        out
    } else {
        ip.clone()
    }
}

/// The line of the alert log for `alert`, read at `now`.
pub fn alert_line(now: Timestamp, alert: &Alert) -> (out: String)
    ensures
        out@ == alert_line_text(now, alert@),
{
    let age: u128 = match now.secs_since(alert.timestamp) {
        Some(secs) => secs,
        None => 0,
    };
    let mut out = String::new();
    push_decimal(&mut out, age);
    out.append("s ago : ");
    out.append(alert.kind.label());
    out.append(" : ");
    out.append(alert.priority.label());
    out.append(" : ");
    out.append(alert.what.label());
    out.append(" : ");
    out.append(alert.msg.as_str());
    out.append("\n");
    out
}

/// The countdown under the connection panel, read at `now`.
pub fn countdown_label(now: Timestamp, item: &ReviewItem) -> (out: Option<String>)
    ensures
        match out {
            Some(label) => countdown_text(now, item@) == Some(label@),
            None => countdown_text(now, item@) is None,
        },
{
    match item.expiry.secs_since(now) {
        Some(secs) => {
            let mut label = " ".to_owned();
            push_decimal(&mut label, secs);
            label.append("s to disposition, else ");
            label.append(item.default_action.get_str());
            label.append(" ");
            Some(label)
        },
        None => None,
    }
}

impl TuiState {
    /// The text of the statistics panel: empty until statistics arrive.
    pub fn format_stats_panel(&self) -> (out: String)
        ensures
            out@ == match self@.stats {
                Some(s) => stats_panel(s),
                None => Seq::empty(),
            },
    {
        match &self.current_stats {
            Some(stats) => {
                let mut out = "daemon version: ".to_owned();
                out.append(stats.daemon_version.as_str());
                out.append(" | uptime: ");
                push_decimal(&mut out, stats.uptime as u128);
                out.append("\nrules: ");
                push_decimal(&mut out, stats.rules as u128);
                out.append(" | dns responses: ");
                push_decimal(&mut out, stats.dns_responses as u128);
                out.append(" | connections: ");
                push_decimal(&mut out, stats.connections as u128);
                out.append("\nignored: ");
                push_decimal(&mut out, stats.ignored as u128);
                out.append(" | accepted: ");
                push_decimal(&mut out, stats.accepted as u128);
                out.append(" | dropped: ");
                push_decimal(&mut out, stats.dropped as u128);
                out.append("\nrule hits: ");
                push_decimal(&mut out, stats.rule_hits as u128);
                out.append(" | rule misses: ");
                push_decimal(&mut out, stats.rule_misses as u128);
                out
            },
            None => String::new(),
        }
    }

    /// The lines of the alert log from the entry at `offset` on, read at
    /// `now`.
    pub fn alert_lines(&self, now: Timestamp, offset: usize) -> (lines: Vec<String>)
        ensures
            texts(lines@) == alert_lines_text(now, self@.alerts, offset as nat),
    {
        let mut lines: Vec<String> = Vec::new();
        let mut i: usize = offset;
        while i < self.current_alerts.len()
            invariant
                offset <= i,
                offset <= self.current_alerts.len() ==> i <= self.current_alerts.len(),
                offset > self.current_alerts.len() ==> i == offset,
                lines.len() == i - offset,
                forall|j: int|
                    0 <= j < lines.len() ==> (#[trigger] lines[j])@ == alert_line_text(
                        now,
                        self.current_alerts[offset + j]@,
                    ),
            decreases self.current_alerts.len() - i,
        {
            lines.push(alert_line(now, &self.current_alerts[i]));
            i += 1;
        }
        assert(texts(lines@) =~= alert_lines_text(now, self@.alerts, offset as nat));
        lines
    }

    /// The text of the connection panel: empty while idle.
    pub fn format_connection_panel(&self) -> (out: String)
        ensures
            out@ == match self@.review {
                Some(r) => connection_panel(r.item.connection),
                None => Seq::empty(),
            },
    {
        match &self.current_connection {
            None => String::new(),
            Some(review) => {
                let connection = &review.item.connection;
                // Don't just leave field blank if not populated.
                let dst_host_string = if connection.dst_host.as_str().is_empty() {
                    "-"
                } else {
                    connection.dst_host.as_str()
                };
                let src_ip = format_ip_address_string(&connection.src_ip);
                let dst_ip = format_ip_address_string(&connection.dst_ip);

                let mut out = "src       ".to_owned();
                out.append(src_ip.as_str());
                out.append(":");
                push_decimal(&mut out, connection.src_port as u128);
                out.append("\ndst       ");
                out.append(dst_ip.as_str());
                out.append(":");
                push_decimal(&mut out, connection.dst_port as u128);
                out.append("\nproto     ");
                out.append(connection.protocol.as_str());
                out.append("\ndst host  ");
                out.append(dst_host_string);
                out.append("\nuid       ");
                push_decimal(&mut out, connection.user_id as u128);
                out.append("\npid       ");
                push_decimal(&mut out, connection.process_id as u128);
                out.append("\nppath     ");
                out.append(connection.process_path.as_str());
                out
            },
        }
    }
}

} // verus!
