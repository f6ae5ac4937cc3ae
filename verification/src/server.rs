//! The ingestion relay: takes a call of the daemon, hands its payload to
//! the engine without ever blocking, and answers the call.

use vstd::prelude::*;
use std::sync::mpsc::SyncSender;

verus! {

/// The sending half of a bounded channel of the standard library. Nothing
/// is known of what a channel holds: its receiver runs elsewhere.
#[verifier::external_type_specification]
#[verifier::external_body]
#[verifier::reject_recursive_types(T)]
pub struct ExSyncSender<T>(SyncSender<T>);

/// Counters of the daemon. Each snapshot replaces the one before it.
#[derive(Clone, Debug, PartialEq, Eq)]
pub struct Statistics {
    pub daemon_version: String,
    pub uptime: u64,
    pub rules: u64,
    pub dns_responses: u64,
    pub connections: u64,
    pub ignored: u64,
    pub accepted: u64,
    pub dropped: u64,
    pub rule_hits: u64,
    pub rule_misses: u64,
}

/// Mathematical value of [`Statistics`].
pub ghost struct StatisticsView {
    pub daemon_version: Seq<char>,
    pub uptime: u64,
    pub rules: u64,
    pub dns_responses: u64,
    pub connections: u64,
    pub ignored: u64,
    pub accepted: u64,
    pub dropped: u64,
    pub rule_hits: u64,
    pub rule_misses: u64,
}

impl View for Statistics {
    type V = StatisticsView;

    open spec fn view(&self) -> StatisticsView {
        StatisticsView {
            daemon_version: self.daemon_version@,
            uptime: self.uptime,
            rules: self.rules,
            dns_responses: self.dns_responses,
            connections: self.connections,
            ignored: self.ignored,
            accepted: self.accepted,
            dropped: self.dropped,
            rule_hits: self.rule_hits,
            rule_misses: self.rule_misses,
        }
    }
}

/// A heartbeat of the daemon: a call identifier and, normally, a
/// statistics snapshot.
#[derive(Clone, Debug, PartialEq, Eq)]
pub struct PingRequest {
    pub id: u64,
    pub stats: Option<Statistics>,
}

/// The answer to a heartbeat: the identifier of the call.
#[derive(Clone, Copy, Debug, PartialEq, Eq, Structural)]
pub struct PingReply {
    pub id: u64,
}

/// What the relay does with one heartbeat.
#[derive(Debug, PartialEq, Eq)]
pub struct PingOutcome {
    /// The answer to the caller.
    pub reply: PingReply,
    /// The snapshot to hand to the engine, if the call carried one.
    pub forward: Option<Statistics>,
}

/// Decides what becomes of one heartbeat: the reply echoes the call's
/// identifier, and the snapshot is forwarded as it came. A call without a
/// snapshot is answered all the same, and forwards nothing.
pub fn relay_ping(request: PingRequest) -> (out: PingOutcome)
    ensures
        out.reply.id == request.id,
        out.forward == request.stats,
{
    PingOutcome { reply: PingReply { id: request.id }, forward: request.stats }
}

/// `SyncSender::try_send`: offers the snapshot to the channel without
/// blocking, and says whether the channel took it. It does not where the
/// channel is full or its receiver is gone, which the sender cannot
/// foresee: nothing is claimed of the answer.
#[verifier::external_body]
fn offer(tx: &SyncSender<Statistics>, stats: Statistics) -> (taken: bool) {
    tx.try_send(stats).is_ok()
}

/// The relay of the daemon's heartbeats. Its channel is bounded, so that a
/// slow engine costs snapshots and never memory or the daemon's time.
#[derive(Debug)]
pub struct MyUI {
    pub tx: SyncSender<Statistics>,
}

impl MyUI {
    /// Handles one heartbeat: offers its snapshot to the engine and answers
    /// with the call's identifier. The answer does not depend on whether
    /// the engine took the snapshot; a snapshot that it did not take is
    /// dropped. The second part of the result says whether one was handed
    /// over.
    pub fn ping(&self, request: PingRequest) -> (res: (PingReply, bool))
        ensures
            res.0.id == request.id,
            res.1 ==> request.stats is Some,
    {
        let out = relay_ping(request);
        let handed = match out.forward {
            Some(stats) => offer(&self.tx, stats),
            None => false,
        };
        (out.reply, handed)
    }
}

} // verus!
