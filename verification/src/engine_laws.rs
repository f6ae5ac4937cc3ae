//! What holds of every state of the disposition state machine.

use vstd::prelude::*;
use crate::engine::{Admission, EngineView};
use crate::operator_util::generated;
use crate::review::{Action, Disposition, ResolutionView, ReviewRequestView, Scope};
use crate::time::Timestamp;

verus! {

/// A review whose deadline has come with no decision ends by the item's
/// default action, for this connection only, and installs no rule. A
/// decision that arrives at the deadline or later changes nothing of
/// that.
pub proof fn lemma_deadline_resolves_by_default(
    s: EngineView,
    now: Timestamp,
    action: Action,
    scope: Scope,
)
    requires
        s.review is Some,
        now.reached(s.review->0.item.expiry),
    ensures
        s.after_tick(now).1 == Some(
            ResolutionView {
                item: s.review->0.item,
                disposition: Disposition {
                    action: s.review->0.item.default_action,
                    scope: Scope::Once,
                },
                rule: None,
            },
        ),
        s.after_decision(now, action, scope) == s.after_tick(now),
{
}

/// A decision that arrives before the deadline ends the review as
/// decided, with a rule if and only if it is to hold forever, and cancels
/// the deadline: the item is no longer under review, so no later tick
/// resolves it. What a later tick resolves is the request that took its
/// place, whose own deadline counts from the decision.
pub proof fn lemma_decision_before_deadline_prevails(
    s: EngineView,
    now: Timestamp,
    action: Action,
    scope: Scope,
    later: Timestamp,
)
    requires
        s.review is Some,
        !now.reached(s.review->0.item.expiry),
    ensures
        s.after_tick(now) == (s, None::<ResolutionView>),
        s.after_decision(now, action, scope).1 == Some(
            ResolutionView {
                item: s.review->0.item,
                disposition: Disposition { action, scope },
                rule: if scope == Scope::Forever {
                    Some(generated(s.review->0.item.inputs, s.presets))
                } else {
                    None
                },
            },
        ),
        s.after_decision(now, action, scope).0.review == EngineView::successor(
            s.review->0.pending,
            now,
        ),
        s.review->0.pending.len() == 0 ==> s.after_decision(now, action, scope).0.after_tick(
            later,
        ).1 is None,
        s.after_decision(now, action, scope).0.after_tick(later).1 matches Some(r) ==> {
            &&& s.review->0.pending.len() > 0
            &&& r.item.id == s.review->0.pending[0].id
            &&& r.item.connection == s.review->0.pending[0].connection
            &&& r.item.expiry == now.plus_secs(s.review->0.pending[0].window_secs)
            &&& later.reached(r.item.expiry)
        },
{
}

/// A decision or a tick on an idle engine does nothing.
pub proof fn lemma_idle_ignores_decisions(
    s: EngineView,
    now: Timestamp,
    action: Action,
    scope: Scope,
)
    requires
        s.review is None,
    ensures
        s.after_decision(now, action, scope) == (s, None::<ResolutionView>),
        s.after_tick(now) == (s, None::<ResolutionView>),
{
}

/// Only an explicit decision to hold forever, taken before the deadline,
/// produces a rule.
pub proof fn lemma_rule_only_when_decided_forever(
    s: EngineView,
    now: Timestamp,
    action: Action,
    scope: Scope,
)
    ensures
        s.after_tick(now).1 matches Some(r) ==> r.rule is None,
        s.after_decision(now, action, scope).1 matches Some(r) ==> (r.rule is Some <==> scope
            == Scope::Forever && !now.reached(s.review->0.item.expiry)),
{
}

/// Requests are served in arrival order: a request that arrives during a
/// review goes behind those that wait, and the review that follows takes
/// the oldest of them.
pub proof fn lemma_requests_wait_in_arrival_order(
    s: EngineView,
    now: Timestamp,
    request: ReviewRequestView,
)
    requires
        s.review is Some,
        s.review->0.pending.len() < s.queue_limit,
    ensures
        s.after_request(now, request).1 == Admission::Queued,
        s.after_request(now, request).0.review->0.item == s.review->0.item,
        s.after_request(now, request).0.review->0.pending == s.review->0.pending.push(request),
        s.review->0.pending.len() > 0 ==> s.after_request(now, request).0.advanced(
            now,
        ).review->0.item.id == s.review->0.pending[0].id,
{
}

/// The number of waiting requests never exceeds the limit, whatever
/// arrives.
pub proof fn lemma_queue_stays_bounded(
    s: EngineView,
    now: Timestamp,
    request: ReviewRequestView,
    action: Action,
    scope: Scope,
)
    requires
        s.review matches Some(r) ==> r.pending.len() <= s.queue_limit,
    ensures
        s.after_request(now, request).0.review matches Some(r) ==> r.pending.len()
            <= s.queue_limit,
        s.after_decision(now, action, scope).0.review matches Some(r) ==> r.pending.len()
            <= s.queue_limit,
        s.after_tick(now).0.review matches Some(r) ==> r.pending.len() <= s.queue_limit,
        s.after_request(now, request).0.queue_limit == s.queue_limit,
        s.after_decision(now, action, scope).0.queue_limit == s.queue_limit,
        s.after_tick(now).0.queue_limit == s.queue_limit,
{
}

} // verus!
