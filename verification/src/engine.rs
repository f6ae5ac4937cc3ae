//! The disposition state machine. At most one connection is under review
//! at a time; requests that arrive meanwhile wait in arrival order. A
//! review ends by an explicit decision before its deadline, or by the
//! item's default action at the deadline.

use vstd::prelude::*;
use std::collections::VecDeque;
use crate::alert::{Alert, AlertMessage, AlertMessageView, AlertView};
use crate::presets::PresetCombination;
use crate::review::{
    Action, Disposition, Resolution, ResolutionView, ReviewItem, ReviewItemView, ReviewRequest,
    ReviewRequestView, Scope,
};
use crate::server::{Statistics, StatisticsView};
use crate::time::Timestamp;

verus! {

/// What became of a review request.
#[derive(Clone, Copy, Debug, PartialEq, Eq, Structural)]
pub enum Admission {
    /// Nothing was under review: the request is, from now.
    Activated,
    /// Another connection is under review: the request waits its turn.
    Queued,
    /// Too many requests wait already: the request is dropped.
    Dropped,
}

/// The connection under review and the requests that wait behind it.
#[derive(Debug)]
pub struct ActiveReview {
    pub item: ReviewItem,
    /// Requests that wait, the oldest first.
    pub pending: VecDeque<ReviewRequest>,
}

/// The views of a sequence of requests, in order.
pub open spec fn request_views(requests: Seq<ReviewRequest>) -> Seq<ReviewRequestView> {
    Seq::new(requests.len(), |i: int| requests[i]@)
}

/// The views of a sequence of alerts, in order.
pub open spec fn alert_views(alerts: Seq<Alert>) -> Seq<AlertView> {
    Seq::new(alerts.len(), |i: int| alerts[i]@)
}

/// Mathematical value of an [`ActiveReview`].
pub ghost struct ActiveReviewView {
    pub item: ReviewItemView,
    pub pending: Seq<ReviewRequestView>,
}

impl View for ActiveReview {
    type V = ActiveReviewView;

    open spec fn view(&self) -> ActiveReviewView {
        ActiveReviewView { item: self.item@, pending: request_views(self.pending@) }
    }
}

/// State of the engine: the review, the latest statistics and the alert
/// log.
#[derive(Debug)]
pub struct TuiState {
    /// The latest statistics of the daemon.
    pub current_stats: Option<Statistics>,
    /// The review in progress; `None` while idle.
    pub current_connection: Option<ActiveReview>,
    /// How many requests may wait behind the one under review.
    pub queue_limit: usize,
    /// The alert log, oldest first.
    pub current_alerts: Vec<Alert>,
    /// The presets under which rules are generated.
    pub presets: PresetCombination,
}

/// Mathematical value of a [`TuiState`].
pub ghost struct EngineView {
    pub stats: Option<StatisticsView>,
    pub review: Option<ActiveReviewView>,
    pub queue_limit: nat,
    pub alerts: Seq<AlertView>,
    pub presets: PresetCombination,
}

impl View for TuiState {
    type V = EngineView;

    open spec fn view(&self) -> EngineView {
        EngineView {
            stats: match self.current_stats {
                Some(s) => Some(s@),
                None => None,
            },
            review: match self.current_connection {
                Some(r) => Some(r@),
                None => None,
            },
            queue_limit: self.queue_limit as nat,
            alerts: alert_views(self.current_alerts@),
            presets: self.presets,
        }
    }
}

impl EngineView {
    /// The engine at start: idle, no statistics, no alerts.
    pub open spec fn initial(presets: PresetCombination, queue_limit: nat) -> EngineView {
        EngineView { stats: None, review: None, queue_limit, alerts: Seq::empty(), presets }
    }

    /// The review that follows one that ended at `now`: the oldest of the
    /// waiting requests comes under review, with a deadline counted from
    /// `now`; with none waiting the engine is idle.
    pub open spec fn successor(pending: Seq<ReviewRequestView>, now: Timestamp) -> Option<
        ActiveReviewView,
    > {
        if pending.len() == 0 {
            None
        } else {
            Some(
                ActiveReviewView {
                    item: ReviewItemView::started(pending[0], now),
                    pending: pending.subrange(1, pending.len() as int),
                },
            )
        }
    }

    /// The engine after the review in progress ended at `now`.
    pub open spec fn advanced(self, now: Timestamp) -> EngineView {
        match self.review {
            Some(r) => EngineView { review: EngineView::successor(r.pending, now), ..self },
            None => self,
        }
    }

    /// A request arrives at `now`. Idle, the engine puts it under review.
    /// Otherwise the request waits behind those that wait already, unless
    /// `queue_limit` of them do: then it is dropped.
    pub open spec fn after_request(self, now: Timestamp, request: ReviewRequestView) -> (
        EngineView,
        Admission,
    ) {
        match self.review {
            None => (
                EngineView {
                    review: Some(
                        ActiveReviewView {
                            item: ReviewItemView::started(request, now),
                            pending: Seq::empty(),
                        },
                    ),
                    ..self
                },
                Admission::Activated,
            ),
            Some(r) => if r.pending.len() < self.queue_limit {
                (
                    EngineView {
                        review: Some(
                            ActiveReviewView { item: r.item, pending: r.pending.push(request) },
                        ),
                        ..self
                    },
                    Admission::Queued,
                )
            } else {
                (self, Admission::Dropped)
            },
        }
    }

    /// A decision arrives at `now`. Idle, the engine ignores it. Before
    /// the deadline of the item under review, the decision ends the
    /// review. At the deadline or later the decision comes too late: the
    /// review ends by the item's default action, for this connection only.
    pub open spec fn after_decision(self, now: Timestamp, action: Action, scope: Scope) -> (
        EngineView,
        Option<ResolutionView>,
    ) {
        match self.review {
            None => (self, None),
            Some(r) => {
                let disposition = if now.reached(r.item.expiry) {
                    r.item.default_disposition()
                } else {
                    Disposition { action, scope }
                };
                (
                    self.advanced(now),
                    Some(ResolutionView::of(r.item, disposition, self.presets)),
                )
            },
        }
    }

    /// The clock shows `now`. A review whose deadline has come ends by the
    /// item's default action, for this connection only; otherwise nothing
    /// changes.
    pub open spec fn after_tick(self, now: Timestamp) -> (EngineView, Option<ResolutionView>) {
        match self.review {
            Some(r) if now.reached(r.item.expiry) => (
                self.advanced(now),
                Some(ResolutionView::of(r.item, r.item.default_disposition(), self.presets)),
            ),
            _ => (self, None),
        }
    }

    /// An alert arrives at `now`: its entry is appended to the log.
    pub open spec fn after_alert(self, now: Timestamp, message: AlertMessageView) -> EngineView {
        EngineView { alerts: self.alerts.push(AlertView::normalized(now, message)), ..self }
    }

    /// Statistics arrive: they replace those held.
    pub open spec fn after_stats(self, stats: StatisticsView) -> EngineView {
        EngineView { stats: Some(stats), ..self }
    }
}

/// What can happen to the engine.
#[derive(Debug)]
pub enum Event {
    /// Statistics of the daemon arrive.
    Stats(Statistics),
    /// An alert of the daemon arrives.
    Alert(AlertMessage),
    /// The daemon asks what to do with a connection.
    Request(ReviewRequest),
    /// The operator decides on the connection under review.
    Decision(Action, Scope),
    /// Time has passed.
    Tick,
}

/// Mathematical value of an [`Event`].
pub ghost enum EventView {
    Stats(StatisticsView),
    Alert(AlertMessageView),
    Request(ReviewRequestView),
    Decision(Action, Scope),
    Tick,
}

impl View for Event {
    type V = EventView;

    open spec fn view(&self) -> EventView {
        match self {
            Event::Stats(s) => EventView::Stats(s@),
            Event::Alert(m) => EventView::Alert(m@),
            Event::Request(r) => EventView::Request(r@),
            Event::Decision(action, scope) => EventView::Decision(*action, *scope),
            Event::Tick => EventView::Tick,
        }
    }
}

/// What the engine asks of its surroundings after an event.
#[derive(Debug)]
pub enum Effect {
    /// Nothing.
    Nothing,
    /// To tell the daemon what became of its request.
    Admitted(Admission),
    /// To send the decision on the resolved item to the daemon, with the
    /// rule where there is one.
    Resolved(Resolution),
}

/// Mathematical value of an [`Effect`].
pub ghost enum EffectView {
    Nothing,
    Admitted(Admission),
    Resolved(ResolutionView),
}

impl View for Effect {
    type V = EffectView;

    open spec fn view(&self) -> EffectView {
        match self {
            Effect::Nothing => EffectView::Nothing,
            Effect::Admitted(a) => EffectView::Admitted(*a),
            Effect::Resolved(r) => EffectView::Resolved(r@),
        }
    }
}

impl EffectView {
    /// The effect of a review that may have ended.
    pub open spec fn of_resolution(resolution: Option<ResolutionView>) -> EffectView {
        match resolution {
            Some(r) => EffectView::Resolved(r),
            None => EffectView::Nothing,
        }
    }
}

impl EngineView {
    /// The engine after `event` at `now`, and what it asks of its
    /// surroundings.
    pub open spec fn after_event(self, now: Timestamp, event: EventView) -> (
        EngineView,
        EffectView,
    ) {
        match event {
            EventView::Stats(stats) => (self.after_stats(stats), EffectView::Nothing),
            EventView::Alert(message) => (self.after_alert(now, message), EffectView::Nothing),
            EventView::Request(request) => (
                self.after_request(now, request).0,
                EffectView::Admitted(self.after_request(now, request).1),
            ),
            EventView::Decision(action, scope) => (
                self.after_decision(now, action, scope).0,
                EffectView::of_resolution(self.after_decision(now, action, scope).1),
            ),
            EventView::Tick => (
                self.after_tick(now).0,
                EffectView::of_resolution(self.after_tick(now).1),
            ),
        }
    }
}

impl TuiState {
    /// An idle engine without statistics or alerts.
    pub fn new(presets: PresetCombination, queue_limit: usize) -> (state: TuiState)
        ensures
            state@ == EngineView::initial(presets, queue_limit as nat),
    {
        let state = TuiState {
            current_stats: None,
            current_connection: None,
            queue_limit,
            current_alerts: Vec::new(),
            presets,
        };
        assert(state@.alerts =~= Seq::empty());
        state
    }

    /// Takes a review request that arrives at `now`.
    pub fn request_review(&mut self, now: Timestamp, request: ReviewRequest) -> (admission:
        Admission)
        ensures
            (final(self)@, admission) == old(self)@.after_request(now, request@),
    {
        match self.current_connection.take() {
            None => {
                let review = ActiveReview {
                    item: ReviewItem::start(request, now),
                    pending: VecDeque::new(),
                };
                assert(review@.pending =~= Seq::empty());
                self.current_connection = Some(review);
                Admission::Activated
            },
            Some(mut review) => {
                let admission = if review.pending.len() < self.queue_limit {
                    let ghost before = review@.pending;
                    review.pending.push_back(request);
                    assert(review@.pending =~= before.push(request@));
                    Admission::Queued
                } else {
                    Admission::Dropped
                };
                self.current_connection = Some(review);
                admission
            },
        }
    }

    /// Ends `review` at `now` by `disposition`, and puts the oldest
    /// waiting request under review.
    fn resolve(&mut self, now: Timestamp, review: ActiveReview, disposition: Disposition) -> (res:
        Resolution)
        requires
            old(self).current_connection is None,
        ensures
            res@ == ResolutionView::of(review@.item, disposition, old(self).presets),
            final(self)@ == (EngineView {
                review: EngineView::successor(review@.pending, now),
                ..old(self)@
            }),
    {
        let ActiveReview { item, mut pending } = review;
        let ghost waiting = request_views(pending@);
        match pending.pop_front() {
            Some(next) => {
                let successor = ActiveReview { item: ReviewItem::start(next, now), pending };
                assert(successor@.pending =~= waiting.subrange(1, waiting.len() as int));
                self.current_connection = Some(successor);
            },
            None => {},
        }
        Resolution::new(item, disposition, &self.presets)
    }

    /// Takes a decision that arrives at `now`. The result is the
    /// resolution of the review that ended, if one did.
    pub fn submit_decision(&mut self, now: Timestamp, action: Action, scope: Scope) -> (res:
        Option<Resolution>)
        ensures
            final(self)@ == old(self)@.after_decision(now, action, scope).0,
            match res {
                Some(r) => old(self)@.after_decision(now, action, scope).1 == Some(r@),
                None => old(self)@.after_decision(now, action, scope).1 is None,
            },
    {
        match self.current_connection.take() {
            None => None,
            Some(review) => {
                let disposition = if review.item.is_expired(now) {
                    Disposition { action: review.item.default_action, scope: Scope::Once }
                } else {
                    Disposition { action, scope }
                };
                Some(self.resolve(now, review, disposition))
            },
        }
    }

    /// Checks the deadline against the clock, which shows `now`. The
    /// result is the resolution of the review that ended, if one did.
    pub fn tick(&mut self, now: Timestamp) -> (res: Option<Resolution>)
        ensures
            final(self)@ == old(self)@.after_tick(now).0,
            match res {
                Some(r) => old(self)@.after_tick(now).1 == Some(r@),
                None => old(self)@.after_tick(now).1 is None,
            },
    {
        match self.current_connection.take() {
            None => None,
            Some(review) => {
                if review.item.is_expired(now) {
                    let disposition = Disposition {
                        action: review.item.default_action,
                        scope: Scope::Once,
                    };
                    Some(self.resolve(now, review, disposition))
                } else {
                    self.current_connection = Some(review);
                    None
                }
            },
        }
    }

    /// Appends the entry for an alert that arrives at `now` to the log.
    pub fn push_alert(&mut self, now: Timestamp, message: &AlertMessage)
        ensures
            final(self)@ == old(self)@.after_alert(now, message@),
    {
        let ghost before = self@.alerts;
        self.current_alerts.push(Alert::from_proto(now, message));
        assert(self@.alerts =~= before.push(AlertView::normalized(now, message@)));
    }

    /// Replaces the statistics held by those that arrived.
    pub fn update_stats(&mut self, stats: Statistics)
        ensures
            final(self)@ == old(self)@.after_stats(stats@),
    {
        self.current_stats = Some(stats);
    }

    /// Takes one event at `now`, and says what is to be done about it.
    pub fn handle(&mut self, now: Timestamp, event: Event) -> (effect: Effect)
        ensures
            (final(self)@, effect@) == old(self)@.after_event(now, event@),
    {
        match event {
            Event::Stats(stats) => {
                self.update_stats(stats);
                Effect::Nothing
            },
            Event::Alert(message) => {
                self.push_alert(now, &message);
                Effect::Nothing
            },
            Event::Request(request) => Effect::Admitted(self.request_review(now, request)),
            Event::Decision(action, scope) => match self.submit_decision(now, action, scope) {
                Some(resolution) => Effect::Resolved(resolution),
                None => Effect::Nothing,
            },
            Event::Tick => match self.tick(now) {
                Some(resolution) => Effect::Resolved(resolution),
                None => Effect::Nothing,
            },
        }
    }
}

} // verus!
