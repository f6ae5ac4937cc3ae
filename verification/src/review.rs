//! What a connection review is made of: the request, the item under
//! review, and the disposition that ends it.

use vstd::prelude::*;
use crate::operator::{operator_views, Operator, OperatorView};
use crate::operator_util::{generated, text_of, GeneratedOperatorsInputs, InputsView};
use crate::presets::PresetCombination;
use crate::time::Timestamp;

verus! {

/// What happens to a connection.
#[derive(Clone, Copy, Debug, PartialEq, Eq, Structural)]
pub enum Action {
    Allow,
    Deny,
}

impl Action {
    /// Wire name of the action.
    pub open spec fn name(self) -> Seq<char> {
        match self {
            Action::Allow => "allow"@,
            Action::Deny => "deny"@,
        }
    }

    /// Wire name of the action.
    pub fn get_str(&self) -> (s: &'static str)
        ensures
            s@ == self.name(),
    {
        match self {
            Action::Allow => "allow",
            Action::Deny => "deny",
        }
    }
}

/// How long a decision holds.
#[derive(Clone, Copy, Debug, PartialEq, Eq, Structural)]
pub enum Scope {
    /// For this connection only; no rule is kept.
    Once,
    /// From now on; a rule is generated.
    Forever,
}

/// The decision that ends a review.
#[derive(Clone, Copy, Debug, PartialEq, Eq, Structural)]
pub struct Disposition {
    pub action: Action,
    pub scope: Scope,
}

/// A connection as the daemon describes it.
#[derive(Clone, Debug, PartialEq, Eq)]
pub struct Connection {
    pub protocol: String,
    pub src_ip: String,
    pub src_port: u32,
    pub dst_ip: String,
    pub dst_host: String,
    pub dst_port: u32,
    pub user_id: u32,
    pub process_id: u32,
    pub process_path: String,
}

/// Mathematical value of a [`Connection`].
pub ghost struct ConnectionView {
    pub protocol: Seq<char>,
    pub src_ip: Seq<char>,
    pub src_port: u32,
    pub dst_ip: Seq<char>,
    pub dst_host: Seq<char>,
    pub dst_port: u32,
    pub user_id: u32,
    pub process_id: u32,
    pub process_path: Seq<char>,
}

impl View for Connection {
    type V = ConnectionView;

    open spec fn view(&self) -> ConnectionView {
        ConnectionView {
            protocol: self.protocol@,
            src_ip: self.src_ip@,
            src_port: self.src_port,
            dst_ip: self.dst_ip@,
            dst_host: self.dst_host@,
            dst_port: self.dst_port,
            user_id: self.user_id,
            process_id: self.process_id,
            process_path: self.process_path@,
        }
    }
}

/// A text attribute as a rule input: unknown where the daemon left it
/// empty.
pub open spec fn known_text(t: Seq<char>) -> Option<Seq<char>> {
    if t.len() == 0 {
        None
    } else {
        Some(t)
    }
}

impl ConnectionView {
    /// What a rule for the connection can match on: the numbers as they
    /// are, each text unless it is empty.
    pub open spec fn review_inputs(self) -> InputsView {
        InputsView {
            user_id: Some(self.user_id),
            ppath: known_text(self.process_path),
            dst_ip: known_text(self.dst_ip),
            dst_port: Some(self.dst_port),
            protocol: known_text(self.protocol),
            hostname: known_text(self.dst_host),
        }
    }
}

/// A copy of `t`, unless it is empty.
fn known(t: &String) -> (res: Option<String>)
    ensures
        text_of(res) == known_text(t@),
{
    if t.as_str().is_empty() {
        None
    } else {
        Some(t.clone())
    }
}

impl Connection {
    /// What a rule for the connection can match on.
    pub fn review_inputs(&self) -> (inputs: GeneratedOperatorsInputs)
        ensures
            inputs@ == self@.review_inputs(),
    {
        GeneratedOperatorsInputs {
            user_id: Some(self.user_id),
            ppath: known(&self.process_path),
            dst_ip: known(&self.dst_ip),
            dst_port: Some(self.dst_port),
            protocol: known(&self.protocol),
            hostname: known(&self.dst_host),
        }
    }
}

/// The daemon asks what to do with a connection.
#[derive(Clone, Debug)]
pub struct ReviewRequest {
    /// Identifies the request to its sender; the resolution carries it
    /// back.
    pub id: u64,
    /// The connection, as it is shown.
    pub connection: Connection,
    /// What a rule for the connection can match on.
    pub inputs: GeneratedOperatorsInputs,
    /// Seconds that the review may take.
    pub window_secs: u64,
    /// What happens to the connection if nobody decides in time.
    pub default_action: Action,
}

/// Mathematical value of a [`ReviewRequest`].
pub ghost struct ReviewRequestView {
    pub id: u64,
    pub connection: ConnectionView,
    pub inputs: InputsView,
    pub window_secs: u64,
    pub default_action: Action,
}

impl View for ReviewRequest {
    type V = ReviewRequestView;

    open spec fn view(&self) -> ReviewRequestView {
        ReviewRequestView {
            id: self.id,
            connection: self.connection@,
            inputs: self.inputs@,
            window_secs: self.window_secs,
            default_action: self.default_action,
        }
    }
}

/// A connection under review, with its deadline.
#[derive(Clone, Debug)]
pub struct ReviewItem {
    /// The identifier of the request that the item came with.
    pub id: u64,
    pub connection: Connection,
    pub inputs: GeneratedOperatorsInputs,
    /// The instant from which the default action applies.
    pub expiry: Timestamp,
    pub default_action: Action,
}

/// Mathematical value of a [`ReviewItem`].
pub ghost struct ReviewItemView {
    pub id: u64,
    pub connection: ConnectionView,
    pub inputs: InputsView,
    pub expiry: Timestamp,
    pub default_action: Action,
}

impl View for ReviewItem {
    type V = ReviewItemView;

    open spec fn view(&self) -> ReviewItemView {
        ReviewItemView {
            id: self.id,
            connection: self.connection@,
            inputs: self.inputs@,
            expiry: self.expiry,
            default_action: self.default_action,
        }
    }
}

impl ReviewItemView {
    /// The item for a request that comes under review at `now`: its
    /// deadline is `now` plus the request's window.
    pub open spec fn started(request: ReviewRequestView, now: Timestamp) -> ReviewItemView {
        ReviewItemView {
            id: request.id,
            connection: request.connection,
            inputs: request.inputs,
            expiry: now.plus_secs(request.window_secs),
            default_action: request.default_action,
        }
    }

    /// The disposition of the item when nobody decided in time: its
    /// default action, for this connection only.
    pub open spec fn default_disposition(self) -> Disposition {
        Disposition { action: self.default_action, scope: Scope::Once }
    }
}

impl ReviewItem {
    /// Puts a request under review at `now`.
    pub fn start(request: ReviewRequest, now: Timestamp) -> (item: ReviewItem)
        ensures
            item@ == ReviewItemView::started(request@, now),
    {
        ReviewItem {
            id: request.id,
            connection: request.connection,
            inputs: request.inputs,
            expiry: now.after_secs(request.window_secs),
            default_action: request.default_action,
        }
    }

    /// Whether the deadline of the item has passed at `now`.
    pub fn is_expired(&self, now: Timestamp) -> (expired: bool)
        ensures
            expired == now.reached(self.expiry),
    {
        now.has_reached(self.expiry)
    }
}

/// The end of a review: what was decided of which item, and the rule to
/// install where the decision is to hold from now on.
#[derive(Debug)]
pub struct Resolution {
    pub item: ReviewItem,
    pub disposition: Disposition,
    pub rule: Option<Vec<Operator>>,
}

/// Mathematical value of a [`Resolution`].
pub ghost struct ResolutionView {
    pub item: ReviewItemView,
    pub disposition: Disposition,
    pub rule: Option<Seq<OperatorView>>,
}

impl View for Resolution {
    type V = ResolutionView;

    open spec fn view(&self) -> ResolutionView {
        ResolutionView {
            item: self.item@,
            disposition: self.disposition,
            rule: match self.rule {
                Some(ops) => Some(operator_views(ops@)),
                None => None,
            },
        }
    }
}

impl ResolutionView {
    /// The resolution of `item` by `disposition` under `presets`: a rule
    /// is generated from the item's inputs if and only if the decision
    /// holds forever.
    pub open spec fn of(
        item: ReviewItemView,
        disposition: Disposition,
        presets: PresetCombination,
    ) -> ResolutionView {
        ResolutionView {
            item,
            disposition,
            rule: match disposition.scope {
                Scope::Forever => Some(generated(item.inputs, presets)),
                Scope::Once => None,
            },
        }
    }
}

impl Resolution {
    /// Resolves `item` by `disposition`, generating the rule under
    /// `presets` where the decision holds forever.
    pub fn new(item: ReviewItem, disposition: Disposition, presets: &PresetCombination) -> (res:
        Resolution)
        ensures
            res@ == ResolutionView::of(item@, disposition, *presets),
    {
        let rule = match disposition.scope {
            Scope::Forever => Some(item.inputs.generate_operators(presets)),
            Scope::Once => None,
        };
        Resolution { item, disposition, rule }
    }
}

} // verus!
