//! The rule operator generator: from what is known of a connection and
//! the presets that are on to the operators of a rule.

use vstd::prelude::*;
use crate::operator::{operator_views, Operand, Operator, OperatorView, RuleType};
use crate::presets::{MatchHostname, PresetCombination};
use crate::text::{decimal, decimal_string};

verus! {

/// What is known of a connection when a rule is generated for it. Any
/// attribute may be unknown.
#[derive(Clone, Debug)]
pub struct GeneratedOperatorsInputs {
    pub user_id: Option<u32>,
    pub ppath: Option<String>,
    pub dst_ip: Option<String>,
    pub dst_port: Option<u32>,
    pub protocol: Option<String>,
    pub hostname: Option<String>,
}

impl Default for GeneratedOperatorsInputs {
    /// Inputs of which nothing is known.
    fn default() -> (inputs: GeneratedOperatorsInputs)
        ensures
            inputs@ == InputsView::unknown(),
    {
        GeneratedOperatorsInputs {
            user_id: None,
            ppath: None,
            dst_ip: None,
            dst_port: None,
            protocol: None,
            hostname: None,
        }
    }
}

/// Mathematical value of [`GeneratedOperatorsInputs`].
pub ghost struct InputsView {
    pub user_id: Option<u32>,
    pub ppath: Option<Seq<char>>,
    pub dst_ip: Option<Seq<char>>,
    pub dst_port: Option<u32>,
    pub protocol: Option<Seq<char>>,
    pub hostname: Option<Seq<char>>,
}

/// The characters of an optional string.
pub open spec fn text_of(s: Option<String>) -> Option<Seq<char>> {
    match s {
        Some(t) => Some(t@),
        None => None,
    }
}

impl View for GeneratedOperatorsInputs {
    type V = InputsView;

    open spec fn view(&self) -> InputsView {
        InputsView {
            user_id: self.user_id,
            ppath: text_of(self.ppath),
            dst_ip: text_of(self.dst_ip),
            dst_port: self.dst_port,
            protocol: text_of(self.protocol),
            hostname: text_of(self.hostname),
        }
    }
}

/// An operator that compares `operand` with `data` for equality.
pub open spec fn simple_operator(operand: Operand, data: Seq<char>) -> OperatorView {
    OperatorView {
        kind: RuleType::Simple,
        operand,
        data,
        sensitive: false,
        list: Seq::empty(),
    }
}

/// `h` with a backslash in front of every dot.
pub open spec fn escape_dots(h: Seq<char>) -> Seq<char>
    decreases h.len(),
{
    if h.len() == 0 {
        Seq::empty()
    } else if h.last() == '.' {
        escape_dots(h.drop_last()).push('\\').push('.')
    } else {
        escape_dots(h.drop_last()).push(h.last())
    }
}

/// In the escaped text every dot comes directly after a backslash: no dot
/// of a hostname is left to stand for any character in a pattern.
pub proof fn lemma_every_dot_is_escaped(h: Seq<char>)
    ensures
        forall|i: int|
            0 <= i < escape_dots(h).len() && #[trigger] escape_dots(h)[i] == '.' ==> i > 0
                && escape_dots(h)[i - 1] == '\\',
        escape_dots(h).len() >= h.len(),
    decreases h.len(),
{
    if h.len() > 0 {
        lemma_every_dot_is_escaped(h.drop_last());
    }
}

/// The pattern for a hostname and all of its subdomains: start of text or
/// a dot, then the hostname with its dots escaped, then end of text.
pub open spec fn subdomain_pattern(h: Seq<char>) -> Seq<char> {
    "(?:^|\\.)"@ + escape_dots(h) + "$"@
}

/// The operator that matches a hostname and all of its subdomains.
pub open spec fn subdomain_operator(h: Seq<char>) -> OperatorView {
    OperatorView {
        kind: RuleType::Regexp,
        operand: Operand::DstHost,
        data: subdomain_pattern(h),
        sensitive: false,
        list: Seq::empty(),
    }
}

/// The operator for one text attribute: present only if the preset is on
/// and the attribute is known.
pub open spec fn text_clause(enabled: bool, operand: Operand, value: Option<Seq<char>>) -> Option<
    OperatorView,
> {
    if enabled && value is Some {
        Some(simple_operator(operand, value->0))
    } else {
        None
    }
}

/// The operator for one numeric attribute, rendered in decimal: present
/// only if the preset is on and the attribute is known.
pub open spec fn number_clause(enabled: bool, operand: Operand, value: Option<u32>) -> Option<
    OperatorView,
> {
    if enabled && value is Some {
        Some(simple_operator(operand, decimal(value->0 as nat)))
    } else {
        None
    }
}

/// The hostname operator under each of the three modes.
pub open spec fn hostname_clause(mode: MatchHostname, value: Option<Seq<char>>) -> Option<
    OperatorView,
> {
    match (mode, value) {
        (MatchHostname::Exact, Some(h)) => Some(simple_operator(Operand::DstHost, h)),
        (MatchHostname::AnySubdomain, Some(h)) => Some(subdomain_operator(h)),
        _ => None,
    }
}

/// The operator that the rule for `inputs` under `combo` holds for
/// `operand`, if it holds one: the preset is on and the attribute is known.
pub open spec fn clause_for(inputs: InputsView, combo: PresetCombination, operand: Operand) -> Option<
    OperatorView,
> {
    match operand {
        Operand::UserId => number_clause(combo.exact_user_id, operand, inputs.user_id),
        Operand::ProcessPath => text_clause(combo.exact_ppath, operand, inputs.ppath),
        Operand::DstIp => text_clause(combo.exact_dst_ip, operand, inputs.dst_ip),
        Operand::DstPort => number_clause(combo.exact_dst_port, operand, inputs.dst_port),
        Operand::Protocol => text_clause(combo.exact_protocol, operand, inputs.protocol),
        Operand::DstHost => hostname_clause(combo.match_hostname, inputs.hostname),
    }
}

/// `ops`, followed by the operator of `clause` if it has one.
pub open spec fn with_clause(ops: Seq<OperatorView>, clause: Option<OperatorView>) -> Seq<
    OperatorView,
> {
    match clause {
        Some(op) => ops.push(op),
        None => ops,
    }
}

/// The operators of the rule for `inputs` under `combo`: user id, process
/// path, destination ip, destination port, protocol, hostname, each one
/// only where its preset is on and its attribute is known.
pub open spec fn generated(inputs: InputsView, combo: PresetCombination) -> Seq<OperatorView> {
    let ops = Seq::empty();
    let ops = with_clause(ops, clause_for(inputs, combo, Operand::UserId));
    let ops = with_clause(ops, clause_for(inputs, combo, Operand::ProcessPath));
    let ops = with_clause(ops, clause_for(inputs, combo, Operand::DstIp));
    let ops = with_clause(ops, clause_for(inputs, combo, Operand::DstPort));
    let ops = with_clause(ops, clause_for(inputs, combo, Operand::Protocol));
    with_clause(ops, clause_for(inputs, combo, Operand::DstHost))
}

impl InputsView {
    /// Inputs of which nothing is known.
    pub open spec fn unknown() -> InputsView {
        InputsView {
            user_id: None,
            ppath: None,
            dst_ip: None,
            dst_port: None,
            protocol: None,
            hostname: None,
        }
    }

    /// Whether the attribute that `operand` looks at is known.
    pub open spec fn knows(self, operand: Operand) -> bool {
        match operand {
            Operand::UserId => self.user_id is Some,
            Operand::ProcessPath => self.ppath is Some,
            Operand::DstIp => self.dst_ip is Some,
            Operand::DstPort => self.dst_port is Some,
            Operand::Protocol => self.protocol is Some,
            Operand::DstHost => self.hostname is Some,
        }
    }
}

impl PresetCombination {
    /// Whether the preset for `operand` is on.
    pub open spec fn selects(self, operand: Operand) -> bool {
        match operand {
            Operand::UserId => self.exact_user_id,
            Operand::ProcessPath => self.exact_ppath,
            Operand::DstIp => self.exact_dst_ip,
            Operand::DstPort => self.exact_dst_port,
            Operand::Protocol => self.exact_protocol,
            Operand::DstHost => self.match_hostname != MatchHostname::Disabled,
        }
    }
}

/// Whether one of `ops` looks at `operand`.
pub open spec fn mentions(ops: Seq<OperatorView>, operand: Operand) -> bool {
    exists|i: int| 0 <= i < ops.len() && #[trigger] ops[i].operand == operand
}

/// Whether the operands of `ops` come in strictly rising rank, all of
/// them below `bound`.
pub open spec fn ranked_below(ops: Seq<OperatorView>, bound: nat) -> bool {
    &&& forall|i: int| 0 <= i < ops.len() ==> (#[trigger] ops[i]).operand.rank() < bound
    &&& forall|i: int, j: int|
        0 <= i < j < ops.len() ==> (#[trigger] ops[i]).operand.rank() < (
        #[trigger] ops[j]).operand.rank()
}

/// Whether `ops` is the rule for `inputs` under `combo` as far as the
/// operands of rank below `bound` go: it holds the clause of each of them
/// that has one, in the order of their ranks, and nothing else.
pub open spec fn rule_below(
    ops: Seq<OperatorView>,
    inputs: InputsView,
    combo: PresetCombination,
    bound: nat,
) -> bool {
    &&& ops.len() <= bound
    &&& ranked_below(ops, bound)
    &&& forall|i: int|
        0 <= i < ops.len() ==> Some(#[trigger] ops[i]) == clause_for(
            inputs,
            combo,
            ops[i].operand,
        )
    &&& forall|operand: Operand| #[trigger]
        mentions(ops, operand) <==> operand.rank() < bound && clause_for(
            inputs,
            combo,
            operand,
        ) is Some
}

/// Adding the clause of the next operand to the rule for the operands
/// before it gives the rule for the operands up to it.
proof fn lemma_next_clause(
    ops: Seq<OperatorView>,
    inputs: InputsView,
    combo: PresetCombination,
    operand: Operand,
)
    requires
        rule_below(ops, inputs, combo, operand.rank()),
    ensures
        rule_below(
            with_clause(ops, clause_for(inputs, combo, operand)),
            inputs,
            combo,
            operand.rank() + 1,
        ),
{
    let clause = clause_for(inputs, combo, operand);
    let next = with_clause(ops, clause);
    assert forall|other: Operand| #[trigger]
        mentions(next, other) <==> other.rank() < operand.rank() + 1 && clause_for(
            inputs,
            combo,
            other,
        ) is Some by {
        if mentions(ops, other) {
            let i = choose|i: int| 0 <= i < ops.len() && #[trigger] ops[i].operand == other;
            assert(next[i].operand == other);
        }
        if clause is Some && other == operand {
            assert(next.last().operand == other);
        }
        if mentions(next, other) {
            let i = choose|i: int| 0 <= i < next.len() && #[trigger] next[i].operand == other;
            if i < ops.len() {
                assert(ops[i].operand == other);
            }
        }
    }
}

/// A generated rule holds exactly one operator for each preset that is on
/// and whose attribute is known, and no other operator; its operators come
/// in the order user id, process path, destination ip, destination port,
/// protocol, hostname. So it has at most six of them, and at most one for
/// the hostname.
pub proof fn lemma_generated_one_per_preset(inputs: InputsView, combo: PresetCombination)
    ensures
        ranked_below(generated(inputs, combo), 6),
        generated(inputs, combo).len() <= 6,
        forall|operand: Operand|
            #[trigger] mentions(generated(inputs, combo), operand) <==> combo.selects(operand)
                && inputs.knows(operand),
        forall|i: int|
            0 <= i < generated(inputs, combo).len() ==> Some(
                #[trigger] generated(inputs, combo)[i],
            ) == clause_for(inputs, combo, generated(inputs, combo)[i].operand),
{
    let ops0 = Seq::<OperatorView>::empty();
    let ops1 = with_clause(ops0, clause_for(inputs, combo, Operand::UserId));
    let ops2 = with_clause(ops1, clause_for(inputs, combo, Operand::ProcessPath));
    let ops3 = with_clause(ops2, clause_for(inputs, combo, Operand::DstIp));
    let ops4 = with_clause(ops3, clause_for(inputs, combo, Operand::DstPort));
    let ops5 = with_clause(ops4, clause_for(inputs, combo, Operand::Protocol));
    assert(rule_below(ops0, inputs, combo, 0));
    lemma_next_clause(ops0, inputs, combo, Operand::UserId);
    lemma_next_clause(ops1, inputs, combo, Operand::ProcessPath);
    lemma_next_clause(ops2, inputs, combo, Operand::DstIp);
    lemma_next_clause(ops3, inputs, combo, Operand::DstPort);
    lemma_next_clause(ops4, inputs, combo, Operand::Protocol);
    lemma_next_clause(ops5, inputs, combo, Operand::DstHost);
    assert(rule_below(generated(inputs, combo), inputs, combo, 6));
    assert forall|operand: Operand|
        (clause_for(inputs, combo, operand) is Some) == (combo.selects(operand) && inputs.knows(
            operand,
        )) by {}
}

impl GeneratedOperatorsInputs {
    /// Generates the operators of the rule for these inputs under `combo`.
    /// A preset whose attribute is unknown contributes nothing.
    pub fn generate_operators(&self, combo: &PresetCombination) -> (res: Vec<Operator>)
        ensures
            operator_views(res@) == generated(self@, *combo),
    {
        let mut res: Vec<Operator> = Vec::new();
        if combo.exact_user_id {
            if let Some(user_id) = self.user_id {
                push_operator(&mut res, match_user_id(user_id));
            }
        }
        if combo.exact_ppath {
            if let Some(ppath) = &self.ppath {
                push_operator(&mut res, match_proc_path(ppath.as_str()));
            }
        }
        if combo.exact_dst_ip {
            if let Some(dst_ip) = &self.dst_ip {
                push_operator(&mut res, match_dst_ip(dst_ip.as_str()));
            }
        }
        if combo.exact_dst_port {
            if let Some(dst_port) = self.dst_port {
                push_operator(&mut res, match_dst_port(dst_port));
            }
        }
        if combo.exact_protocol {
            if let Some(protocol) = &self.protocol {
                push_operator(&mut res, match_protocol(protocol.as_str()));
            }
        }
        match combo.match_hostname {
            MatchHostname::Disabled => {},
            MatchHostname::Exact => {
                if let Some(hostname) = &self.hostname {
                    push_operator(&mut res, match_exact_hostname(hostname.as_str()));
                }
            },
            MatchHostname::AnySubdomain => {
                if let Some(hostname) = &self.hostname {
                    push_operator(&mut res, match_any_subdomain_hostname(hostname.as_str()));
                }
            },
        }
        res
    }
}

/// Appends one operator to a rule under construction.
fn push_operator(res: &mut Vec<Operator>, op: Operator)
    ensures
        operator_views(final(res)@) == operator_views(old(res)@).push(op@),
{
    res.push(op);
}

/// A simple operator with no nested operators.
fn simple(operand: Operand, data: String) -> (op: Operator)
    ensures
        op@ == simple_operator(operand, data@),
{
    let op = Operator { kind: RuleType::Simple, operand, data, sensitive: false, list: Vec::new() };
    assert(op@.list =~= Seq::empty());
    op
}

/// Matches the user id, in decimal.
pub fn match_user_id(uid: u32) -> (op: Operator)
    ensures
        op@ == simple_operator(Operand::UserId, decimal(uid as nat)),
{
    simple(Operand::UserId, decimal_string(uid as u128))
}

/// Matches the path of the process.
pub fn match_proc_path(ppath: &str) -> (op: Operator)
    ensures
        op@ == simple_operator(Operand::ProcessPath, ppath@),
{
    simple(Operand::ProcessPath, ppath.to_owned())
}

/// Matches the destination address.
pub fn match_dst_ip(ip: &str) -> (op: Operator)
    ensures
        op@ == simple_operator(Operand::DstIp, ip@),
{
    simple(Operand::DstIp, ip.to_owned())
}

/// Matches the destination port, in decimal.
pub fn match_dst_port(port: u32) -> (op: Operator)
    ensures
        op@ == simple_operator(Operand::DstPort, decimal(port as nat)),
{
    simple(Operand::DstPort, decimal_string(port as u128))
}

/// Matches the protocol.
pub fn match_protocol(protocol: &str) -> (op: Operator)
    ensures
        op@ == simple_operator(Operand::Protocol, protocol@),
{
    simple(Operand::Protocol, protocol.to_owned())
}

/// Matches the hostname exactly.
pub fn match_exact_hostname(hostname: &str) -> (op: Operator)
    ensures
        op@ == simple_operator(Operand::DstHost, hostname@),
{
    simple(Operand::DstHost, hostname.to_owned())
}

/// Appends `hostname` to `out` with a backslash in front of every dot.
fn push_escaped(out: &mut String, hostname: &str)
    ensures
        final(out)@ == old(out)@ + escape_dots(hostname@),
{
    broadcast use vstd::string::axiom_spec_iter;

    let ghost start = out@;
    assert(start + escape_dots(Seq::<char>::empty()) =~= start);
    for c in it: hostname.chars()
        invariant
            it.seq() == hostname@,
            out@ == start + escape_dots(it.seq().take(it.index())),
    {
        let ghost i = it.index();
        assert(it.seq().take(i + 1).drop_last() =~= it.seq().take(i));
        if c == '.' {
            out.push('\\');
        }
        out.push(c);
    }
    assert(hostname@.take(hostname@.len() as int) =~= hostname@);
}

/// Matches the hostname and every subdomain of it.
pub fn match_any_subdomain_hostname(hostname: &str) -> (op: Operator)
    ensures
        op@ == subdomain_operator(hostname@),
{
    let mut re = "(?:^|\\.)".to_owned();
    push_escaped(&mut re, hostname);
    re.push('$');
    proof {
        reveal_strlit("$");
        assert(re@ =~= subdomain_pattern(hostname@));
    }
    let op = Operator {
        kind: RuleType::Regexp,
        operand: Operand::DstHost,
        data: re,
        sensitive: false,
        list: Vec::new(),
    };
    assert(op@.list =~= Seq::empty());
    op
}

} // verus!
