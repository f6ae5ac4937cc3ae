//! The match operator: one clause of a firewall rule.

use vstd::prelude::*;

verus! {

/// How an operator's data is compared with the connection attribute.
#[derive(Clone, Copy, Debug, PartialEq, Eq, Structural)]
pub enum RuleType {
    /// The attribute must equal the data.
    Simple,
    /// The attribute must match the data, read as a regular expression.
    Regexp,
}

impl RuleType {
    /// Wire name of the rule type.
    pub open spec fn name(self) -> Seq<char> {
        match self {
            RuleType::Simple => "simple"@,
            RuleType::Regexp => "regexp"@,
        }
    }

    /// Wire name of the rule type.
    pub fn get_str(&self) -> (s: &'static str)
        ensures
            s@ == self.name(),
    {
        match self {
            RuleType::Simple => "simple",
            RuleType::Regexp => "regexp",
        }
    }
}

/// The connection attribute that an operator looks at.
#[derive(Clone, Copy, Debug, PartialEq, Eq, Structural)]
pub enum Operand {
    UserId,
    ProcessPath,
    DstIp,
    DstPort,
    Protocol,
    DstHost,
}

impl Operand {
    /// Wire name of the operand.
    pub open spec fn name(self) -> Seq<char> {
        match self {
            Operand::UserId => "user.id"@,
            Operand::ProcessPath => "process.path"@,
            Operand::DstIp => "dest.ip"@,
            Operand::DstPort => "dest.port"@,
            Operand::Protocol => "protocol"@,
            Operand::DstHost => "dest.host"@,
        }
    }

    /// Position of the operand in the order in which rules list their
    /// operators.
    pub open spec fn rank(self) -> nat {
        match self {
            Operand::UserId => 0,
            Operand::ProcessPath => 1,
            Operand::DstIp => 2,
            Operand::DstPort => 3,
            Operand::Protocol => 4,
            Operand::DstHost => 5,
        }
    }

    /// Wire name of the operand.
    pub fn get_str(&self) -> (s: &'static str)
        ensures
            s@ == self.name(),
    {
        match self {
            Operand::UserId => "user.id",
            Operand::ProcessPath => "process.path",
            Operand::DstIp => "dest.ip",
            Operand::DstPort => "dest.port",
            Operand::Protocol => "protocol",
            Operand::DstHost => "dest.host",
        }
    }
}

/// One clause of a firewall rule.
#[derive(Debug, PartialEq, Eq)]
pub struct Operator {
    pub kind: RuleType,
    pub operand: Operand,
    /// Literal value or pattern, depending on `kind`.
    pub data: String,
    /// Whether `data` must be kept out of logs.
    pub sensitive: bool,
    /// Operators of a compound operator.
    pub list: Vec<Operator>,
}

/// Mathematical value of an [`Operator`].
pub ghost struct OperatorView {
    pub kind: RuleType,
    pub operand: Operand,
    pub data: Seq<char>,
    pub sensitive: bool,
    pub list: Seq<OperatorView>,
}

impl Operator {
    /// The mathematical value of the operator and, through `list`, of the
    /// operators nested in it.
    pub open spec fn value(&self) -> OperatorView
        decreases self,
    {
        OperatorView {
            kind: self.kind,
            operand: self.operand,
            data: self.data@,
            sensitive: self.sensitive,
            list: Seq::new(
                self.list@.len(),
                |i: int|
                    if 0 <= i < self.list.len() {
                        self.list[i].value()
                    } else {
                        arbitrary()
                    },
            ),
        }
    }
}

impl View for Operator {
    type V = OperatorView;

    open spec fn view(&self) -> OperatorView {
        self.value()
    }
}

/// The views of a sequence of operators, in order.
pub open spec fn operator_views(ops: Seq<Operator>) -> Seq<OperatorView> {
    Seq::new(ops.len(), |i: int| ops[i]@)
}

impl Clone for Operator {
    fn clone(&self) -> (copy: Operator)
        ensures
            copy@ == self@,
        decreases self,
    {
        let mut list: Vec<Operator> = Vec::new();
        let mut i: usize = 0;
        while i < self.list.len()
            invariant
                i <= self.list.len(),
                list.len() == i,
                forall|j: int| 0 <= j < i ==> list[j]@ == self.list[j]@,
            decreases self.list.len() - i,
        {
            list.push(self.list[i].clone());
            i += 1;
        }
        let copy = Operator {
            kind: self.kind,
            operand: self.operand,
            data: self.data.clone(),
            sensitive: self.sensitive,
            list,
        };
        assert(copy@.list =~= self@.list);
        copy
    }
}

/// The value of one field of a serialized operator.
#[derive(Debug)]
pub enum FieldValue<'a> {
    Text(&'a str),
    Flag(bool),
    Operators(&'a Vec<Operator>),
}

/// One field of a serialized operator.
#[derive(Debug)]
pub struct Field<'a> {
    pub name: &'static str,
    pub value: FieldValue<'a>,
}

/// Mathematical value of a [`FieldValue`].
pub ghost enum FieldValueView {
    Text(Seq<char>),
    Flag(bool),
    Operators(Seq<OperatorView>),
}

/// Mathematical value of a [`Field`].
pub ghost struct FieldView {
    pub name: Seq<char>,
    pub value: FieldValueView,
}

impl<'a> View for Field<'a> {
    type V = FieldView;

    open spec fn view(&self) -> FieldView {
        FieldView {
            name: self.name@,
            value: match self.value {
                FieldValue::Text(t) => FieldValueView::Text(t@),
                FieldValue::Flag(b) => FieldValueView::Flag(b),
                FieldValue::Operators(ops) => FieldValueView::Operators(operator_views(ops@)),
            },
        }
    }
}

/// The views of a sequence of fields, in order.
pub open spec fn field_views(fields: Seq<Field>) -> Seq<FieldView> {
    Seq::new(fields.len(), |i: int| fields[i]@)
}

impl OperatorView {
    /// The serialized form of an operator: the fields `type`, `operand`,
    /// `data`, `sensitive` and `list`, in this order; rule type and
    /// operand by their wire names.
    pub open spec fn record(self) -> Seq<FieldView> {
        seq![
            FieldView { name: "type"@, value: FieldValueView::Text(self.kind.name()) },
            FieldView { name: "operand"@, value: FieldValueView::Text(self.operand.name()) },
            FieldView { name: "data"@, value: FieldValueView::Text(self.data) },
            FieldView { name: "sensitive"@, value: FieldValueView::Flag(self.sensitive) },
            FieldView { name: "list"@, value: FieldValueView::Operators(self.list) },
        ]
    }
}

impl Operator {
    /// The fields of the serialized form of the operator, in their order.
    pub fn serialized_fields(&self) -> (fields: Vec<Field<'_>>)
        ensures
            field_views(fields@) == self@.record(),
    {
        let mut fields: Vec<Field<'_>> = Vec::new();
        fields.push(Field { name: "type", value: FieldValue::Text(self.kind.get_str()) });
        fields.push(Field { name: "operand", value: FieldValue::Text(self.operand.get_str()) });
        fields.push(Field { name: "data", value: FieldValue::Text(self.data.as_str()) });
        fields.push(Field { name: "sensitive", value: FieldValue::Flag(self.sensitive) });
        fields.push(Field { name: "list", value: FieldValue::Operators(&self.list) });
        assert(operator_views(self.list@) =~= self@.list);
        fields
    }
}

} // verus!
