use opensnitch_tui::operator::{FieldValue, Operand, Operator, RuleType};
use serde::ser::{Serialize, SerializeStruct, Serializer};

/// Serializes an operator field by field, as the library lists them.
struct Record<'a>(&'a Operator);

impl Serialize for Record<'_> {
    fn serialize<S>(&self, serializer: S) -> Result<S::Ok, S::Error>
    where
        S: Serializer,
    {
        let fields = self.0.serialized_fields();
        let mut state = serializer.serialize_struct("Operator", fields.len())?;
        for field in &fields {
            match &field.value {
                FieldValue::Text(text) => state.serialize_field(field.name, text)?,
                FieldValue::Flag(flag) => state.serialize_field(field.name, flag)?,
                FieldValue::Operators(list) => {
                    let nested: Vec<Record<'_>> = list.iter().map(Record).collect();
                    state.serialize_field(field.name, &nested)?
                }
            }
        }
        state.end()
    }
}

/// Test Operator JSON serialization.
#[test]
fn test_operator_serialize() {
    let input = Operator {
        kind: RuleType::Simple,
        operand: Operand::Protocol,
        data: String::from("tcp"),
        sensitive: false,
        list: Vec::default(),
    };
    assert_eq!(input.kind.get_str(), "simple");
    assert_eq!(input.operand.get_str(), "protocol");
    let output = serde_json::to_string(&Record(&input)).expect("failed serialize struct to json");
    let expected_output = String::from(
        "{\"type\":\"simple\",\"operand\":\"protocol\",\
        \"data\":\"tcp\",\"sensitive\":false,\"list\":[]}",
    );
    assert_eq!(output, expected_output);
}

#[test]
fn test_operator_serialize_nested() {
    let inner = Operator {
        kind: RuleType::Regexp,
        operand: Operand::DstHost,
        data: String::from("a\"b"),
        sensitive: true,
        list: Vec::default(),
    };
    let outer = Operator {
        kind: RuleType::Simple,
        operand: Operand::UserId,
        data: String::from("0"),
        sensitive: false,
        list: vec![inner],
    };
    let output = serde_json::to_string(&Record(&outer)).unwrap();
    assert_eq!(
        output,
        "{\"type\":\"simple\",\"operand\":\"user.id\",\"data\":\"0\",\"sensitive\":false,\
         \"list\":[{\"type\":\"regexp\",\"operand\":\"dest.host\",\"data\":\"a\\\"b\",\
         \"sensitive\":true,\"list\":[]}]}"
    );
}

#[test]
fn test_serialized_fields_order() {
    let op = Operator {
        kind: RuleType::Regexp,
        operand: Operand::DstPort,
        data: String::from("44[0-9]"),
        sensitive: true,
        list: Vec::default(),
    };
    let fields = op.serialized_fields();
    let names: Vec<&str> = fields.iter().map(|f| f.name).collect();
    assert_eq!(names, vec!["type", "operand", "data", "sensitive", "list"]);
    assert!(matches!(fields[0].value, FieldValue::Text("regexp")));
    assert!(matches!(fields[1].value, FieldValue::Text("dest.port")));
    assert!(matches!(fields[2].value, FieldValue::Text("44[0-9]")));
    assert!(matches!(fields[3].value, FieldValue::Flag(true)));
    assert!(matches!(fields[4].value, FieldValue::Operators(list) if list.is_empty()));
}

#[test]
fn test_wire_names() {
    assert_eq!(RuleType::Simple.get_str(), "simple");
    assert_eq!(RuleType::Regexp.get_str(), "regexp");
    assert_eq!(Operand::UserId.get_str(), "user.id");
    assert_eq!(Operand::ProcessPath.get_str(), "process.path");
    assert_eq!(Operand::DstIp.get_str(), "dest.ip");
    assert_eq!(Operand::DstPort.get_str(), "dest.port");
    assert_eq!(Operand::Protocol.get_str(), "protocol");
    assert_eq!(Operand::DstHost.get_str(), "dest.host");
}
