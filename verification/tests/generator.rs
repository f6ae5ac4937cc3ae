use opensnitch_tui::operator::{Operand, Operator, RuleType};
use opensnitch_tui::operator_util::{match_any_subdomain_hostname, GeneratedOperatorsInputs};
use opensnitch_tui::presets::{MatchHostname, PresetCombination};
use regex::Regex;
use std::collections::HashMap;

fn sample_input() -> GeneratedOperatorsInputs {
    GeneratedOperatorsInputs {
        user_id: Some(123),
        ppath: Some("/bin/nc".to_string()),
        dst_ip: Some("1.2.3.4".to_string()),
        dst_port: Some(567),
        protocol: Some("tcp".to_string()),
        hostname: None,
    }
}

/// Sanity test regex for hostname subdomains matching.
#[test]
fn test_match_any_subdomain_hostname() {
    // Map of <Test key> to <whether match expected>
    let mut tests = HashMap::new();
    tests.insert("example.com", true);
    tests.insert("www.example.com", true);
    tests.insert("w1.w2.example.com", true);
    tests.insert("bexample.com", false);
    tests.insert("example-com.com", false);
    tests.insert("hello.bexample.com", false);

    // Test subdomain matching on "example.com"
    let op = match_any_subdomain_hostname(&"example.com".to_string());
    assert_eq!(op.kind.get_str(), "regexp");
    assert_eq!(op.operand.get_str(), "dest.host");
    assert_eq!(op.sensitive, false);
    assert_eq!(op.list, Vec::default());

    let test_re = Regex::new(op.data.as_str()).expect("Bad regex");
    for (test_key, match_expected) in tests {
        println!("Testing: {test_key} expected: {match_expected}");
        assert_eq!(test_re.is_match(test_key), match_expected);
    }
}

/// Test operator generator for a single op.
#[test]
fn test_generator_single() {
    let input = sample_input();

    let mut combo = PresetCombination::default();
    combo.exact_dst_ip = true;

    let expected_out = vec![Operator {
        kind: RuleType::Simple,
        operand: Operand::DstIp,
        data: "1.2.3.4".to_string(),
        sensitive: false,
        list: Vec::default(),
    }];

    let out = input.generate_operators(&combo);

    assert_eq!(out, expected_out);
    assert_eq!(out[0].kind.get_str(), "simple");
    assert_eq!(out[0].operand.get_str(), "dest.ip");
}

/// Test operator generator for many ops.
#[test]
fn test_generator_many() {
    let input = sample_input();

    let mut combo = PresetCombination::default();
    combo.exact_dst_ip = true;
    combo.exact_dst_port = true;

    let expected_out = vec![
        Operator {
            kind: RuleType::Simple,
            operand: Operand::DstIp,
            data: "1.2.3.4".to_string(),
            sensitive: false,
            list: Vec::default(),
        },
        Operator {
            kind: RuleType::Simple,
            operand: Operand::DstPort,
            data: "567".to_string(),
            sensitive: false,
            list: Vec::default(),
        },
    ];

    let out = input.generate_operators(&combo);

    assert_eq!(out, expected_out);
}

/// Test operator generator for a single op, but missing data.
#[test]
fn test_generator_single_missing_data() {
    let input = sample_input();

    let mut combo = PresetCombination::default();
    combo.match_hostname = MatchHostname::Exact;

    let expected_out: Vec<Operator> = vec![];

    let out = input.generate_operators(&combo);

    assert_eq!(out, expected_out);
}

/// Every preset on and every attribute known: six operators in the fixed order.
#[test]
fn test_generator_all_presets_in_order() {
    let mut input = sample_input();
    input.hostname = Some("example.com".to_string());

    let combo = PresetCombination {
        exact_user_id: true,
        exact_ppath: true,
        exact_dst_ip: true,
        exact_dst_port: true,
        exact_protocol: true,
        match_hostname: MatchHostname::Exact,
    };

    let out = input.generate_operators(&combo);
    let operands: Vec<&str> = out.iter().map(|op| op.operand.get_str()).collect();
    assert_eq!(
        operands,
        vec!["user.id", "process.path", "dest.ip", "dest.port", "protocol", "dest.host"]
    );
    let data: Vec<&str> = out.iter().map(|op| op.data.as_str()).collect();
    assert_eq!(data, vec!["123", "/bin/nc", "1.2.3.4", "567", "tcp", "example.com"]);
    for op in &out {
        assert_eq!(op.kind, RuleType::Simple);
        assert_eq!(op.sensitive, false);
        assert!(op.list.is_empty());
    }
}

/// One operator per preset that is on and whose attribute is known, for
/// every subset of presets and of known attributes.
#[test]
fn test_generator_every_subset() {
    for toggles in 0u32..32 {
        for present in 0u32..32 {
            for mode in 0..3 {
                for host in 0..2 {
                    let combo = PresetCombination {
                        exact_user_id: toggles & 1 != 0,
                        exact_ppath: toggles & 2 != 0,
                        exact_dst_ip: toggles & 4 != 0,
                        exact_dst_port: toggles & 8 != 0,
                        exact_protocol: toggles & 16 != 0,
                        match_hostname: match mode {
                            0 => MatchHostname::Disabled,
                            1 => MatchHostname::Exact,
                            _ => MatchHostname::AnySubdomain,
                        },
                    };
                    let input = GeneratedOperatorsInputs {
                        user_id: if present & 1 != 0 { Some(7) } else { None },
                        ppath: if present & 2 != 0 { Some("/p".to_string()) } else { None },
                        dst_ip: if present & 4 != 0 { Some("::1".to_string()) } else { None },
                        dst_port: if present & 8 != 0 { Some(53) } else { None },
                        protocol: if present & 16 != 0 { Some("udp".to_string()) } else { None },
                        hostname: if host == 1 { Some("a.b".to_string()) } else { None },
                    };
                    let mut expected: Vec<Operand> = Vec::new();
                    let order = [
                        Operand::UserId,
                        Operand::ProcessPath,
                        Operand::DstIp,
                        Operand::DstPort,
                        Operand::Protocol,
                    ];
                    for (bit, operand) in order.iter().enumerate() {
                        if toggles & present & (1 << bit) != 0 {
                            expected.push(*operand);
                        }
                    }
                    if mode != 0 && host == 1 {
                        expected.push(Operand::DstHost);
                    }
                    let out = input.generate_operators(&combo);
                    let operands: Vec<Operand> = out.iter().map(|op| op.operand).collect();
                    assert_eq!(operands, expected);
                }
            }
        }
    }
}

#[test]
fn test_generator_hostname_modes() {
    let mut input = GeneratedOperatorsInputs::default();
    input.hostname = Some("example.com".to_string());

    let mut combo = PresetCombination::default();
    assert_eq!(input.generate_operators(&combo), Vec::<Operator>::new());

    combo.match_hostname = MatchHostname::Exact;
    assert_eq!(
        input.generate_operators(&combo),
        vec![Operator {
            kind: RuleType::Simple,
            operand: Operand::DstHost,
            data: "example.com".to_string(),
            sensitive: false,
            list: Vec::default(),
        }]
    );

    combo.match_hostname = MatchHostname::AnySubdomain;
    assert_eq!(
        input.generate_operators(&combo),
        vec![Operator {
            kind: RuleType::Regexp,
            operand: Operand::DstHost,
            data: "(?:^|\\.)example\\.com$".to_string(),
            sensitive: false,
            list: Vec::default(),
        }]
    );
}

#[test]
fn test_generator_numbers_in_decimal() {
    let input = GeneratedOperatorsInputs {
        user_id: Some(0),
        ppath: None,
        dst_ip: None,
        dst_port: Some(u32::MAX),
        protocol: None,
        hostname: None,
    };
    let mut combo = PresetCombination::default();
    combo.exact_user_id = true;
    combo.exact_dst_port = true;
    let out = input.generate_operators(&combo);
    assert_eq!(out.len(), 2);
    assert_eq!(out[0].data, "0");
    assert_eq!(out[1].data, "4294967295");
}

#[test]
fn test_subdomain_pattern_escapes_every_dot() {
    assert_eq!(match_any_subdomain_hostname("a.b.c").data, "(?:^|\\.)a\\.b\\.c$");
    assert_eq!(match_any_subdomain_hostname("localhost").data, "(?:^|\\.)localhost$");
    assert_eq!(match_any_subdomain_hostname("").data, "(?:^|\\.)$");
}

#[test]
fn test_operator_clone_is_equal() {
    let inner = match_any_subdomain_hostname("example.com");
    let outer = Operator {
        kind: RuleType::Simple,
        operand: Operand::Protocol,
        data: "tcp".to_string(),
        sensitive: true,
        list: vec![inner],
    };
    assert_eq!(outer.clone(), outer);
}
