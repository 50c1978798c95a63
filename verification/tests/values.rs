use dbml::ast::{Decimal, IndexesType, Relation, RelationAction, Value};
use dbml::cst::{CstNode, Rule, Span};
use dbml::err::{AttributeContext, ParsingError};
use dbml::literals::{str_eq, str_to_decimal, str_to_i32};
use dbml::parser::parse_value;

fn node(rule: Rule, text: &str, children: Vec<CstNode>) -> CstNode {
    CstNode { rule, text: text.to_string(), span: Span { start: 0, end: 0 }, children }
}

fn integer_value(text: &str) -> CstNode {
    node(
        Rule::Value,
        text,
        vec![node(Rule::NumberValue, text, vec![node(Rule::Integer, text, vec![])])],
    )
}

fn decimal_value(text: &str) -> CstNode {
    node(
        Rule::Value,
        text,
        vec![node(Rule::NumberValue, text, vec![node(Rule::Decimal, text, vec![])])],
    )
}

fn boolean_value(text: &str) -> CstNode {
    node(
        Rule::Value,
        text,
        vec![node(Rule::BooleanValue, text, vec![node(Rule::Var, text, vec![])])],
    )
}

#[test]
fn integer_literal_becomes_integer() {
    match parse_value(&integer_value("42")).unwrap() {
        Value::Integer(v) => assert_eq!(v, 42),
        other => panic!("unexpected value {:?}", other),
    }
}

#[test]
fn decimal_literal_becomes_decimal() {
    // 3.14 is held as mantissa 314 at scale 2.
    match parse_value(&decimal_value("3.14")).unwrap() {
        Value::Decimal(d) => assert_eq!(d, Decimal { mantissa: 314, scale: 2 }),
        other => panic!("unexpected value {:?}", other),
    }
}

#[test]
fn boolean_literals_become_bool_and_null() {
    match parse_value(&boolean_value("true")).unwrap() {
        Value::Bool(b) => assert!(b),
        other => panic!("unexpected value {:?}", other),
    }
    match parse_value(&boolean_value("false")).unwrap() {
        Value::Bool(b) => assert!(!b),
        other => panic!("unexpected value {:?}", other),
    }
    match parse_value(&boolean_value("null")).unwrap() {
        Value::Null => {},
        other => panic!("unexpected value {:?}", other),
    }
}

#[test]
fn bad_boolean_literal_is_named() {
    let v = node(
        Rule::Value,
        "maybe",
        vec![node(
            Rule::BooleanValue,
            "maybe",
            vec![CstNode {
                rule: Rule::Var,
                text: "maybe".to_string(),
                span: Span { start: 9, end: 14 },
                children: vec![],
            }],
        )],
    );
    match parse_value(&v).unwrap_err() {
        ParsingError::InvalidAttribute { context, text, span } => {
            assert_eq!(context, AttributeContext::BooleanLiteral);
            assert_eq!(text, "maybe");
            assert_eq!(span, Span { start: 9, end: 14 });
        },
        other => panic!("unexpected error {:?}", other),
    }
}

#[test]
fn quoted_string_keeps_exact_inner_content() {
    let v = node(
        Rule::Value,
        "'a  b'",
        vec![node(
            Rule::StringValue,
            "'a  b'",
            vec![node(
                Rule::SingleQuotedString,
                "'a  b'",
                vec![node(Rule::SingleQuotedValue, "a  b", vec![])],
            )],
        )],
    );
    match parse_value(&v).unwrap() {
        Value::String(s) => assert_eq!(s, "a  b"),
        other => panic!("unexpected value {:?}", other),
    }
}

#[test]
fn triple_quoted_string_is_raw() {
    let v = node(
        Rule::Value,
        "",
        vec![node(
            Rule::StringValue,
            "",
            vec![node(
                Rule::TripleQuotedString,
                "",
                vec![node(Rule::TripleQuotedValue, "line one\nline two", vec![])],
            )],
        )],
    );
    match parse_value(&v).unwrap() {
        Value::String(s) => assert_eq!(s, "line one\nline two"),
        other => panic!("unexpected value {:?}", other),
    }
}

#[test]
fn out_of_range_integer_literal_is_an_error_not_a_panic() {
    match parse_value(&integer_value("99999999999")).unwrap_err() {
        ParsingError::InvalidAttribute { context, text, .. } => {
            assert_eq!(context, AttributeContext::IntegerLiteral);
            assert_eq!(text, "99999999999");
        },
        other => panic!("unexpected error {:?}", other),
    }
}

#[test]
fn integer_conversion_is_checked() {
    assert_eq!(str_to_i32("42"), Some(42));
    assert_eq!(str_to_i32("-17"), Some(-17));
    assert_eq!(str_to_i32("+17"), Some(17));
    assert_eq!(str_to_i32("0"), Some(0));
    assert_eq!(str_to_i32("-0"), Some(0));
    assert_eq!(str_to_i32("2147483647"), Some(i32::MAX));
    assert_eq!(str_to_i32("-2147483648"), Some(i32::MIN));
    assert_eq!(str_to_i32("2147483648"), None);
    assert_eq!(str_to_i32("-2147483649"), None);
    assert_eq!(str_to_i32("99999999999999999999"), None);
    assert_eq!(str_to_i32(""), None);
    assert_eq!(str_to_i32("-"), None);
    assert_eq!(str_to_i32("12a"), None);
    assert_eq!(str_to_i32("1.5"), None);
}

#[test]
fn decimal_conversion_is_checked() {
    assert_eq!(str_to_decimal("3.14"), Some(Decimal { mantissa: 314, scale: 2 }));
    assert_eq!(str_to_decimal("-0.5"), Some(Decimal { mantissa: -5, scale: 1 }));
    assert_eq!(str_to_decimal("10"), Some(Decimal { mantissa: 10, scale: 0 }));
    assert_eq!(str_to_decimal("1."), Some(Decimal { mantissa: 1, scale: 0 }));
    assert_eq!(str_to_decimal(".5"), Some(Decimal { mantissa: 5, scale: 1 }));
    assert_eq!(str_to_decimal("3.140"), Some(Decimal { mantissa: 3140, scale: 3 }));
    assert_eq!(str_to_decimal(""), None);
    assert_eq!(str_to_decimal("."), None);
    assert_eq!(str_to_decimal("1.2.3"), None);
    assert_eq!(str_to_decimal("1e5"), None);
    assert_eq!(str_to_decimal("21474836470.0"), None);
}

#[test]
fn string_equality_is_exact() {
    assert!(str_eq("abc", "abc"));
    assert!(!str_eq("abc", "abd"));
    assert!(!str_eq("abc", "abcd"));
    assert!(str_eq("", ""));
}

#[test]
fn relation_tokens_resolve() {
    assert_eq!(Relation::match_type("<"), Relation::OneToMany);
    assert_eq!(Relation::match_type(">"), Relation::ManyToOne);
    assert_eq!(Relation::match_type("-"), Relation::OneToOne);
    assert_eq!(Relation::match_type("<>"), Relation::ManyToMany);
    assert_eq!(Relation::match_type("=>"), Relation::Undef);
}

#[test]
fn relation_action_tokens_resolve() {
    assert_eq!(RelationAction::match_type("cascade"), RelationAction::Cascade);
    assert_eq!(RelationAction::match_type("restrict"), RelationAction::Restrict);
    assert_eq!(RelationAction::match_type("set null"), RelationAction::SetNull);
    assert_eq!(RelationAction::match_type("set default"), RelationAction::SetDefault);
    assert_eq!(RelationAction::match_type("no action"), RelationAction::NoAction);
    assert_eq!(RelationAction::match_type("explode"), RelationAction::Undef);
}

#[test]
fn indexes_type_tokens_resolve() {
    assert_eq!(IndexesType::match_type("btree"), IndexesType::BTree);
    assert_eq!(IndexesType::match_type("hash"), IndexesType::Hash);
    assert_eq!(IndexesType::match_type("gin"), IndexesType::Undef);
}

#[test]
fn later_string_alternative_wins() {
    // A string value with several quoted alternatives keeps the last one.
    let v = node(
        Rule::Value,
        "",
        vec![node(
            Rule::StringValue,
            "",
            vec![
                node(
                    Rule::SingleQuotedString,
                    "'first'",
                    vec![node(Rule::SingleQuotedValue, "first", vec![])],
                ),
                node(
                    Rule::TripleQuotedString,
                    "'''second'''",
                    vec![node(Rule::TripleQuotedValue, "second", vec![])],
                ),
            ],
        )],
    );
    match parse_value(&v).unwrap() {
        Value::String(s) => assert_eq!(s, "second"),
        other => panic!("unexpected value {:?}", other),
    }
}

#[test]
fn empty_value_node_is_a_contract_violation() {
    let v = node(Rule::Value, "", vec![]);
    match parse_value(&v).unwrap_err() {
        ParsingError::ContractViolation { rule, .. } => assert_eq!(rule, Rule::Value),
        other => panic!("unexpected error {:?}", other),
    }
}

#[test]
fn wrong_rule_inside_value_is_rejected() {
    let v = node(Rule::Value, "x", vec![node(Rule::Var, "x", vec![])]);
    match parse_value(&v).unwrap_err() {
        ParsingError::UnexpectedRule { expected, found, .. } => {
            assert_eq!(expected, vec![Rule::StringValue, Rule::NumberValue, Rule::BooleanValue]);
            assert_eq!(found, Rule::Var);
        },
        other => panic!("unexpected error {:?}", other),
    }
}
