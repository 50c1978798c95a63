use dbml::cst::{Rule, Span};
use dbml::err::{AttributeContext, ParsingError};
use dbml::report::{render_error, rule_name_str, usize_str};

#[test]
fn numbers_render_in_decimal() {
    assert_eq!(usize_str(0), "0");
    assert_eq!(usize_str(7), "7");
    assert_eq!(usize_str(10), "10");
    assert_eq!(usize_str(1234567890), "1234567890");
}

#[test]
fn rule_names_match_the_grammar_vocabulary() {
    assert_eq!(rule_name_str(Rule::Schema), "schema");
    assert_eq!(rule_name_str(Rule::TableDecl), "table_decl");
    assert_eq!(rule_name_str(Rule::ColAttribute), "col_attribute");
    assert_eq!(rule_name_str(Rule::Eoi), "EOI");
}

#[test]
fn unexpected_rule_message_names_everything() {
    let e = ParsingError::UnexpectedRule {
        expected: vec![Rule::ProjectStmt, Rule::NoteDecl],
        found: Rule::Var,
        text: "oops".to_string(),
        span: Span { start: 12, end: 16 },
    };
    assert_eq!(
        render_error(&e),
        "unexpected rule var 'oops' at 12..16; expected one of: project_stmt, note_decl",
    );
}

#[test]
fn unexpected_rule_message_with_one_alternative() {
    let e = ParsingError::UnexpectedRule {
        expected: vec![Rule::ColAttribute],
        found: Rule::Ident,
        text: "x".to_string(),
        span: Span { start: 0, end: 1 },
    };
    assert_eq!(
        render_error(&e),
        "unexpected rule ident 'x' at 0..1; expected one of: col_attribute",
    );
}

#[test]
fn invalid_attribute_message_names_the_text() {
    let e = ParsingError::InvalidAttribute {
        context: AttributeContext::ProjectKey,
        text: "foo".to_string(),
        span: Span { start: 5, end: 15 },
    };
    assert_eq!(render_error(&e), "'foo' key is invalid inside project_block at 5..15");

    let e = ParsingError::InvalidAttribute {
        context: AttributeContext::ColumnAttribute,
        text: "wat".to_string(),
        span: Span { start: 3, end: 6 },
    };
    assert_eq!(render_error(&e), "'wat' is not the valid attribute for col_attribute at 3..6");

    let e = ParsingError::InvalidAttribute {
        context: AttributeContext::BooleanLiteral,
        text: "maybe".to_string(),
        span: Span { start: 9, end: 14 },
    };
    assert_eq!(render_error(&e), "'maybe' is incompatible with boolean value at 9..14");

    let e = ParsingError::InvalidAttribute {
        context: AttributeContext::IndexesAttribute,
        text: "fast".to_string(),
        span: Span { start: 1, end: 5 },
    };
    assert_eq!(render_error(&e), "'fast' key is invalid inside indexes_attribute at 1..5");

    let e = ParsingError::InvalidAttribute {
        context: AttributeContext::IntegerLiteral,
        text: "99999999999".to_string(),
        span: Span { start: 0, end: 11 },
    };
    assert_eq!(
        render_error(&e),
        "'99999999999' is not a valid 32-bit integer literal at 0..11",
    );
}

#[test]
fn contract_violation_message_names_the_rule() {
    let e = ParsingError::ContractViolation { rule: Rule::DeclIdent, span: Span { start: 7, end: 12 } };
    assert_eq!(
        render_error(&e),
        "internal contract violation inside rule decl_ident at 7..12",
    );
}
