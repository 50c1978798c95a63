//! The diagnostic reporter: renders a reduction failure into a
//! human-readable message naming the construct, the rule kinds that would
//! have been legal, the rule kind actually found, its literal source
//! text, and its byte span. Pure formatting: it never classifies or
//! recovers errors, only describes them.

use vstd::prelude::*;

use crate::cst::Rule;
use crate::err::{AttributeContext, ParsingError, SpecParsingError};

verus! {

/// The grammar's name for a rule kind.
pub open spec fn rule_name(r: Rule) -> Seq<char> {
    match r {
        Rule::Schema => "schema"@,
        Rule::ProjectDecl => "project_decl"@,
        Rule::ProjectBlock => "project_block"@,
        Rule::ProjectStmt => "project_stmt"@,
        Rule::ProjectKey => "project_key"@,
        Rule::TableDecl => "table_decl"@,
        Rule::TableAlias => "table_alias"@,
        Rule::TableBlock => "table_block"@,
        Rule::TableCol => "table_col"@,
        Rule::ColType => "col_type"@,
        Rule::ColTypeSingle => "col_type_single"@,
        Rule::ColTypeArray => "col_type_array"@,
        Rule::ColTypeArg => "col_type_arg"@,
        Rule::ColSettings => "col_settings"@,
        Rule::ColAttribute => "col_attribute"@,
        Rule::ColDefault => "col_default"@,
        Rule::EnumDecl => "enum_decl"@,
        Rule::EnumBlock => "enum_block"@,
        Rule::EnumValue => "enum_value"@,
        Rule::EnumSettings => "enum_settings"@,
        Rule::EnumAttribute => "enum_attribute"@,
        Rule::RefDecl => "ref_decl"@,
        Rule::RefBlock => "ref_block"@,
        Rule::RefShort => "ref_short"@,
        Rule::RefStmt => "ref_stmt"@,
        Rule::RefInline => "ref_inline"@,
        Rule::RefIdent => "ref_ident"@,
        Rule::RefComposition => "ref_composition"@,
        Rule::Relation => "relation"@,
        Rule::RelSettings => "rel_settings"@,
        Rule::RelAttribute => "rel_attribute"@,
        Rule::RelUpdate => "rel_update"@,
        Rule::RelDelete => "rel_delete"@,
        Rule::TableGroupDecl => "table_group_decl"@,
        Rule::TableGroupBlock => "table_group_block"@,
        Rule::IndexesDecl => "indexes_decl"@,
        Rule::IndexesBlock => "indexes_block"@,
        Rule::IndexesSingle => "indexes_single"@,
        Rule::IndexesMulti => "indexes_multi"@,
        Rule::IndexesIdent => "indexes_ident"@,
        Rule::IndexesSettings => "indexes_settings"@,
        Rule::IndexesAttribute => "indexes_attribute"@,
        Rule::IndexesType => "indexes_type"@,
        Rule::IndexesName => "indexes_name"@,
        Rule::NoteDecl => "note_decl"@,
        Rule::NoteShort => "note_short"@,
        Rule::NoteBlock => "note_block"@,
        Rule::NoteInline => "note_inline"@,
        Rule::Value => "value"@,
        Rule::StringValue => "string_value"@,
        Rule::NumberValue => "number_value"@,
        Rule::BooleanValue => "boolean_value"@,
        Rule::Decimal => "decimal"@,
        Rule::Integer => "integer"@,
        Rule::Ident => "ident"@,
        Rule::DeclIdent => "decl_ident"@,
        Rule::Var => "var"@,
        Rule::DoubleQuotedString => "double_quoted_string"@,
        Rule::DoubleQuotedValue => "double_quoted_value"@,
        Rule::SingleQuotedString => "single_quoted_string"@,
        Rule::SingleQuotedValue => "single_quoted_value"@,
        Rule::TripleQuotedString => "triple_quoted_string"@,
        Rule::TripleQuotedValue => "triple_quoted_value"@,
        Rule::BackquotedQuotedString => "backquoted_quoted_string"@,
        Rule::BackquotedQuotedValue => "backquoted_quoted_value"@,
        Rule::Eoi => "EOI"@,
    }
}

/// The grammar's name for a rule kind, as a string slice.
pub fn rule_name_str(r: Rule) -> (s: &'static str)
    ensures
        s@ == rule_name(r),
{
    match r {
        Rule::Schema => "schema",
        Rule::ProjectDecl => "project_decl",
        Rule::ProjectBlock => "project_block",
        Rule::ProjectStmt => "project_stmt",
        Rule::ProjectKey => "project_key",
        Rule::TableDecl => "table_decl",
        Rule::TableAlias => "table_alias",
        Rule::TableBlock => "table_block",
        Rule::TableCol => "table_col",
        Rule::ColType => "col_type",
        Rule::ColTypeSingle => "col_type_single",
        Rule::ColTypeArray => "col_type_array",
        Rule::ColTypeArg => "col_type_arg",
        Rule::ColSettings => "col_settings",
        Rule::ColAttribute => "col_attribute",
        Rule::ColDefault => "col_default",
        Rule::EnumDecl => "enum_decl",
        Rule::EnumBlock => "enum_block",
        Rule::EnumValue => "enum_value",
        Rule::EnumSettings => "enum_settings",
        Rule::EnumAttribute => "enum_attribute",
        Rule::RefDecl => "ref_decl",
        Rule::RefBlock => "ref_block",
        Rule::RefShort => "ref_short",
        Rule::RefStmt => "ref_stmt",
        Rule::RefInline => "ref_inline",
        Rule::RefIdent => "ref_ident",
        Rule::RefComposition => "ref_composition",
        Rule::Relation => "relation",
        Rule::RelSettings => "rel_settings",
        Rule::RelAttribute => "rel_attribute",
        Rule::RelUpdate => "rel_update",
        Rule::RelDelete => "rel_delete",
        Rule::TableGroupDecl => "table_group_decl",
        Rule::TableGroupBlock => "table_group_block",
        Rule::IndexesDecl => "indexes_decl",
        Rule::IndexesBlock => "indexes_block",
        Rule::IndexesSingle => "indexes_single",
        Rule::IndexesMulti => "indexes_multi",
        Rule::IndexesIdent => "indexes_ident",
        Rule::IndexesSettings => "indexes_settings",
        Rule::IndexesAttribute => "indexes_attribute",
        Rule::IndexesType => "indexes_type",
        Rule::IndexesName => "indexes_name",
        Rule::NoteDecl => "note_decl",
        Rule::NoteShort => "note_short",
        Rule::NoteBlock => "note_block",
        Rule::NoteInline => "note_inline",
        Rule::Value => "value",
        Rule::StringValue => "string_value",
        Rule::NumberValue => "number_value",
        Rule::BooleanValue => "boolean_value",
        Rule::Decimal => "decimal",
        Rule::Integer => "integer",
        Rule::Ident => "ident",
        Rule::DeclIdent => "decl_ident",
        Rule::Var => "var",
        Rule::DoubleQuotedString => "double_quoted_string",
        Rule::DoubleQuotedValue => "double_quoted_value",
        Rule::SingleQuotedString => "single_quoted_string",
        Rule::SingleQuotedValue => "single_quoted_value",
        Rule::TripleQuotedString => "triple_quoted_string",
        Rule::TripleQuotedValue => "triple_quoted_value",
        Rule::BackquotedQuotedString => "backquoted_quoted_string",
        Rule::BackquotedQuotedValue => "backquoted_quoted_value",
        Rule::Eoi => "EOI",
    }
}

/// The character for one decimal digit.
pub open spec fn digit_char(d: nat) -> char {
    if d == 0 {
        '0'
    } else if d == 1 {
        '1'
    } else if d == 2 {
        '2'
    } else if d == 3 {
        '3'
    } else if d == 4 {
        '4'
    } else if d == 5 {
        '5'
    } else if d == 6 {
        '6'
    } else if d == 7 {
        '7'
    } else if d == 8 {
        '8'
    } else {
        '9'
    }
}

/// The decimal digit string of a number, most significant digit first.
pub open spec fn dec_digits(n: nat) -> Seq<char>
    decreases n,
{
    if n < 10 {
        seq![digit_char(n)]
    } else {
        dec_digits(n / 10) + seq![digit_char(n % 10)]
    }
}

/// One decimal digit as a string slice.
fn digit_str(d: usize) -> (s: &'static str)
    requires
        d < 10,
    ensures
        s@ == seq![digit_char(d as nat)],
{
    if d == 0 {
        proof {
            reveal_strlit("0");
            assert("0"@ =~= seq!['0']);
        }
        "0"
    } else if d == 1 {
        proof {
            reveal_strlit("1");
            assert("1"@ =~= seq!['1']);
        }
        "1"
    } else if d == 2 {
        proof {
            reveal_strlit("2");
            assert("2"@ =~= seq!['2']);
        }
        "2"
    } else if d == 3 {
        proof {
            reveal_strlit("3");
            assert("3"@ =~= seq!['3']);
        }
        "3"
    } else if d == 4 {
        proof {
            reveal_strlit("4");
            assert("4"@ =~= seq!['4']);
        }
        "4"
    } else if d == 5 {
        proof {
            reveal_strlit("5");
            assert("5"@ =~= seq!['5']);
        }
        "5"
    } else if d == 6 {
        proof {
            reveal_strlit("6");
            assert("6"@ =~= seq!['6']);
        }
        "6"
    } else if d == 7 {
        proof {
            reveal_strlit("7");
            assert("7"@ =~= seq!['7']);
        }
        "7"
    } else if d == 8 {
        proof {
            reveal_strlit("8");
            assert("8"@ =~= seq!['8']);
        }
        "8"
    } else {
        proof {
            reveal_strlit("9");
            assert("9"@ =~= seq!['9']);
        }
        "9"
    }
}

/// Renders a number as its decimal digit string.
pub fn usize_str(n: usize) -> (s: String)
    ensures
        s@ == dec_digits(n as nat),
    decreases n,
{
    if n < 10 {
        digit_str(n).to_owned()
    } else {
        let mut s = usize_str(n / 10);
        s.append(digit_str(n % 10));
        s
    }
}

/// The byte-span suffix of every diagnostic.
pub open spec fn span_text(start: nat, end: nat) -> Seq<char> {
    " at "@ + dec_digits(start) + ".."@ + dec_digits(end)
}

/// The comma-separated tail of a rule list.
pub open spec fn rule_list_from(rs: Seq<Rule>, i: int, acc: Seq<char>) -> Seq<char>
    decreases rs.len() - i,
{
    if i >= rs.len() {
        acc
    } else {
        rule_list_from(rs, i + 1, acc + ", "@ + rule_name(rs[i]))
    }
}

/// A comma-separated list of rule names.
pub open spec fn rule_list(rs: Seq<Rule>) -> Seq<char> {
    if rs.len() == 0 {
        Seq::empty()
    } else {
        rule_list_from(rs, 1, rule_name(rs[0]))
    }
}

/// A comma-separated list of rule names, rendered.
fn rule_list_str(rs: &Vec<Rule>) -> (s: String)
    ensures
        s@ == rule_list(rs@),
{
    if rs.len() == 0 {
        let s = String::new();
        proof {
            assert(s@ =~= Seq::<char>::empty());
        }
        return s;
    }
    let mut s = rule_name_str(rs[0]).to_owned();
    let n = rs.len();
    let mut i: usize = 1;
    while i < n
        invariant
            1 <= i <= n,
            n == rs@.len(),
            rule_list_from(rs@, 1, rule_name(rs@[0])) == rule_list_from(rs@, i as int, s@),
        decreases n - i,
    {
        s.append(", ");
        s.append(rule_name_str(rs[i]));
        i = i + 1;
    }
    s
}

/// The phrase a rejected attribute's context contributes to its message.
pub open spec fn context_phrase(c: AttributeContext) -> Seq<char> {
    match c {
        AttributeContext::ProjectKey => " key is invalid inside project_block"@,
        AttributeContext::ColumnAttribute => " is not the valid attribute for col_attribute"@,
        AttributeContext::IndexesAttribute => " key is invalid inside indexes_attribute"@,
        AttributeContext::BooleanLiteral => " is incompatible with boolean value"@,
        AttributeContext::IntegerLiteral => " is not a valid 32-bit integer literal"@,
        AttributeContext::DecimalLiteral => " is not a valid 32-bit decimal literal"@,
    }
}

/// The phrase a rejected attribute's context contributes, as a slice.
fn context_phrase_str(c: AttributeContext) -> (s: &'static str)
    ensures
        s@ == context_phrase(c),
{
    match c {
        AttributeContext::ProjectKey => " key is invalid inside project_block",
        AttributeContext::ColumnAttribute => " is not the valid attribute for col_attribute",
        AttributeContext::IndexesAttribute => " key is invalid inside indexes_attribute",
        AttributeContext::BooleanLiteral => " is incompatible with boolean value",
        AttributeContext::IntegerLiteral => " is not a valid 32-bit integer literal",
        AttributeContext::DecimalLiteral => " is not a valid 32-bit decimal literal",
    }
}

/// The full message of a diagnostic: the rule found and its text, the
/// legal alternatives, and the span — or the offending attribute text and
/// its category — or the internal-contract rule.
pub open spec fn spec_render(e: SpecParsingError) -> Seq<char> {
    match e {
        SpecParsingError::UnexpectedRule { expected, found, text, span } => {
            "unexpected rule "@ + rule_name(found) + " '"@ + text + "'"@ + span_text(
                span.start as nat,
                span.end as nat,
            ) + "; expected one of: "@ + rule_list(expected)
        },
        SpecParsingError::InvalidAttribute { context, text, span } => {
            "'"@ + text + "'"@ + context_phrase(context) + span_text(
                span.start as nat,
                span.end as nat,
            )
        },
        SpecParsingError::ContractViolation { rule, span } => {
            "internal contract violation inside rule "@ + rule_name(rule) + span_text(
                span.start as nat,
                span.end as nat,
            )
        },
    }
}

/// Renders a diagnostic into its human-readable message.
pub fn render_error(e: &ParsingError) -> (s: String)
    ensures
        s@ == spec_render(e.deep_view()),
{
    match e {
        ParsingError::UnexpectedRule { expected, found, text, span } => {
            let mut s = "unexpected rule ".to_owned();
            s.append(rule_name_str(*found));
            s.append(" '");
            s.append(text.as_str());
            s.append("'");
            s.append(" at ");
            let d = usize_str(span.start);
            s.append(d.as_str());
            s.append("..");
            let d = usize_str(span.end);
            s.append(d.as_str());
            s.append("; expected one of: ");
            let names = rule_list_str(expected);
            s.append(names.as_str());
            s
        },
        ParsingError::InvalidAttribute { context, text, span } => {
            let mut s = "'".to_owned();
            s.append(text.as_str());
            s.append("'");
            s.append(context_phrase_str(*context));
            s.append(" at ");
            let d = usize_str(span.start);
            s.append(d.as_str());
            s.append("..");
            let d = usize_str(span.end);
            s.append(d.as_str());
            s
        },
        ParsingError::ContractViolation { rule, span } => {
            let mut s = "internal contract violation inside rule ".to_owned();
            s.append(rule_name_str(*rule));
            s.append(" at ");
            let d = usize_str(span.start);
            s.append(d.as_str());
            s.append("..");
            let d = usize_str(span.end);
            s.append(d.as_str());
            s
        },
    }
}

} // verus!
