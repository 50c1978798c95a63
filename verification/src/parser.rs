//! The executable reducer: for each grammar construct, a function that
//! folds the construct's children into its typed AST entity, proved to
//! return exactly what the model in `model` says, diagnostics included.
//!
//! Reduction is fail-fast: the first unexpected child anywhere aborts the
//! whole document's reduction with a located diagnostic.

use vstd::prelude::*;

use crate::ast::{
    ColumnSettings, ColumnType, EnumBlock, EnumIdent, EnumValue, IndexesBlock, IndexesDef,
    IndexesIdent, IndexesSettings, IndexesType, ProjectBlock, RefBlock, RefIdent, Relation,
    RelationAction, RelationSettings, SchemaBlock, TableBlock, TableField, TableGroupBlock,
    TableGroupIdent, TableIdent, Value,
};
use crate::cst::{CstNode, Rule};
use crate::err::{
    contract_violation, invalid_attribute, unexpected, AttributeContext, ParsingError,
};
use crate::literals::{str_eq, str_to_decimal, str_to_i32};
use crate::model::{
    col_attr_apply, col_attr_inner_fold, col_settings_fold, col_type_arg_fold, col_type_fold,
    col_type_inner_fold, decl_ident_fold, empty_column_settings, empty_ref_block,
    empty_schema_block, empty_table_block, empty_table_field, enum_attr_fold, enum_block_fold,
    enum_decl_fold, enum_settings_fold, enum_value_fold, indexes_attr_fold, indexes_block_fold,
    indexes_def_fold, indexes_ident_fold, indexes_name_fold, indexes_settings_fold,
    lemma_empty_deep_view, lemma_push_deep_view, note_decl_fold, note_inline_fold,
    project_block_fold, project_decl_fold, project_stmt_fold, quoted_fold, ref_comp_fold,
    ref_decl_fold, ref_ident_fold, ref_stmt_fold, rel_attr_fold, rel_settings_fold, rview,
    schema_fold, spec_parse, spec_parse_col_settings, spec_parse_col_type,
    spec_parse_col_type_arg, spec_parse_decl_ident, spec_parse_enum_block, spec_parse_enum_decl,
    spec_parse_enum_value, spec_parse_ident, spec_parse_indexes_block, spec_parse_indexes_decl,
    spec_parse_indexes_ident, spec_parse_indexes_settings, spec_parse_indexes_single_multi,
    spec_parse_note_decl, spec_parse_note_inline, spec_parse_project_decl,
    spec_parse_project_stmt, spec_parse_ref_decl, spec_parse_ref_ident, spec_parse_ref_stmt,
    spec_parse_rel_settings, spec_parse_schema, spec_parse_string_value, spec_parse_table_col,
    spec_parse_table_decl, spec_parse_table_group_decl, spec_parse_value, string_value_fold,
    table_block_fold, table_col_fold, table_decl_fold, table_group_block_fold, table_group_fold,
    value_fold,
};

verus! {

// ---------------------------------------------------------------------------
// Strings and identifiers
// ---------------------------------------------------------------------------

/// Reduces one quoted-string alternative: every child must carry `want`,
/// and the last one's text wins.
fn parse_quoted(node: &CstNode, acc: String, want: Rule) -> (r: Result<String, ParsingError>)
    ensures
        rview(r) == quoted_fold(node.children@, 0, acc@, want),
{
    let ghost acc0: Seq<char> = acc@;
    let mut out = acc;
    let n = node.children.len();
    let mut i: usize = 0;
    while i < n
        invariant
            i <= n,
            n == node.children@.len(),
            quoted_fold(node.children@, 0, acc0, want) == quoted_fold(
                node.children@,
                i as int,
                out@,
                want,
            ),
        decreases n - i,
    {
        let c = &node.children[i];
        if c.rule == want {
            out = c.text.clone();
        } else {
            let ex = vec![want];
            proof {
                assert(ex@ =~= seq![want]);
            }
            return Err(unexpected(ex, c));
        }
        i = i + 1;
    }
    Ok(out)
}

/// Reduces a string value: triple-quoted or single-quoted, whichever is
/// present, inner text unmodified.
pub fn parse_string_value(node: &CstNode) -> (r: Result<String, ParsingError>)
    ensures
        rview(r) == spec_parse_string_value(*node),
{
    let mut out = String::new();
    proof {
        assert(out@ =~= Seq::<char>::empty());
    }
    let n = node.children.len();
    let mut i: usize = 0;
    while i < n
        invariant
            i <= n,
            n == node.children@.len(),
            spec_parse_string_value(*node) == string_value_fold(node.children@, i as int, out@),
        decreases n - i,
    {
        let c = &node.children[i];
        if c.rule == Rule::TripleQuotedString {
            match parse_quoted(c, out, Rule::TripleQuotedValue) {
                Ok(a) => {
                    out = a;
                },
                Err(e) => {
                    return Err(e);
                },
            }
        } else if c.rule == Rule::SingleQuotedString {
            match parse_quoted(c, out, Rule::SingleQuotedValue) {
                Ok(a) => {
                    out = a;
                },
                Err(e) => {
                    return Err(e);
                },
            }
        } else {
            return Err(
                unexpected(vec![Rule::TripleQuotedString, Rule::SingleQuotedString], c),
            );
        }
        i = i + 1;
    }
    Ok(out)
}

/// Reduces an identifier node: a bare token is used verbatim, a
/// double-quoted string contributes its inner content.
pub fn parse_ident(node: &CstNode) -> (r: Result<String, ParsingError>)
    ensures
        rview(r) == spec_parse_ident(*node),
{
    if node.children.len() == 0 {
        return Err(contract_violation(node));
    }
    let c = &node.children[0];
    if c.rule == Rule::Var {
        Ok(c.text.clone())
    } else if c.rule == Rule::DoubleQuotedString {
        if c.children.len() == 0 {
            let s = String::new();
            assert(s@ =~= Seq::<char>::empty());
            Ok(s)
        } else {
            let last = &c.children[c.children.len() - 1];
            Ok(last.text.clone())
        }
    } else {
        Err(unexpected(vec![Rule::Var, Rule::DoubleQuotedString], c))
    }
}

/// Reduces a qualified declaration name: two identifier segments mean
/// `(schema, name)`, one means `(no schema, name)`; any other count is an
/// internal contract violation.
pub fn parse_decl_ident(node: &CstNode) -> (r: Result<(Option<String>, String), ParsingError>)
    ensures
        rview(r) == spec_parse_decl_ident(*node),
{
    let mut toks: Vec<String> = Vec::new();
    proof {
        lemma_empty_deep_view(toks);
    }
    let n = node.children.len();
    let mut i: usize = 0;
    while i < n
        invariant
            i <= n,
            n == node.children@.len(),
            decl_ident_fold(node.children@, 0, Seq::empty()) == decl_ident_fold(
                node.children@,
                i as int,
                toks.deep_view(),
            ),
        decreases n - i,
    {
        let c = &node.children[i];
        if c.rule == Rule::Ident {
            match parse_ident(c) {
                Ok(t) => {
                    let ghost prev = toks;
                    toks.push(t);
                    proof {
                        lemma_push_deep_view(prev, toks, t);
                    }
                },
                Err(e) => {
                    return Err(e);
                },
            }
        } else {
            let ex = vec![Rule::Ident];
            proof {
                assert(ex@ =~= seq![Rule::Ident]);
            }
            return Err(unexpected(ex, c));
        }
        i = i + 1;
    }
    if toks.len() == 2 {
        Ok((Some(toks[0].clone()), toks[1].clone()))
    } else if toks.len() == 1 {
        Ok((None, toks[0].clone()))
    } else {
        Err(contract_violation(node))
    }
}

// ---------------------------------------------------------------------------
// Notes
// ---------------------------------------------------------------------------

/// Reduces an inline note: each child must be a string value, the last
/// one wins.
pub fn parse_note_inline(node: &CstNode) -> (r: Result<String, ParsingError>)
    ensures
        rview(r) == spec_parse_note_inline(*node),
{
    let mut out = String::new();
    proof {
        assert(out@ =~= Seq::<char>::empty());
    }
    let n = node.children.len();
    let mut i: usize = 0;
    while i < n
        invariant
            i <= n,
            n == node.children@.len(),
            spec_parse_note_inline(*node) == note_inline_fold(node.children@, i as int, out@),
        decreases n - i,
    {
        let c = &node.children[i];
        if c.rule == Rule::StringValue {
            match parse_string_value(c) {
                Ok(s) => {
                    out = s;
                },
                Err(e) => {
                    return Err(e);
                },
            }
        } else {
            let ex = vec![Rule::StringValue];
            proof {
                assert(ex@ =~= seq![Rule::StringValue]);
            }
            return Err(unexpected(ex, c));
        }
        i = i + 1;
    }
    Ok(out)
}

/// Reduces a note declaration: the first string value inside its short or
/// block form decides.
pub fn parse_note_decl(node: &CstNode) -> (r: Result<String, ParsingError>)
    ensures
        rview(r) == spec_parse_note_decl(*node),
{
    let n = node.children.len();
    let mut i: usize = 0;
    while i < n
        invariant
            i <= n,
            n == node.children@.len(),
            spec_parse_note_decl(*node) == note_decl_fold(node.children@, i as int, *node),
        decreases n - i,
    {
        let c = &node.children[i];
        if c.rule == Rule::NoteShort || c.rule == Rule::NoteBlock {
            if c.children.len() > 0 {
                let c0 = &c.children[0];
                if c0.rule == Rule::StringValue {
                    return parse_string_value(c0);
                } else {
                    let ex = vec![Rule::StringValue];
                    proof {
                        assert(ex@ =~= seq![Rule::StringValue]);
                    }
                    return Err(unexpected(ex, c0));
                }
            }
        } else {
            return Err(unexpected(vec![Rule::NoteShort, Rule::NoteBlock], c));
        }
        i = i + 1;
    }
    Err(contract_violation(node))
}

// ---------------------------------------------------------------------------
// Values
// ---------------------------------------------------------------------------

/// Reduces a literal value: the first alternative present decides, with
/// checked 32-bit numeric conversion.
pub fn parse_value(node: &CstNode) -> (r: Result<Value, ParsingError>)
    ensures
        rview(r) == spec_parse_value(*node),
{
    let n = node.children.len();
    let mut i: usize = 0;
    while i < n
        invariant
            i <= n,
            n == node.children@.len(),
            spec_parse_value(*node) == value_fold(node.children@, i as int, *node),
        decreases n - i,
    {
        let c = &node.children[i];
        if c.rule == Rule::StringValue {
            return match parse_string_value(c) {
                Ok(s) => Ok(Value::String(s)),
                Err(e) => Err(e),
            };
        } else if c.rule == Rule::NumberValue {
            if c.children.len() > 0 {
                let c0 = &c.children[0];
                if c0.rule == Rule::Decimal {
                    return match str_to_decimal(c0.text.as_str()) {
                        Some(d) => Ok(Value::Decimal(d)),
                        None => Err(
                            invalid_attribute(AttributeContext::DecimalLiteral, &c0.text, c0.span),
                        ),
                    };
                } else if c0.rule == Rule::Integer {
                    return match str_to_i32(c0.text.as_str()) {
                        Some(v) => Ok(Value::Integer(v)),
                        None => Err(
                            invalid_attribute(AttributeContext::IntegerLiteral, &c0.text, c0.span),
                        ),
                    };
                } else {
                    return Err(unexpected(vec![Rule::Decimal, Rule::Integer], c0));
                }
            }
        } else if c.rule == Rule::BooleanValue {
            if c.children.len() > 0 {
                let c0 = &c.children[0];
                if str_eq(c0.text.as_str(), "true") {
                    return Ok(Value::Bool(true));
                } else if str_eq(c0.text.as_str(), "false") {
                    return Ok(Value::Bool(false));
                } else if str_eq(c0.text.as_str(), "null") {
                    return Ok(Value::Null);
                } else {
                    return Err(
                        invalid_attribute(AttributeContext::BooleanLiteral, &c0.text, c0.span),
                    );
                }
            }
        } else {
            return Err(
                unexpected(vec![Rule::StringValue, Rule::NumberValue, Rule::BooleanValue], c),
            );
        }
        i = i + 1;
    }
    Err(contract_violation(node))
}

// ---------------------------------------------------------------------------
// Column types
// ---------------------------------------------------------------------------

/// Builds the diagnostic for a single-rule expected set.
fn expect1(want: Rule, c: &CstNode) -> (e: ParsingError)
    ensures
        e.deep_view() == crate::err::spec_unexpected(seq![want], *c),
{
    let ex = vec![want];
    proof {
        assert(ex@ =~= seq![want]);
    }
    unexpected(ex, c)
}

/// Reduces a type-argument list: each child is a value.
pub fn parse_col_type_arg(node: &CstNode) -> (r: Result<Vec<Value>, ParsingError>)
    ensures
        rview(r) == spec_parse_col_type_arg(*node),
{
    let mut out: Vec<Value> = Vec::new();
    proof {
        lemma_empty_deep_view(out);
    }
    let n = node.children.len();
    let mut i: usize = 0;
    while i < n
        invariant
            i <= n,
            n == node.children@.len(),
            col_type_arg_fold(node.children@, 0, Seq::empty()) == col_type_arg_fold(
                node.children@,
                i as int,
                out.deep_view(),
            ),
        decreases n - i,
    {
        let c = &node.children[i];
        if c.rule == Rule::Value {
            match parse_value(c) {
                Ok(v) => {
                    let ghost prev = out;
                    out.push(v);
                    proof {
                        lemma_push_deep_view(prev, out, v);
                    }
                },
                Err(e) => {
                    return Err(e);
                },
            }
        } else {
            return Err(expect1(Rule::Value, c));
        }
        i = i + 1;
    }
    Ok(out)
}

/// Reduces the inside of a single or array type alternative: the raw type
/// name and an optional argument list.
fn parse_col_type_inner(node: &CstNode, t: ColumnType, args: Vec<Value>) -> (r: Result<
    (ColumnType, Vec<Value>),
    ParsingError,
>)
    ensures
        rview(r) == col_type_inner_fold(node.children@, 0, t.deep_view(), args.deep_view()),
{
    let mut ty = t;
    let mut ar = args;
    let n = node.children.len();
    let mut i: usize = 0;
    while i < n
        invariant
            i <= n,
            n == node.children@.len(),
            col_type_inner_fold(node.children@, 0, t.deep_view(), args.deep_view())
                == col_type_inner_fold(
                node.children@,
                i as int,
                ty.deep_view(),
                ar.deep_view(),
            ),
        decreases n - i,
    {
        let c = &node.children[i];
        if c.rule == Rule::Var {
            ty = ColumnType::Raw(c.text.clone());
        } else if c.rule == Rule::ColTypeArg {
            match parse_col_type_arg(c) {
                Ok(a) => {
                    ar = a;
                },
                Err(e) => {
                    return Err(e);
                },
            }
        } else {
            return Err(unexpected(vec![Rule::Var, Rule::ColTypeArg], c));
        }
        i = i + 1;
    }
    Ok((ty, ar))
}

/// Reduces a column type: its raw name, its ordered type arguments, and
/// whether the array marker was present.
pub fn parse_col_type(node: &CstNode) -> (r: Result<(ColumnType, Vec<Value>, bool), ParsingError>)
    ensures
        rview(r) == spec_parse_col_type(*node),
{
    let mut ty = ColumnType::Undef;
    let mut args: Vec<Value> = Vec::new();
    let mut arr = false;
    proof {
        lemma_empty_deep_view(args);
    }
    let n = node.children.len();
    let mut i: usize = 0;
    while i < n
        invariant
            i <= n,
            n == node.children@.len(),
            spec_parse_col_type(*node) == col_type_fold(
                node.children@,
                i as int,
                ty.deep_view(),
                args.deep_view(),
                arr,
            ),
        decreases n - i,
    {
        let c = &node.children[i];
        if c.rule == Rule::ColTypeSingle || c.rule == Rule::ColTypeArray {
            match parse_col_type_inner(c, ty, args) {
                Ok((t2, a2)) => {
                    ty = t2;
                    args = a2;
                    arr = c.rule == Rule::ColTypeArray;
                },
                Err(e) => {
                    return Err(e);
                },
            }
        } else {
            return Err(expect1(Rule::ColTypeSingle, c));
        }
        i = i + 1;
    }
    Ok((ty, args, arr))
}

// ---------------------------------------------------------------------------
// Relationships
// ---------------------------------------------------------------------------

/// Reduces a composition list: each child is a column identifier.
fn parse_ref_comp(node: &CstNode, comps: Vec<String>) -> (r: Result<Vec<String>, ParsingError>)
    ensures
        rview(r) == ref_comp_fold(node.children@, 0, comps.deep_view()),
{
    let mut out = comps;
    let n = node.children.len();
    let mut i: usize = 0;
    while i < n
        invariant
            i <= n,
            n == node.children@.len(),
            ref_comp_fold(node.children@, 0, comps.deep_view()) == ref_comp_fold(
                node.children@,
                i as int,
                out.deep_view(),
            ),
        decreases n - i,
    {
        let c = &node.children[i];
        if c.rule == Rule::Ident {
            match parse_ident(c) {
                Ok(t) => {
                    let ghost prev = out;
                    out.push(t);
                    proof {
                        lemma_push_deep_view(prev, out, t);
                    }
                },
                Err(e) => {
                    return Err(e);
                },
            }
        } else {
            return Err(expect1(Rule::Ident, c));
        }
        i = i + 1;
    }
    Ok(out)
}

/// Reduces one side of a relationship: an optionally schema-qualified
/// table reference plus its ordered column names; any other count of
/// table-name segments is an internal contract violation.
pub fn parse_ref_ident(node: &CstNode) -> (r: Result<RefIdent, ParsingError>)
    ensures
        rview(r) == spec_parse_ref_ident(*node),
{
    let mut toks: Vec<String> = Vec::new();
    let mut comps: Vec<String> = Vec::new();
    proof {
        lemma_empty_deep_view(toks);
        lemma_empty_deep_view(comps);
    }
    let n = node.children.len();
    let mut i: usize = 0;
    while i < n
        invariant
            i <= n,
            n == node.children@.len(),
            ref_ident_fold(node.children@, 0, Seq::empty(), Seq::empty()) == ref_ident_fold(
                node.children@,
                i as int,
                toks.deep_view(),
                comps.deep_view(),
            ),
        decreases n - i,
    {
        let c = &node.children[i];
        if c.rule == Rule::Ident {
            match parse_ident(c) {
                Ok(t) => {
                    let ghost prev = toks;
                    toks.push(t);
                    proof {
                        lemma_push_deep_view(prev, toks, t);
                    }
                },
                Err(e) => {
                    return Err(e);
                },
            }
        } else if c.rule == Rule::RefComposition {
            match parse_ref_comp(c, comps) {
                Ok(cm) => {
                    comps = cm;
                },
                Err(e) => {
                    return Err(e);
                },
            }
        } else {
            return Err(unexpected(vec![Rule::Ident, Rule::RefComposition], c));
        }
        i = i + 1;
    }
    if toks.len() == 2 {
        Ok(
            RefIdent {
                schema: Some(toks[0].clone()),
                table: toks[1].clone(),
                compositions: comps,
            },
        )
    } else if toks.len() == 1 {
        Ok(RefIdent { schema: None, table: toks[0].clone(), compositions: comps })
    } else {
        Err(contract_violation(node))
    }
}

/// Reduces one relation-settings attribute: update and delete actions,
/// the last token winning.
fn parse_rel_attr(node: &CstNode, acc: RelationSettings) -> (r: Result<
    RelationSettings,
    ParsingError,
>)
    ensures
        rview(r) == rel_attr_fold(node.children@, 0, acc.deep_view()),
{
    let mut out = acc;
    let n = node.children.len();
    let mut i: usize = 0;
    while i < n
        invariant
            i <= n,
            n == node.children@.len(),
            rel_attr_fold(node.children@, 0, acc.deep_view()) == rel_attr_fold(
                node.children@,
                i as int,
                out.deep_view(),
            ),
        decreases n - i,
    {
        let c = &node.children[i];
        if c.rule == Rule::RelUpdate {
            if c.children.len() > 0 {
                let lastc = &c.children[c.children.len() - 1];
                out.on_update = Some(RelationAction::match_type(lastc.text.as_str()));
            }
        } else if c.rule == Rule::RelDelete {
            if c.children.len() > 0 {
                let lastc = &c.children[c.children.len() - 1];
                out.on_delete = Some(RelationAction::match_type(lastc.text.as_str()));
            }
        } else {
            return Err(unexpected(vec![Rule::RelUpdate, Rule::RelDelete], c));
        }
        i = i + 1;
    }
    Ok(out)
}

/// Reduces a relation-settings node: each child is one attribute.
pub fn parse_rel_settings(node: &CstNode) -> (r: Result<RelationSettings, ParsingError>)
    ensures
        rview(r) == spec_parse_rel_settings(*node),
{
    let mut out = RelationSettings { on_update: None, on_delete: None };
    let n = node.children.len();
    let mut i: usize = 0;
    while i < n
        invariant
            i <= n,
            n == node.children@.len(),
            spec_parse_rel_settings(*node) == rel_settings_fold(
                node.children@,
                i as int,
                out.deep_view(),
            ),
        decreases n - i,
    {
        let c = &node.children[i];
        if c.rule == Rule::RelAttribute {
            match parse_rel_attr(c, out) {
                Ok(a) => {
                    out = a;
                },
                Err(e) => {
                    return Err(e);
                },
            }
        } else {
            return Err(expect1(Rule::RelAttribute, c));
        }
        i = i + 1;
    }
    Ok(out)
}

/// Reduces a relationship statement. The relation operator pivots in
/// document order: an identifier group seen while the relation is still
/// unresolved becomes the left side, one seen after becomes the right.
pub fn parse_ref_stmt_inline(node: &CstNode) -> (r: Result<RefBlock, ParsingError>)
    ensures
        rview(r) == spec_parse_ref_stmt(*node),
{
    let mut acc = RefBlock {
        rel: Relation::Undef,
        lhs: None,
        rhs: RefIdent { schema: None, table: String::new(), compositions: Vec::new() },
        settings: None,
    };
    proof {
        assert(acc.rhs.table@ =~= Seq::<char>::empty());
        assert(acc.rhs.compositions.deep_view() =~= Seq::<Seq<char>>::empty());
        assert(acc.deep_view() == empty_ref_block());
    }
    let n = node.children.len();
    let mut i: usize = 0;
    while i < n
        invariant
            i <= n,
            n == node.children@.len(),
            spec_parse_ref_stmt(*node) == ref_stmt_fold(node.children@, i as int, acc.deep_view()),
        decreases n - i,
    {
        let c = &node.children[i];
        if c.rule == Rule::Relation {
            acc.rel = Relation::match_type(c.text.as_str());
        } else if c.rule == Rule::RefIdent {
            match parse_ref_ident(c) {
                Ok(v) => {
                    if acc.rel == Relation::Undef {
                        acc.lhs = Some(v);
                    } else {
                        acc.rhs = v;
                    }
                },
                Err(e) => {
                    return Err(e);
                },
            }
        } else if c.rule == Rule::RelSettings {
            match parse_rel_settings(c) {
                Ok(s) => {
                    acc.settings = Some(s);
                },
                Err(e) => {
                    return Err(e);
                },
            }
        } else {
            return Err(unexpected(vec![Rule::Relation, Rule::RefIdent, Rule::RelSettings], c));
        }
        i = i + 1;
    }
    Ok(acc)
}

/// Reduces a relationship declaration: the first statement inside its
/// block or short form decides.
pub fn parse_ref_decl(node: &CstNode) -> (r: Result<RefBlock, ParsingError>)
    ensures
        rview(r) == spec_parse_ref_decl(*node),
{
    let n = node.children.len();
    let mut i: usize = 0;
    while i < n
        invariant
            i <= n,
            n == node.children@.len(),
            spec_parse_ref_decl(*node) == ref_decl_fold(node.children@, i as int, *node),
        decreases n - i,
    {
        let c = &node.children[i];
        if c.rule == Rule::RefBlock || c.rule == Rule::RefShort {
            if c.children.len() > 0 {
                let c0 = &c.children[0];
                if c0.rule == Rule::RefStmt {
                    return parse_ref_stmt_inline(c0);
                } else {
                    return Err(expect1(Rule::RefStmt, c0));
                }
            }
        } else {
            return Err(unexpected(vec![Rule::RefBlock, Rule::RefShort], c));
        }
        i = i + 1;
    }
    Err(contract_violation(node))
}

// ---------------------------------------------------------------------------
// Column settings
// ---------------------------------------------------------------------------

/// Applies one column attribute: the raw matched text is checked first
/// against the fixed keyword set, and only then decomposed into the
/// structured sub-forms; unrecognized text is named in the diagnostic.
fn parse_col_attr(node: &CstNode, acc: ColumnSettings) -> (r: Result<ColumnSettings, ParsingError>)
    ensures
        rview(r) == col_attr_apply(acc.deep_view(), *node),
{
    let mut out = acc;
    if str_eq(node.text.as_str(), "unique") {
        out.is_unique = true;
        return Ok(out);
    }
    if str_eq(node.text.as_str(), "primary key") || str_eq(node.text.as_str(), "pk") {
        out.is_pk = true;
        return Ok(out);
    }
    if str_eq(node.text.as_str(), "null") {
        out.is_nullable = true;
        return Ok(out);
    }
    if str_eq(node.text.as_str(), "not null") {
        return Ok(out);
    }
    if str_eq(node.text.as_str(), "increment") {
        out.is_incremental = true;
        return Ok(out);
    }
    let n = node.children.len();
    let mut i: usize = 0;
    while i < n
        invariant
            i <= n,
            n == node.children@.len(),
            col_attr_apply(acc.deep_view(), *node) == col_attr_inner_fold(
                node.children@,
                i as int,
                out.deep_view(),
            ),
        decreases n - i,
    {
        let c = &node.children[i];
        if c.rule == Rule::ColDefault {
            match parse_value(c) {
                Ok(v) => {
                    out.default = Some(v);
                },
                Err(e) => {
                    return Err(e);
                },
            }
        } else if c.rule == Rule::NoteInline {
            match parse_note_inline(c) {
                Ok(s) => {
                    out.note = Some(s);
                },
                Err(e) => {
                    return Err(e);
                },
            }
        } else if c.rule == Rule::RefInline {
            match parse_ref_stmt_inline(c) {
                Ok(rb) => {
                    let ghost prev = out.refs;
                    out.refs.push(rb);
                    proof {
                        lemma_push_deep_view(prev, out.refs, rb);
                    }
                },
                Err(e) => {
                    return Err(e);
                },
            }
        } else {
            return Err(invalid_attribute(AttributeContext::ColumnAttribute, &c.text, c.span));
        }
        i = i + 1;
    }
    Ok(out)
}

/// Reduces a column-settings node: each child is one column attribute.
pub fn parse_col_settings(node: &CstNode) -> (r: Result<ColumnSettings, ParsingError>)
    ensures
        rview(r) == spec_parse_col_settings(*node),
{
    let mut out = ColumnSettings {
        is_unique: false,
        is_pk: false,
        is_nullable: false,
        is_incremental: false,
        default: None,
        note: None,
        refs: Vec::new(),
    };
    proof {
        assert(out.refs.deep_view() =~= Seq::<crate::ast::SpecRefBlock>::empty());
        assert(out.deep_view() == empty_column_settings());
    }
    let n = node.children.len();
    let mut i: usize = 0;
    while i < n
        invariant
            i <= n,
            n == node.children@.len(),
            spec_parse_col_settings(*node) == col_settings_fold(
                node.children@,
                i as int,
                out.deep_view(),
            ),
        decreases n - i,
    {
        let c = &node.children[i];
        if c.rule == Rule::ColAttribute {
            match parse_col_attr(c, out) {
                Ok(a) => {
                    out = a;
                },
                Err(e) => {
                    return Err(e);
                },
            }
        } else {
            return Err(expect1(Rule::ColAttribute, c));
        }
        i = i + 1;
    }
    Ok(out)
}

/// Reduces one column declaration: its name, its type, and its settings.
pub fn parse_table_col(node: &CstNode) -> (r: Result<TableField, ParsingError>)
    ensures
        rview(r) == spec_parse_table_col(*node),
{
    let mut acc = TableField {
        col_name: String::new(),
        col_type: ColumnType::Undef,
        is_array: false,
        col_args: Vec::new(),
        col_settings: ColumnSettings {
            is_unique: false,
            is_pk: false,
            is_nullable: false,
            is_incremental: false,
            default: None,
            note: None,
            refs: Vec::new(),
        },
    };
    proof {
        assert(acc.col_name@ =~= Seq::<char>::empty());
        assert(acc.col_args.deep_view() =~= Seq::<crate::ast::SpecValue>::empty());
        assert(acc.col_settings.refs.deep_view() =~= Seq::<crate::ast::SpecRefBlock>::empty());
        assert(acc.deep_view() == empty_table_field());
    }
    let n = node.children.len();
    let mut i: usize = 0;
    while i < n
        invariant
            i <= n,
            n == node.children@.len(),
            spec_parse_table_col(*node) == table_col_fold(
                node.children@,
                i as int,
                acc.deep_view(),
            ),
        decreases n - i,
    {
        let c = &node.children[i];
        if c.rule == Rule::Ident {
            match parse_ident(c) {
                Ok(name) => {
                    acc.col_name = name;
                },
                Err(e) => {
                    return Err(e);
                },
            }
        } else if c.rule == Rule::ColType {
            match parse_col_type(c) {
                Ok((t, args, arr)) => {
                    acc.col_type = t;
                    acc.col_args = args;
                    acc.is_array = arr;
                },
                Err(e) => {
                    return Err(e);
                },
            }
        } else if c.rule == Rule::ColSettings {
            match parse_col_settings(c) {
                Ok(s) => {
                    acc.col_settings = s;
                },
                Err(e) => {
                    return Err(e);
                },
            }
        } else {
            return Err(unexpected(vec![Rule::Ident, Rule::ColType, Rule::ColSettings], c));
        }
        i = i + 1;
    }
    Ok(acc)
}


// ---------------------------------------------------------------------------
// Enums
// ---------------------------------------------------------------------------

/// Reduces one enum attribute: only an inline note is recognized.
fn parse_enum_attr(node: &CstNode, acc: EnumValue) -> (r: Result<EnumValue, ParsingError>)
    ensures
        rview(r) == enum_attr_fold(node.children@, 0, acc.deep_view()),
{
    let mut out = acc;
    let n = node.children.len();
    let mut i: usize = 0;
    while i < n
        invariant
            i <= n,
            n == node.children@.len(),
            enum_attr_fold(node.children@, 0, acc.deep_view()) == enum_attr_fold(
                node.children@,
                i as int,
                out.deep_view(),
            ),
        decreases n - i,
    {
        let c = &node.children[i];
        if c.rule == Rule::NoteInline {
            match parse_note_inline(c) {
                Ok(s) => {
                    out.note = Some(s);
                },
                Err(e) => {
                    return Err(e);
                },
            }
        } else {
            return Err(expect1(Rule::NoteInline, c));
        }
        i = i + 1;
    }
    Ok(out)
}

/// Reduces an enum member's settings: each child is one enum attribute.
fn parse_enum_settings(node: &CstNode, acc: EnumValue) -> (r: Result<EnumValue, ParsingError>)
    ensures
        rview(r) == enum_settings_fold(node.children@, 0, acc.deep_view()),
{
    let mut out = acc;
    let n = node.children.len();
    let mut i: usize = 0;
    while i < n
        invariant
            i <= n,
            n == node.children@.len(),
            enum_settings_fold(node.children@, 0, acc.deep_view()) == enum_settings_fold(
                node.children@,
                i as int,
                out.deep_view(),
            ),
        decreases n - i,
    {
        let c = &node.children[i];
        if c.rule == Rule::EnumAttribute {
            match parse_enum_attr(c, out) {
                Ok(a) => {
                    out = a;
                },
                Err(e) => {
                    return Err(e);
                },
            }
        } else {
            return Err(expect1(Rule::EnumAttribute, c));
        }
        i = i + 1;
    }
    Ok(out)
}

/// Reduces one enum member: its name and its optional noted settings.
pub fn parse_enum_value(node: &CstNode) -> (r: Result<EnumValue, ParsingError>)
    ensures
        rview(r) == spec_parse_enum_value(*node),
{
    let mut acc = EnumValue { value: String::new(), note: None };
    proof {
        assert(acc.value@ =~= Seq::<char>::empty());
    }
    let n = node.children.len();
    let mut i: usize = 0;
    while i < n
        invariant
            i <= n,
            n == node.children@.len(),
            spec_parse_enum_value(*node) == enum_value_fold(
                node.children@,
                i as int,
                acc.deep_view(),
            ),
        decreases n - i,
    {
        let c = &node.children[i];
        if c.rule == Rule::Ident {
            match parse_ident(c) {
                Ok(name) => {
                    acc.value = name;
                },
                Err(e) => {
                    return Err(e);
                },
            }
        } else if c.rule == Rule::EnumSettings {
            match parse_enum_settings(c, acc) {
                Ok(a) => {
                    acc = a;
                },
                Err(e) => {
                    return Err(e);
                },
            }
        } else {
            return Err(unexpected(vec![Rule::Ident, Rule::EnumSettings], c));
        }
        i = i + 1;
    }
    Ok(acc)
}

/// Reduces an enum block: its ordered members.
pub fn parse_enum_block(node: &CstNode) -> (r: Result<Vec<EnumValue>, ParsingError>)
    ensures
        rview(r) == spec_parse_enum_block(*node),
{
    let mut out: Vec<EnumValue> = Vec::new();
    proof {
        lemma_empty_deep_view(out);
    }
    let n = node.children.len();
    let mut i: usize = 0;
    while i < n
        invariant
            i <= n,
            n == node.children@.len(),
            spec_parse_enum_block(*node) == enum_block_fold(
                node.children@,
                i as int,
                out.deep_view(),
            ),
        decreases n - i,
    {
        let c = &node.children[i];
        if c.rule == Rule::EnumValue {
            match parse_enum_value(c) {
                Ok(v) => {
                    let ghost prev = out;
                    out.push(v);
                    proof {
                        lemma_push_deep_view(prev, out, v);
                    }
                },
                Err(e) => {
                    return Err(e);
                },
            }
        } else {
            return Err(expect1(Rule::EnumValue, c));
        }
        i = i + 1;
    }
    Ok(out)
}

/// Reduces one enum declaration: its qualified name and its block.
pub fn parse_enum_decl(node: &CstNode) -> (r: Result<EnumBlock, ParsingError>)
    ensures
        rview(r) == spec_parse_enum_decl(*node),
{
    let mut acc = EnumBlock {
        ident: EnumIdent { schema: None, name: String::new() },
        values: Vec::new(),
    };
    proof {
        assert(acc.ident.name@ =~= Seq::<char>::empty());
        lemma_empty_deep_view(acc.values);
    }
    let n = node.children.len();
    let mut i: usize = 0;
    while i < n
        invariant
            i <= n,
            n == node.children@.len(),
            spec_parse_enum_decl(*node) == enum_decl_fold(
                node.children@,
                i as int,
                acc.deep_view(),
            ),
        decreases n - i,
    {
        let c = &node.children[i];
        if c.rule == Rule::DeclIdent {
            match parse_decl_ident(c) {
                Ok((schema, name)) => {
                    acc.ident.schema = schema;
                    acc.ident.name = name;
                },
                Err(e) => {
                    return Err(e);
                },
            }
        } else if c.rule == Rule::EnumBlock {
            match parse_enum_block(c) {
                Ok(vs) => {
                    acc.values = vs;
                },
                Err(e) => {
                    return Err(e);
                },
            }
        } else {
            return Err(unexpected(vec![Rule::DeclIdent, Rule::EnumBlock], c));
        }
        i = i + 1;
    }
    Ok(acc)
}

// ---------------------------------------------------------------------------
// Table groups
// ---------------------------------------------------------------------------

/// Reduces a table-group block: each child is a qualified table name.
fn parse_table_group_block(node: &CstNode, acc: TableGroupBlock) -> (r: Result<
    TableGroupBlock,
    ParsingError,
>)
    ensures
        rview(r) == table_group_block_fold(node.children@, 0, acc.deep_view()),
{
    let mut out = acc;
    let n = node.children.len();
    let mut i: usize = 0;
    while i < n
        invariant
            i <= n,
            n == node.children@.len(),
            table_group_block_fold(node.children@, 0, acc.deep_view()) == table_group_block_fold(
                node.children@,
                i as int,
                out.deep_view(),
            ),
        decreases n - i,
    {
        let c = &node.children[i];
        if c.rule == Rule::DeclIdent {
            match parse_decl_ident(c) {
                Ok((schema, name)) => {
                    let value = TableGroupIdent { schema, ident_alias: name };
                    let ghost prev = out.table_idents;
                    out.table_idents.push(value);
                    proof {
                        lemma_push_deep_view(prev, out.table_idents, value);
                    }
                },
                Err(e) => {
                    return Err(e);
                },
            }
        } else {
            return Err(expect1(Rule::DeclIdent, c));
        }
        i = i + 1;
    }
    Ok(out)
}

/// Reduces one table-group declaration: its name and its block of table
/// references.
pub fn parse_table_group_decl(node: &CstNode) -> (r: Result<TableGroupBlock, ParsingError>)
    ensures
        rview(r) == spec_parse_table_group_decl(*node),
{
    let mut acc = TableGroupBlock { name: String::new(), table_idents: Vec::new() };
    proof {
        assert(acc.name@ =~= Seq::<char>::empty());
        lemma_empty_deep_view(acc.table_idents);
    }
    let n = node.children.len();
    let mut i: usize = 0;
    while i < n
        invariant
            i <= n,
            n == node.children@.len(),
            spec_parse_table_group_decl(*node) == table_group_fold(
                node.children@,
                i as int,
                acc.deep_view(),
            ),
        decreases n - i,
    {
        let c = &node.children[i];
        if c.rule == Rule::Ident {
            match parse_ident(c) {
                Ok(name) => {
                    acc.name = name;
                },
                Err(e) => {
                    return Err(e);
                },
            }
        } else if c.rule == Rule::TableGroupBlock {
            match parse_table_group_block(c, acc) {
                Ok(a) => {
                    acc = a;
                },
                Err(e) => {
                    return Err(e);
                },
            }
        } else {
            return Err(unexpected(vec![Rule::Ident, Rule::TableGroupBlock], c));
        }
        i = i + 1;
    }
    Ok(acc)
}

// ---------------------------------------------------------------------------
// Project
// ---------------------------------------------------------------------------

/// Reduces one project statement into its `(key, value)` pair.
pub fn parse_project_stmt(node: &CstNode) -> (r: Result<(String, String), ParsingError>)
    ensures
        rview(r) == spec_parse_project_stmt(*node),
{
    let mut key = String::new();
    let mut value = String::new();
    proof {
        assert(key@ =~= Seq::<char>::empty());
        assert(value@ =~= Seq::<char>::empty());
    }
    let n = node.children.len();
    let mut i: usize = 0;
    while i < n
        invariant
            i <= n,
            n == node.children@.len(),
            spec_parse_project_stmt(*node) == project_stmt_fold(
                node.children@,
                i as int,
                key@,
                value@,
            ),
        decreases n - i,
    {
        let c = &node.children[i];
        if c.rule == Rule::ProjectKey {
            key = c.text.clone();
        } else if c.rule == Rule::StringValue {
            match parse_string_value(c) {
                Ok(v) => {
                    value = v;
                },
                Err(e) => {
                    return Err(e);
                },
            }
        } else {
            return Err(unexpected(vec![Rule::ProjectKey, Rule::StringValue], c));
        }
        i = i + 1;
    }
    Ok((key, value))
}

/// Reduces a project block: `database_type` is the only recognized
/// configuration key; any other key is named in the diagnostic.
fn parse_project_block(node: &CstNode, acc: ProjectBlock) -> (r: Result<
    ProjectBlock,
    ParsingError,
>)
    ensures
        rview(r) == project_block_fold(node.children@, 0, acc.deep_view()),
{
    let mut out = acc;
    let n = node.children.len();
    let mut i: usize = 0;
    while i < n
        invariant
            i <= n,
            n == node.children@.len(),
            project_block_fold(node.children@, 0, acc.deep_view()) == project_block_fold(
                node.children@,
                i as int,
                out.deep_view(),
            ),
        decreases n - i,
    {
        let c = &node.children[i];
        if c.rule == Rule::ProjectStmt {
            match parse_project_stmt(c) {
                Ok((key, value)) => {
                    if str_eq(key.as_str(), "database_type") {
                        out.database_type = value;
                    } else {
                        return Err(
                            invalid_attribute(AttributeContext::ProjectKey, &key, c.span),
                        );
                    }
                },
                Err(e) => {
                    return Err(e);
                },
            }
        } else if c.rule == Rule::NoteDecl {
            match parse_note_decl(c) {
                Ok(s) => {
                    out.note = Some(s);
                },
                Err(e) => {
                    return Err(e);
                },
            }
        } else {
            return Err(unexpected(vec![Rule::ProjectStmt, Rule::NoteDecl], c));
        }
        i = i + 1;
    }
    Ok(out)
}

/// Reduces one project declaration: its name and its block.
pub fn parse_project_decl(node: &CstNode) -> (r: Result<ProjectBlock, ParsingError>)
    ensures
        rview(r) == spec_parse_project_decl(*node),
{
    let mut acc = ProjectBlock {
        name: String::new(),
        database_type: String::new(),
        note: None,
    };
    proof {
        assert(acc.name@ =~= Seq::<char>::empty());
        assert(acc.database_type@ =~= Seq::<char>::empty());
    }
    let n = node.children.len();
    let mut i: usize = 0;
    while i < n
        invariant
            i <= n,
            n == node.children@.len(),
            spec_parse_project_decl(*node) == project_decl_fold(
                node.children@,
                i as int,
                acc.deep_view(),
            ),
        decreases n - i,
    {
        let c = &node.children[i];
        if c.rule == Rule::Ident {
            match parse_ident(c) {
                Ok(name) => {
                    acc.name = name;
                },
                Err(e) => {
                    return Err(e);
                },
            }
        } else if c.rule == Rule::ProjectBlock {
            match parse_project_block(c, acc) {
                Ok(a) => {
                    acc = a;
                },
                Err(e) => {
                    return Err(e);
                },
            }
        } else {
            return Err(expect1(Rule::ProjectBlock, c));
        }
        i = i + 1;
    }
    Ok(acc)
}

// ---------------------------------------------------------------------------
// Indexes
// ---------------------------------------------------------------------------

/// Reduces one indexed entity: a plain identifier or a backquoted raw
/// expression.
pub fn parse_indexes_ident(node: &CstNode) -> (r: Result<IndexesIdent, ParsingError>)
    ensures
        rview(r) == spec_parse_indexes_ident(*node),
{
    let n = node.children.len();
    let mut i: usize = 0;
    while i < n
        invariant
            i <= n,
            n == node.children@.len(),
            spec_parse_indexes_ident(*node) == indexes_ident_fold(
                node.children@,
                i as int,
                *node,
            ),
        decreases n - i,
    {
        let c = &node.children[i];
        if c.rule == Rule::Ident {
            return match parse_ident(c) {
                Ok(s) => Ok(IndexesIdent::Ident(s)),
                Err(e) => Err(e),
            };
        } else if c.rule == Rule::BackquotedQuotedString {
            if c.children.len() > 0 {
                let c0 = &c.children[0];
                if c0.rule == Rule::BackquotedQuotedValue {
                    return Ok(IndexesIdent::Expr(c0.text.clone()));
                } else {
                    return Err(expect1(Rule::BackquotedQuotedValue, c0));
                }
            }
        } else {
            return Err(unexpected(vec![Rule::Ident, Rule::BackquotedQuotedString], c));
        }
        i = i + 1;
    }
    Err(contract_violation(node))
}

/// Reduces an index-name sub-form: each child contributes its string
/// value, the last one winning.
fn parse_indexes_name(node: &CstNode, acc: IndexesSettings) -> (r: Result<
    IndexesSettings,
    ParsingError,
>)
    ensures
        rview(r) == indexes_name_fold(node.children@, 0, acc.deep_view()),
{
    let mut out = acc;
    let n = node.children.len();
    let mut i: usize = 0;
    while i < n
        invariant
            i <= n,
            n == node.children@.len(),
            indexes_name_fold(node.children@, 0, acc.deep_view()) == indexes_name_fold(
                node.children@,
                i as int,
                out.deep_view(),
            ),
        decreases n - i,
    {
        let c = &node.children[i];
        match parse_string_value(c) {
            Ok(s) => {
                out.name = Some(s);
            },
            Err(e) => {
                return Err(e);
            },
        }
        i = i + 1;
    }
    Ok(out)
}

/// Reduces one indexes attribute: the raw matched text is checked first
/// against the keyword set, and only then decomposed into the structured
/// sub-forms; unrecognized text is named in the diagnostic.
fn parse_indexes_attr(node: &CstNode, acc: IndexesSettings) -> (r: Result<
    IndexesSettings,
    ParsingError,
>)
    ensures
        rview(r) == indexes_attr_fold(node.children@, 0, acc.deep_view()),
{
    let mut out = acc;
    let n = node.children.len();
    let mut i: usize = 0;
    while i < n
        invariant
            i <= n,
            n == node.children@.len(),
            indexes_attr_fold(node.children@, 0, acc.deep_view()) == indexes_attr_fold(
                node.children@,
                i as int,
                out.deep_view(),
            ),
        decreases n - i,
    {
        let c = &node.children[i];
        if str_eq(c.text.as_str(), "unique") {
            out.is_unique = true;
        } else if str_eq(c.text.as_str(), "pk") {
            out.is_pk = true;
        } else if c.rule == Rule::IndexesType {
            if c.children.len() > 0 {
                let lastc = &c.children[c.children.len() - 1];
                out.index_type = Some(IndexesType::match_type(lastc.text.as_str()));
            } else {
                out.index_type = None;
            }
        } else if c.rule == Rule::IndexesName {
            match parse_indexes_name(c, out) {
                Ok(a) => {
                    out = a;
                },
                Err(e) => {
                    return Err(e);
                },
            }
        } else if c.rule == Rule::NoteInline {
            match parse_note_inline(c) {
                Ok(s) => {
                    out.note = Some(s);
                },
                Err(e) => {
                    return Err(e);
                },
            }
        } else {
            return Err(invalid_attribute(AttributeContext::IndexesAttribute, &c.text, c.span));
        }
        i = i + 1;
    }
    Ok(out)
}

/// Reduces an indexes-settings node: each child is one attribute.
pub fn parse_indexes_settings(node: &CstNode) -> (r: Result<IndexesSettings, ParsingError>)
    ensures
        rview(r) == spec_parse_indexes_settings(*node),
{
    let mut out = IndexesSettings {
        is_unique: false,
        is_pk: false,
        index_type: None,
        name: None,
        note: None,
    };
    let n = node.children.len();
    let mut i: usize = 0;
    while i < n
        invariant
            i <= n,
            n == node.children@.len(),
            spec_parse_indexes_settings(*node) == indexes_settings_fold(
                node.children@,
                i as int,
                out.deep_view(),
            ),
        decreases n - i,
    {
        let c = &node.children[i];
        if c.rule == Rule::IndexesAttribute {
            match parse_indexes_attr(c, out) {
                Ok(a) => {
                    out = a;
                },
                Err(e) => {
                    return Err(e);
                },
            }
        } else {
            return Err(expect1(Rule::IndexesAttribute, c));
        }
        i = i + 1;
    }
    Ok(out)
}

/// Reduces one index declaration: its ordered indexed entities and its
/// optional settings.
pub fn parse_indexes_single_multi(node: &CstNode) -> (r: Result<IndexesDef, ParsingError>)
    ensures
        rview(r) == spec_parse_indexes_single_multi(*node),
{
    let mut acc = IndexesDef { idents: Vec::new(), settings: None };
    proof {
        lemma_empty_deep_view(acc.idents);
    }
    let n = node.children.len();
    let mut i: usize = 0;
    while i < n
        invariant
            i <= n,
            n == node.children@.len(),
            spec_parse_indexes_single_multi(*node) == indexes_def_fold(
                node.children@,
                i as int,
                acc.deep_view(),
            ),
        decreases n - i,
    {
        let c = &node.children[i];
        if c.rule == Rule::IndexesIdent {
            match parse_indexes_ident(c) {
                Ok(id) => {
                    let ghost prev = acc.idents;
                    acc.idents.push(id);
                    proof {
                        lemma_push_deep_view(prev, acc.idents, id);
                    }
                },
                Err(e) => {
                    return Err(e);
                },
            }
        } else if c.rule == Rule::IndexesSettings {
            match parse_indexes_settings(c) {
                Ok(s) => {
                    acc.settings = Some(s);
                },
                Err(e) => {
                    return Err(e);
                },
            }
        } else {
            return Err(unexpected(vec![Rule::IndexesIdent, Rule::IndexesSettings], c));
        }
        i = i + 1;
    }
    Ok(acc)
}

/// Reduces an indexes block: each child is one index declaration.
pub fn parse_indexes_block(node: &CstNode) -> (r: Result<IndexesBlock, ParsingError>)
    ensures
        rview(r) == spec_parse_indexes_block(*node),
{
    let mut defs: Vec<IndexesDef> = Vec::new();
    proof {
        lemma_empty_deep_view(defs);
    }
    let n = node.children.len();
    let mut i: usize = 0;
    while i < n
        invariant
            i <= n,
            n == node.children@.len(),
            indexes_block_fold(node.children@, 0, Seq::empty()) == indexes_block_fold(
                node.children@,
                i as int,
                defs.deep_view(),
            ),
        decreases n - i,
    {
        let c = &node.children[i];
        if c.rule == Rule::IndexesSingle || c.rule == Rule::IndexesMulti {
            match parse_indexes_single_multi(c) {
                Ok(d) => {
                    let ghost prev = defs;
                    defs.push(d);
                    proof {
                        lemma_push_deep_view(prev, defs, d);
                    }
                },
                Err(e) => {
                    return Err(e);
                },
            }
        } else {
            return Err(unexpected(vec![Rule::IndexesSingle, Rule::IndexesMulti], c));
        }
        i = i + 1;
    }
    Ok(IndexesBlock { defs })
}

/// Reduces an indexes declaration: its block; the first child decides.
pub fn parse_indexes_decl(node: &CstNode) -> (r: Result<IndexesBlock, ParsingError>)
    ensures
        rview(r) == spec_parse_indexes_decl(*node),
{
    if node.children.len() == 0 {
        return Err(contract_violation(node));
    }
    let c0 = &node.children[0];
    if c0.rule == Rule::IndexesBlock {
        parse_indexes_block(c0)
    } else {
        Err(expect1(Rule::IndexesBlock, c0))
    }
}

// ---------------------------------------------------------------------------
// Tables
// ---------------------------------------------------------------------------

/// Reduces a table block: columns in order, an optional note, an optional
/// indexes declaration.
fn parse_table_block(node: &CstNode, acc: TableBlock) -> (r: Result<TableBlock, ParsingError>)
    ensures
        rview(r) == table_block_fold(node.children@, 0, acc.deep_view()),
{
    let mut out = acc;
    let n = node.children.len();
    let mut i: usize = 0;
    while i < n
        invariant
            i <= n,
            n == node.children@.len(),
            table_block_fold(node.children@, 0, acc.deep_view()) == table_block_fold(
                node.children@,
                i as int,
                out.deep_view(),
            ),
        decreases n - i,
    {
        let c = &node.children[i];
        if c.rule == Rule::TableCol {
            match parse_table_col(c) {
                Ok(f) => {
                    let ghost prev = out.fields;
                    out.fields.push(f);
                    proof {
                        lemma_push_deep_view(prev, out.fields, f);
                    }
                },
                Err(e) => {
                    return Err(e);
                },
            }
        } else if c.rule == Rule::NoteDecl {
            match parse_note_decl(c) {
                Ok(s) => {
                    out.note = Some(s);
                },
                Err(e) => {
                    return Err(e);
                },
            }
        } else if c.rule == Rule::IndexesDecl {
            match parse_indexes_decl(c) {
                Ok(ix) => {
                    out.indexes = Some(ix);
                },
                Err(e) => {
                    return Err(e);
                },
            }
        } else {
            return Err(unexpected(vec![Rule::TableCol, Rule::NoteDecl, Rule::IndexesDecl], c));
        }
        i = i + 1;
    }
    Ok(out)
}

/// Reduces one table declaration: its qualified name, its optional alias,
/// and its block.
pub fn parse_table_decl(node: &CstNode) -> (r: Result<TableBlock, ParsingError>)
    ensures
        rview(r) == spec_parse_table_decl(*node),
{
    let mut acc = TableBlock {
        ident: TableIdent { schema: None, name: String::new(), alias: None },
        fields: Vec::new(),
        note: None,
        indexes: None,
    };
    proof {
        assert(acc.ident.name@ =~= Seq::<char>::empty());
        lemma_empty_deep_view(acc.fields);
        assert(acc.deep_view() == empty_table_block());
    }
    let n = node.children.len();
    let mut i: usize = 0;
    while i < n
        invariant
            i <= n,
            n == node.children@.len(),
            spec_parse_table_decl(*node) == table_decl_fold(
                node.children@,
                i as int,
                acc.deep_view(),
            ),
        decreases n - i,
    {
        let c = &node.children[i];
        if c.rule == Rule::DeclIdent {
            match parse_decl_ident(c) {
                Ok((schema, name)) => {
                    acc.ident.schema = schema;
                    acc.ident.name = name;
                },
                Err(e) => {
                    return Err(e);
                },
            }
        } else if c.rule == Rule::TableAlias {
            acc.ident.alias = Some(c.text.clone());
        } else if c.rule == Rule::TableBlock {
            match parse_table_block(c, acc) {
                Ok(a) => {
                    acc = a;
                },
                Err(e) => {
                    return Err(e);
                },
            }
        } else {
            return Err(unexpected(vec![Rule::DeclIdent, Rule::TableAlias, Rule::TableBlock], c));
        }
        i = i + 1;
    }
    Ok(acc)
}

// ---------------------------------------------------------------------------
// Whole document
// ---------------------------------------------------------------------------

/// Reduces the document's declarations in order; an end-of-input marker
/// is skipped.
pub fn parse_schema(node: &CstNode) -> (r: Result<SchemaBlock, ParsingError>)
    ensures
        rview(r) == spec_parse_schema(*node),
{
    let mut acc = SchemaBlock {
        project: None,
        tables: Vec::new(),
        enums: Vec::new(),
        refs: Vec::new(),
        table_groups: Vec::new(),
    };
    proof {
        lemma_empty_deep_view(acc.tables);
        lemma_empty_deep_view(acc.enums);
        lemma_empty_deep_view(acc.refs);
        lemma_empty_deep_view(acc.table_groups);
        assert(acc.deep_view() == empty_schema_block());
    }
    let n = node.children.len();
    let mut i: usize = 0;
    while i < n
        invariant
            i <= n,
            n == node.children@.len(),
            spec_parse_schema(*node) == schema_fold(node.children@, i as int, acc.deep_view()),
        decreases n - i,
    {
        let c = &node.children[i];
        if c.rule == Rule::ProjectDecl {
            match parse_project_decl(c) {
                Ok(p) => {
                    acc.project = Some(p);
                },
                Err(e) => {
                    return Err(e);
                },
            }
        } else if c.rule == Rule::TableDecl {
            match parse_table_decl(c) {
                Ok(t) => {
                    let ghost prev = acc.tables;
                    acc.tables.push(t);
                    proof {
                        lemma_push_deep_view(prev, acc.tables, t);
                    }
                },
                Err(e) => {
                    return Err(e);
                },
            }
        } else if c.rule == Rule::EnumDecl {
            match parse_enum_decl(c) {
                Ok(en) => {
                    let ghost prev = acc.enums;
                    acc.enums.push(en);
                    proof {
                        lemma_push_deep_view(prev, acc.enums, en);
                    }
                },
                Err(e) => {
                    return Err(e);
                },
            }
        } else if c.rule == Rule::RefDecl {
            match parse_ref_decl(c) {
                Ok(rb) => {
                    let ghost prev = acc.refs;
                    acc.refs.push(rb);
                    proof {
                        lemma_push_deep_view(prev, acc.refs, rb);
                    }
                },
                Err(e) => {
                    return Err(e);
                },
            }
        } else if c.rule == Rule::TableGroupDecl {
            match parse_table_group_decl(c) {
                Ok(g) => {
                    let ghost prev = acc.table_groups;
                    acc.table_groups.push(g);
                    proof {
                        lemma_push_deep_view(prev, acc.table_groups, g);
                    }
                },
                Err(e) => {
                    return Err(e);
                },
            }
        } else if c.rule == Rule::Eoi {
        } else {
            return Err(
                unexpected(
                    vec![
                        Rule::ProjectDecl,
                        Rule::TableDecl,
                        Rule::EnumDecl,
                        Rule::RefDecl,
                        Rule::TableGroupDecl,
                    ],
                    c,
                ),
            );
        }
        i = i + 1;
    }
    Ok(acc)
}

/// Reduces one parse tree into one schema, or fails with the first
/// located diagnostic: the root node must be a schema node.
pub fn parse(root: &CstNode) -> (r: Result<SchemaBlock, ParsingError>)
    ensures
        rview(r) == spec_parse(*root),
{
    if root.rule == Rule::Schema {
        parse_schema(root)
    } else {
        Err(expect1(Rule::Schema, root))
    }
}

} // verus!
