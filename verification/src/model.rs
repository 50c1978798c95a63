//! The mathematical model of reduction: one spec function per grammar
//! construct, stating exactly which AST value or which diagnostic the
//! reducer returns for every possible parse tree.
//!
//! Each construct is a strict left-to-right fold over a node's children;
//! the first child whose rule kind is not legal for the construct aborts
//! the whole reduction. The executable reducer in `parser` is proved to
//! agree with this model, result for result and error for error.

use vstd::prelude::*;

use crate::ast::{
    spec_indexes_type, spec_relation, spec_relation_action, SpecColumnSettings, SpecColumnType,
    SpecEnumBlock, SpecEnumIdent, SpecEnumValue, SpecIndexesBlock, SpecIndexesDef,
    SpecIndexesIdent, SpecIndexesSettings, SpecProjectBlock, SpecRefBlock, SpecRefIdent,
    SpecRelationSettings, SpecSchemaBlock, SpecTableBlock, SpecTableField, SpecTableGroupBlock,
    SpecTableGroupIdent, SpecTableIdent, SpecValue, Relation,
};
use crate::cst::{CstNode, Rule};
use crate::err::{spec_contract, spec_invalid, spec_unexpected, AttributeContext, SpecParsingError};
use crate::literals::{spec_str_to_decimal, spec_str_to_i32};

verus! {

/// The view of a `Result`, taken on both sides.
pub open spec fn rview<T: DeepView, E: DeepView>(r: Result<T, E>) -> Result<T::V, E::V> {
    match r {
        Ok(t) => Ok(t.deep_view()),
        Err(e) => Err(e.deep_view()),
    }
}

/// Pushing onto a vector pushes the element's view onto the deep view.
pub proof fn lemma_push_deep_view<T: DeepView>(pre: Vec<T>, post: Vec<T>, x: T)
    requires
        post@ == pre@.push(x),
    ensures
        post.deep_view() == pre.deep_view().push(x.deep_view()),
{
    assert forall|i: int| 0 <= i < post.deep_view().len() implies post.deep_view()[i]
        == pre.deep_view().push(x.deep_view())[i] by {
        if i < pre@.len() {
            assert(post@[i] == pre@[i]);
        }
    }
    assert(post.deep_view() =~= pre.deep_view().push(x.deep_view()));
}

/// An empty vector's deep view is the empty sequence.
pub proof fn lemma_empty_deep_view<T: DeepView>(v: Vec<T>)
    requires
        v@ == Seq::<T>::empty(),
    ensures
        v.deep_view() == Seq::<T::V>::empty(),
{
    assert(v.deep_view() =~= Seq::<T::V>::empty());
}

// ---------------------------------------------------------------------------
// Strings and identifiers
// ---------------------------------------------------------------------------

/// Folds the children of one quoted-string alternative: every child must
/// carry the alternative's value rule, and the last one's text wins.
pub open spec fn quoted_fold(cs: Seq<CstNode>, i: int, acc: Seq<char>, want: Rule) -> Result<
    Seq<char>,
    SpecParsingError,
>
    decreases cs.len() - i,
{
    if i >= cs.len() {
        Ok(acc)
    } else {
        let c = cs[i];
        if c.rule == want {
            quoted_fold(cs, i + 1, c.text@, want)
        } else {
            Err(spec_unexpected(seq![want], c))
        }
    }
}

/// Folds a string value's children: each is a triple-quoted or a
/// single-quoted alternative, whichever is present, and its inner content
/// is taken verbatim.
pub open spec fn string_value_fold(cs: Seq<CstNode>, i: int, acc: Seq<char>) -> Result<
    Seq<char>,
    SpecParsingError,
>
    decreases cs.len() - i,
{
    if i >= cs.len() {
        Ok(acc)
    } else {
        let c = cs[i];
        if c.rule == Rule::TripleQuotedString {
            match quoted_fold(c.children@, 0, acc, Rule::TripleQuotedValue) {
                Ok(a) => string_value_fold(cs, i + 1, a),
                Err(e) => Err(e),
            }
        } else if c.rule == Rule::SingleQuotedString {
            match quoted_fold(c.children@, 0, acc, Rule::SingleQuotedValue) {
                Ok(a) => string_value_fold(cs, i + 1, a),
                Err(e) => Err(e),
            }
        } else {
            Err(spec_unexpected(seq![Rule::TripleQuotedString, Rule::SingleQuotedString], c))
        }
    }
}

/// A string value: triple-quoted or single-quoted, inner text unmodified.
pub open spec fn spec_parse_string_value(n: CstNode) -> Result<Seq<char>, SpecParsingError> {
    string_value_fold(n.children@, 0, Seq::empty())
}

/// An identifier: a bare token used verbatim, or a double-quoted string
/// whose inner content is used verbatim.
pub open spec fn spec_parse_ident(n: CstNode) -> Result<Seq<char>, SpecParsingError> {
    if n.children@.len() == 0 {
        Err(spec_contract(n))
    } else {
        let c = n.children@[0];
        if c.rule == Rule::Var {
            Ok(c.text@)
        } else if c.rule == Rule::DoubleQuotedString {
            if c.children@.len() == 0 {
                Ok(Seq::empty())
            } else {
                Ok(c.children@.last().text@)
            }
        } else {
            Err(spec_unexpected(seq![Rule::Var, Rule::DoubleQuotedString], c))
        }
    }
}

/// Folds a qualified declaration name's children: plain identifiers only.
pub open spec fn decl_ident_fold(cs: Seq<CstNode>, i: int, toks: Seq<Seq<char>>) -> Result<
    Seq<Seq<char>>,
    SpecParsingError,
>
    decreases cs.len() - i,
{
    if i >= cs.len() {
        Ok(toks)
    } else {
        let c = cs[i];
        if c.rule == Rule::Ident {
            match spec_parse_ident(c) {
                Ok(t) => decl_ident_fold(cs, i + 1, toks.push(t)),
                Err(e) => Err(e),
            }
        } else {
            Err(spec_unexpected(seq![Rule::Ident], c))
        }
    }
}

/// A qualified declaration name: two identifier segments mean
/// `(schema, name)` in that order, one means `(no schema, name)`; any
/// other count is an internal contract violation, not user input.
pub open spec fn spec_parse_decl_ident(n: CstNode) -> Result<
    (Option<Seq<char>>, Seq<char>),
    SpecParsingError,
> {
    match decl_ident_fold(n.children@, 0, Seq::empty()) {
        Ok(toks) => {
            if toks.len() == 2 {
                Ok((Some(toks[0]), toks[1]))
            } else if toks.len() == 1 {
                Ok((None, toks[0]))
            } else {
                Err(spec_contract(n))
            }
        },
        Err(e) => Err(e),
    }
}

// ---------------------------------------------------------------------------
// Notes
// ---------------------------------------------------------------------------

/// Folds an inline note's children: each must be a string value, the last
/// one wins.
pub open spec fn note_inline_fold(cs: Seq<CstNode>, i: int, acc: Seq<char>) -> Result<
    Seq<char>,
    SpecParsingError,
>
    decreases cs.len() - i,
{
    if i >= cs.len() {
        Ok(acc)
    } else {
        let c = cs[i];
        if c.rule == Rule::StringValue {
            match spec_parse_string_value(c) {
                Ok(s) => note_inline_fold(cs, i + 1, s),
                Err(e) => Err(e),
            }
        } else {
            Err(spec_unexpected(seq![Rule::StringValue], c))
        }
    }
}

/// An inline note: its string value.
pub open spec fn spec_parse_note_inline(n: CstNode) -> Result<Seq<char>, SpecParsingError> {
    note_inline_fold(n.children@, 0, Seq::empty())
}

/// Folds a note declaration's children: the first string value inside a
/// short or block form decides.
pub open spec fn note_decl_fold(cs: Seq<CstNode>, i: int, n: CstNode) -> Result<
    Seq<char>,
    SpecParsingError,
>
    decreases cs.len() - i,
{
    if i >= cs.len() {
        Err(spec_contract(n))
    } else {
        let c = cs[i];
        if c.rule == Rule::NoteShort || c.rule == Rule::NoteBlock {
            if c.children@.len() == 0 {
                note_decl_fold(cs, i + 1, n)
            } else {
                let c0 = c.children@[0];
                if c0.rule == Rule::StringValue {
                    spec_parse_string_value(c0)
                } else {
                    Err(spec_unexpected(seq![Rule::StringValue], c0))
                }
            }
        } else {
            Err(spec_unexpected(seq![Rule::NoteShort, Rule::NoteBlock], c))
        }
    }
}

/// A note declaration: the string value of its short or block form.
pub open spec fn spec_parse_note_decl(n: CstNode) -> Result<Seq<char>, SpecParsingError> {
    note_decl_fold(n.children@, 0, n)
}

// ---------------------------------------------------------------------------
// Values
// ---------------------------------------------------------------------------

/// Folds a value node's children: the first alternative present decides;
/// a number or boolean alternative with no inner node is skipped.
pub open spec fn value_fold(cs: Seq<CstNode>, i: int, n: CstNode) -> Result<
    SpecValue,
    SpecParsingError,
>
    decreases cs.len() - i,
{
    if i >= cs.len() {
        Err(spec_contract(n))
    } else {
        let c = cs[i];
        if c.rule == Rule::StringValue {
            match spec_parse_string_value(c) {
                Ok(s) => Ok(SpecValue::String(s)),
                Err(e) => Err(e),
            }
        } else if c.rule == Rule::NumberValue {
            if c.children@.len() == 0 {
                value_fold(cs, i + 1, n)
            } else {
                let c0 = c.children@[0];
                if c0.rule == Rule::Decimal {
                    match spec_str_to_decimal(c0.text@) {
                        Some(d) => Ok(SpecValue::Decimal(d)),
                        None => Err(
                            spec_invalid(AttributeContext::DecimalLiteral, c0.text@, c0.span),
                        ),
                    }
                } else if c0.rule == Rule::Integer {
                    match spec_str_to_i32(c0.text@) {
                        Some(v) => Ok(SpecValue::Integer(v)),
                        None => Err(
                            spec_invalid(AttributeContext::IntegerLiteral, c0.text@, c0.span),
                        ),
                    }
                } else {
                    Err(spec_unexpected(seq![Rule::Decimal, Rule::Integer], c0))
                }
            }
        } else if c.rule == Rule::BooleanValue {
            if c.children@.len() == 0 {
                value_fold(cs, i + 1, n)
            } else {
                let c0 = c.children@[0];
                if c0.text@ == "true"@ {
                    Ok(SpecValue::Bool(true))
                } else if c0.text@ == "false"@ {
                    Ok(SpecValue::Bool(false))
                } else if c0.text@ == "null"@ {
                    Ok(SpecValue::Null)
                } else {
                    Err(spec_invalid(AttributeContext::BooleanLiteral, c0.text@, c0.span))
                }
            }
        } else {
            Err(
                spec_unexpected(
                    seq![Rule::StringValue, Rule::NumberValue, Rule::BooleanValue],
                    c,
                ),
            )
        }
    }
}

/// A literal value: string, integer, decimal, boolean, or null, with
/// checked 32-bit numeric conversion.
pub open spec fn spec_parse_value(n: CstNode) -> Result<SpecValue, SpecParsingError> {
    value_fold(n.children@, 0, n)
}

// ---------------------------------------------------------------------------
// Column types
// ---------------------------------------------------------------------------

/// Folds a type-argument list: each child is a value.
pub open spec fn col_type_arg_fold(cs: Seq<CstNode>, i: int, acc: Seq<SpecValue>) -> Result<
    Seq<SpecValue>,
    SpecParsingError,
>
    decreases cs.len() - i,
{
    if i >= cs.len() {
        Ok(acc)
    } else {
        let c = cs[i];
        if c.rule == Rule::Value {
            match spec_parse_value(c) {
                Ok(v) => col_type_arg_fold(cs, i + 1, acc.push(v)),
                Err(e) => Err(e),
            }
        } else {
            Err(spec_unexpected(seq![Rule::Value], c))
        }
    }
}

/// The ordered type arguments of a column type.
pub open spec fn spec_parse_col_type_arg(n: CstNode) -> Result<Seq<SpecValue>, SpecParsingError> {
    col_type_arg_fold(n.children@, 0, Seq::empty())
}

/// Folds the inside of a single or array type alternative: the raw type
/// name and an optional argument list.
pub open spec fn col_type_inner_fold(
    cs: Seq<CstNode>,
    i: int,
    t: SpecColumnType,
    args: Seq<SpecValue>,
) -> Result<(SpecColumnType, Seq<SpecValue>), SpecParsingError>
    decreases cs.len() - i,
{
    if i >= cs.len() {
        Ok((t, args))
    } else {
        let c = cs[i];
        if c.rule == Rule::Var {
            col_type_inner_fold(cs, i + 1, SpecColumnType::Raw(c.text@), args)
        } else if c.rule == Rule::ColTypeArg {
            match spec_parse_col_type_arg(c) {
                Ok(a) => col_type_inner_fold(cs, i + 1, t, a),
                Err(e) => Err(e),
            }
        } else {
            Err(spec_unexpected(seq![Rule::Var, Rule::ColTypeArg], c))
        }
    }
}

/// Folds a column type's children: a single or an array alternative; the
/// array marker decides `is_array` regardless of the argument list.
pub open spec fn col_type_fold(
    cs: Seq<CstNode>,
    i: int,
    t: SpecColumnType,
    args: Seq<SpecValue>,
    arr: bool,
) -> Result<(SpecColumnType, Seq<SpecValue>, bool), SpecParsingError>
    decreases cs.len() - i,
{
    if i >= cs.len() {
        Ok((t, args, arr))
    } else {
        let c = cs[i];
        if c.rule == Rule::ColTypeSingle || c.rule == Rule::ColTypeArray {
            match col_type_inner_fold(c.children@, 0, t, args) {
                Ok((t2, a2)) => col_type_fold(cs, i + 1, t2, a2, c.rule == Rule::ColTypeArray),
                Err(e) => Err(e),
            }
        } else {
            Err(spec_unexpected(seq![Rule::ColTypeSingle], c))
        }
    }
}

/// A column type: its raw name, its ordered type arguments, and whether
/// an array marker was present.
pub open spec fn spec_parse_col_type(n: CstNode) -> Result<
    (SpecColumnType, Seq<SpecValue>, bool),
    SpecParsingError,
> {
    col_type_fold(n.children@, 0, SpecColumnType::Undef, Seq::empty(), false)
}

// ---------------------------------------------------------------------------
// Relationships
// ---------------------------------------------------------------------------

/// Folds a composition list: each child is a column identifier.
pub open spec fn ref_comp_fold(cs: Seq<CstNode>, i: int, comps: Seq<Seq<char>>) -> Result<
    Seq<Seq<char>>,
    SpecParsingError,
>
    decreases cs.len() - i,
{
    if i >= cs.len() {
        Ok(comps)
    } else {
        let c = cs[i];
        if c.rule == Rule::Ident {
            match spec_parse_ident(c) {
                Ok(t) => ref_comp_fold(cs, i + 1, comps.push(t)),
                Err(e) => Err(e),
            }
        } else {
            Err(spec_unexpected(seq![Rule::Ident], c))
        }
    }
}

/// Folds a reference side's children: table-name identifiers and the
/// composition list of column names.
pub open spec fn ref_ident_fold(
    cs: Seq<CstNode>,
    i: int,
    toks: Seq<Seq<char>>,
    comps: Seq<Seq<char>>,
) -> Result<(Seq<Seq<char>>, Seq<Seq<char>>), SpecParsingError>
    decreases cs.len() - i,
{
    if i >= cs.len() {
        Ok((toks, comps))
    } else {
        let c = cs[i];
        if c.rule == Rule::Ident {
            match spec_parse_ident(c) {
                Ok(t) => ref_ident_fold(cs, i + 1, toks.push(t), comps),
                Err(e) => Err(e),
            }
        } else if c.rule == Rule::RefComposition {
            match ref_comp_fold(c.children@, 0, comps) {
                Ok(cm) => ref_ident_fold(cs, i + 1, toks, cm),
                Err(e) => Err(e),
            }
        } else {
            Err(spec_unexpected(seq![Rule::Ident, Rule::RefComposition], c))
        }
    }
}

/// One side of a relationship: two table-name segments mean
/// `(schema, table)`, one means `(no schema, table)`; any other count is
/// an internal contract violation.
pub open spec fn spec_parse_ref_ident(n: CstNode) -> Result<SpecRefIdent, SpecParsingError> {
    match ref_ident_fold(n.children@, 0, Seq::empty(), Seq::empty()) {
        Ok((toks, comps)) => {
            if toks.len() == 2 {
                Ok(SpecRefIdent { schema: Some(toks[0]), table: toks[1], compositions: comps })
            } else if toks.len() == 1 {
                Ok(SpecRefIdent { schema: None, table: toks[0], compositions: comps })
            } else {
                Err(spec_contract(n))
            }
        },
        Err(e) => Err(e),
    }
}

/// Folds one relation-settings attribute: update and delete actions, each
/// resolved by textual match, the last token winning.
pub open spec fn rel_attr_fold(cs: Seq<CstNode>, i: int, acc: SpecRelationSettings) -> Result<
    SpecRelationSettings,
    SpecParsingError,
>
    decreases cs.len() - i,
{
    if i >= cs.len() {
        Ok(acc)
    } else {
        let c = cs[i];
        if c.rule == Rule::RelUpdate {
            let acc2 = if c.children@.len() == 0 {
                acc
            } else {
                SpecRelationSettings {
                    on_update: Some(spec_relation_action(c.children@.last().text@)),
                    on_delete: acc.on_delete,
                }
            };
            rel_attr_fold(cs, i + 1, acc2)
        } else if c.rule == Rule::RelDelete {
            let acc2 = if c.children@.len() == 0 {
                acc
            } else {
                SpecRelationSettings {
                    on_update: acc.on_update,
                    on_delete: Some(spec_relation_action(c.children@.last().text@)),
                }
            };
            rel_attr_fold(cs, i + 1, acc2)
        } else {
            Err(spec_unexpected(seq![Rule::RelUpdate, Rule::RelDelete], c))
        }
    }
}

/// Folds a relation-settings node: each child is one attribute.
pub open spec fn rel_settings_fold(cs: Seq<CstNode>, i: int, acc: SpecRelationSettings) -> Result<
    SpecRelationSettings,
    SpecParsingError,
>
    decreases cs.len() - i,
{
    if i >= cs.len() {
        Ok(acc)
    } else {
        let c = cs[i];
        if c.rule == Rule::RelAttribute {
            match rel_attr_fold(c.children@, 0, acc) {
                Ok(a) => rel_settings_fold(cs, i + 1, a),
                Err(e) => Err(e),
            }
        } else {
            Err(spec_unexpected(seq![Rule::RelAttribute], c))
        }
    }
}

/// Cascade settings of a relationship: independently optional update and
/// delete actions.
pub open spec fn spec_parse_rel_settings(n: CstNode) -> Result<
    SpecRelationSettings,
    SpecParsingError,
> {
    rel_settings_fold(n.children@, 0, SpecRelationSettings { on_update: None, on_delete: None })
}

/// The default, both-sides-unset relationship a statement fold starts from.
pub open spec fn empty_ref_block() -> SpecRefBlock {
    SpecRefBlock {
        rel: Relation::Undef,
        lhs: None,
        rhs: SpecRefIdent { schema: None, table: Seq::empty(), compositions: Seq::empty() },
        settings: None,
    }
}

/// Folds a relationship statement: the relation operator is the pivot in
/// document order — an identifier group seen while the relation is still
/// unresolved becomes the left side, one seen after becomes the right.
pub open spec fn ref_stmt_fold(cs: Seq<CstNode>, i: int, acc: SpecRefBlock) -> Result<
    SpecRefBlock,
    SpecParsingError,
>
    decreases cs.len() - i,
{
    if i >= cs.len() {
        Ok(acc)
    } else {
        let c = cs[i];
        if c.rule == Rule::Relation {
            let acc2 = SpecRefBlock {
                rel: spec_relation(c.text@),
                lhs: acc.lhs,
                rhs: acc.rhs,
                settings: acc.settings,
            };
            ref_stmt_fold(cs, i + 1, acc2)
        } else if c.rule == Rule::RefIdent {
            match spec_parse_ref_ident(c) {
                Ok(v) => {
                    let acc2 = if acc.rel == Relation::Undef {
                        SpecRefBlock { rel: acc.rel, lhs: Some(v), rhs: acc.rhs, settings: acc.settings }
                    } else {
                        SpecRefBlock { rel: acc.rel, lhs: acc.lhs, rhs: v, settings: acc.settings }
                    };
                    ref_stmt_fold(cs, i + 1, acc2)
                },
                Err(e) => Err(e),
            }
        } else if c.rule == Rule::RelSettings {
            match spec_parse_rel_settings(c) {
                Ok(s) => ref_stmt_fold(
                    cs,
                    i + 1,
                    SpecRefBlock { rel: acc.rel, lhs: acc.lhs, rhs: acc.rhs, settings: Some(s) },
                ),
                Err(e) => Err(e),
            }
        } else {
            Err(spec_unexpected(seq![Rule::Relation, Rule::RefIdent, Rule::RelSettings], c))
        }
    }
}

/// A relationship statement, inline or declared.
pub open spec fn spec_parse_ref_stmt(n: CstNode) -> Result<SpecRefBlock, SpecParsingError> {
    ref_stmt_fold(n.children@, 0, empty_ref_block())
}

/// Folds a relationship declaration: the first statement inside a block
/// or short form decides.
pub open spec fn ref_decl_fold(cs: Seq<CstNode>, i: int, n: CstNode) -> Result<
    SpecRefBlock,
    SpecParsingError,
>
    decreases cs.len() - i,
{
    if i >= cs.len() {
        Err(spec_contract(n))
    } else {
        let c = cs[i];
        if c.rule == Rule::RefBlock || c.rule == Rule::RefShort {
            if c.children@.len() == 0 {
                ref_decl_fold(cs, i + 1, n)
            } else {
                let c0 = c.children@[0];
                if c0.rule == Rule::RefStmt {
                    spec_parse_ref_stmt(c0)
                } else {
                    Err(spec_unexpected(seq![Rule::RefStmt], c0))
                }
            }
        } else {
            Err(spec_unexpected(seq![Rule::RefBlock, Rule::RefShort], c))
        }
    }
}

/// A relationship declaration.
pub open spec fn spec_parse_ref_decl(n: CstNode) -> Result<SpecRefBlock, SpecParsingError> {
    ref_decl_fold(n.children@, 0, n)
}

// ---------------------------------------------------------------------------
// Column settings
// ---------------------------------------------------------------------------

/// The all-off column settings a fold starts from.
pub open spec fn empty_column_settings() -> SpecColumnSettings {
    SpecColumnSettings {
        is_unique: false,
        is_pk: false,
        is_nullable: false,
        is_incremental: false,
        default: None,
        note: None,
        refs: Seq::empty(),
    }
}

/// Folds the structured sub-forms of one column attribute: an inline
/// default value, an inline note, or an inline relationship; anything
/// else names the offending text.
pub open spec fn col_attr_inner_fold(cs: Seq<CstNode>, i: int, acc: SpecColumnSettings) -> Result<
    SpecColumnSettings,
    SpecParsingError,
>
    decreases cs.len() - i,
{
    if i >= cs.len() {
        Ok(acc)
    } else {
        let c = cs[i];
        if c.rule == Rule::ColDefault {
            match spec_parse_value(c) {
                Ok(v) => col_attr_inner_fold(
                    cs,
                    i + 1,
                    SpecColumnSettings {
                        is_unique: acc.is_unique,
                        is_pk: acc.is_pk,
                        is_nullable: acc.is_nullable,
                        is_incremental: acc.is_incremental,
                        default: Some(v),
                        note: acc.note,
                        refs: acc.refs,
                    },
                ),
                Err(e) => Err(e),
            }
        } else if c.rule == Rule::NoteInline {
            match spec_parse_note_inline(c) {
                Ok(s) => col_attr_inner_fold(
                    cs,
                    i + 1,
                    SpecColumnSettings {
                        is_unique: acc.is_unique,
                        is_pk: acc.is_pk,
                        is_nullable: acc.is_nullable,
                        is_incremental: acc.is_incremental,
                        default: acc.default,
                        note: Some(s),
                        refs: acc.refs,
                    },
                ),
                Err(e) => Err(e),
            }
        } else if c.rule == Rule::RefInline {
            match spec_parse_ref_stmt(c) {
                Ok(rb) => col_attr_inner_fold(
                    cs,
                    i + 1,
                    SpecColumnSettings {
                        is_unique: acc.is_unique,
                        is_pk: acc.is_pk,
                        is_nullable: acc.is_nullable,
                        is_incremental: acc.is_incremental,
                        default: acc.default,
                        note: acc.note,
                        refs: acc.refs.push(rb),
                    },
                ),
                Err(e) => Err(e),
            }
        } else {
            Err(spec_invalid(AttributeContext::ColumnAttribute, c.text@, c.span))
        }
    }
}

/// Applies one column attribute: the raw matched text is checked first
/// against the fixed keyword set — `unique`, `primary key`/`pk`, `null`,
/// `not null` (a no-op), `increment` — and only then decomposed into the
/// structured sub-forms.
pub open spec fn col_attr_apply(acc: SpecColumnSettings, c: CstNode) -> Result<
    SpecColumnSettings,
    SpecParsingError,
> {
    if c.text@ == "unique"@ {
        Ok(
            SpecColumnSettings {
                is_unique: true,
                is_pk: acc.is_pk,
                is_nullable: acc.is_nullable,
                is_incremental: acc.is_incremental,
                default: acc.default,
                note: acc.note,
                refs: acc.refs,
            },
        )
    } else if c.text@ == "primary key"@ || c.text@ == "pk"@ {
        Ok(
            SpecColumnSettings {
                is_unique: acc.is_unique,
                is_pk: true,
                is_nullable: acc.is_nullable,
                is_incremental: acc.is_incremental,
                default: acc.default,
                note: acc.note,
                refs: acc.refs,
            },
        )
    } else if c.text@ == "null"@ {
        Ok(
            SpecColumnSettings {
                is_unique: acc.is_unique,
                is_pk: acc.is_pk,
                is_nullable: true,
                is_incremental: acc.is_incremental,
                default: acc.default,
                note: acc.note,
                refs: acc.refs,
            },
        )
    } else if c.text@ == "not null"@ {
        Ok(acc)
    } else if c.text@ == "increment"@ {
        Ok(
            SpecColumnSettings {
                is_unique: acc.is_unique,
                is_pk: acc.is_pk,
                is_nullable: acc.is_nullable,
                is_incremental: true,
                default: acc.default,
                note: acc.note,
                refs: acc.refs,
            },
        )
    } else {
        col_attr_inner_fold(c.children@, 0, acc)
    }
}

/// Folds a column-settings node: each child is one column attribute.
pub open spec fn col_settings_fold(cs: Seq<CstNode>, i: int, acc: SpecColumnSettings) -> Result<
    SpecColumnSettings,
    SpecParsingError,
>
    decreases cs.len() - i,
{
    if i >= cs.len() {
        Ok(acc)
    } else {
        let c = cs[i];
        if c.rule == Rule::ColAttribute {
            match col_attr_apply(acc, c) {
                Ok(a) => col_settings_fold(cs, i + 1, a),
                Err(e) => Err(e),
            }
        } else {
            Err(spec_unexpected(seq![Rule::ColAttribute], c))
        }
    }
}

/// A column's attributes.
pub open spec fn spec_parse_col_settings(n: CstNode) -> Result<
    SpecColumnSettings,
    SpecParsingError,
> {
    col_settings_fold(n.children@, 0, empty_column_settings())
}

// ---------------------------------------------------------------------------
// Columns
// ---------------------------------------------------------------------------

/// The default column a fold starts from.
pub open spec fn empty_table_field() -> SpecTableField {
    SpecTableField {
        col_name: Seq::empty(),
        col_type: SpecColumnType::Undef,
        is_array: false,
        col_args: Seq::empty(),
        col_settings: empty_column_settings(),
    }
}

/// Folds one column declaration: its name, its type, and its settings.
pub open spec fn table_col_fold(cs: Seq<CstNode>, i: int, acc: SpecTableField) -> Result<
    SpecTableField,
    SpecParsingError,
>
    decreases cs.len() - i,
{
    if i >= cs.len() {
        Ok(acc)
    } else {
        let c = cs[i];
        if c.rule == Rule::Ident {
            match spec_parse_ident(c) {
                Ok(name) => table_col_fold(
                    cs,
                    i + 1,
                    SpecTableField {
                        col_name: name,
                        col_type: acc.col_type,
                        is_array: acc.is_array,
                        col_args: acc.col_args,
                        col_settings: acc.col_settings,
                    },
                ),
                Err(e) => Err(e),
            }
        } else if c.rule == Rule::ColType {
            match spec_parse_col_type(c) {
                Ok((t, args, arr)) => table_col_fold(
                    cs,
                    i + 1,
                    SpecTableField {
                        col_name: acc.col_name,
                        col_type: t,
                        is_array: arr,
                        col_args: args,
                        col_settings: acc.col_settings,
                    },
                ),
                Err(e) => Err(e),
            }
        } else if c.rule == Rule::ColSettings {
            match spec_parse_col_settings(c) {
                Ok(s) => table_col_fold(
                    cs,
                    i + 1,
                    SpecTableField {
                        col_name: acc.col_name,
                        col_type: acc.col_type,
                        is_array: acc.is_array,
                        col_args: acc.col_args,
                        col_settings: s,
                    },
                ),
                Err(e) => Err(e),
            }
        } else {
            Err(spec_unexpected(seq![Rule::Ident, Rule::ColType, Rule::ColSettings], c))
        }
    }
}

/// One column declaration.
pub open spec fn spec_parse_table_col(n: CstNode) -> Result<SpecTableField, SpecParsingError> {
    table_col_fold(n.children@, 0, empty_table_field())
}

// ---------------------------------------------------------------------------
// Enums
// ---------------------------------------------------------------------------

/// Folds one enum attribute: only an inline note is recognized.
pub open spec fn enum_attr_fold(cs: Seq<CstNode>, i: int, acc: SpecEnumValue) -> Result<
    SpecEnumValue,
    SpecParsingError,
>
    decreases cs.len() - i,
{
    if i >= cs.len() {
        Ok(acc)
    } else {
        let c = cs[i];
        if c.rule == Rule::NoteInline {
            match spec_parse_note_inline(c) {
                Ok(s) => enum_attr_fold(
                    cs,
                    i + 1,
                    SpecEnumValue { value: acc.value, note: Some(s) },
                ),
                Err(e) => Err(e),
            }
        } else {
            Err(spec_unexpected(seq![Rule::NoteInline], c))
        }
    }
}

/// Folds an enum member's settings: each child is one enum attribute.
pub open spec fn enum_settings_fold(cs: Seq<CstNode>, i: int, acc: SpecEnumValue) -> Result<
    SpecEnumValue,
    SpecParsingError,
>
    decreases cs.len() - i,
{
    if i >= cs.len() {
        Ok(acc)
    } else {
        let c = cs[i];
        if c.rule == Rule::EnumAttribute {
            match enum_attr_fold(c.children@, 0, acc) {
                Ok(a) => enum_settings_fold(cs, i + 1, a),
                Err(e) => Err(e),
            }
        } else {
            Err(spec_unexpected(seq![Rule::EnumAttribute], c))
        }
    }
}

/// Folds one enum member: its name and its optional settings.
pub open spec fn enum_value_fold(cs: Seq<CstNode>, i: int, acc: SpecEnumValue) -> Result<
    SpecEnumValue,
    SpecParsingError,
>
    decreases cs.len() - i,
{
    if i >= cs.len() {
        Ok(acc)
    } else {
        let c = cs[i];
        if c.rule == Rule::Ident {
            match spec_parse_ident(c) {
                Ok(name) => enum_value_fold(
                    cs,
                    i + 1,
                    SpecEnumValue { value: name, note: acc.note },
                ),
                Err(e) => Err(e),
            }
        } else if c.rule == Rule::EnumSettings {
            match enum_settings_fold(c.children@, 0, acc) {
                Ok(a) => enum_value_fold(cs, i + 1, a),
                Err(e) => Err(e),
            }
        } else {
            Err(spec_unexpected(seq![Rule::Ident, Rule::EnumSettings], c))
        }
    }
}

/// One enum member.
pub open spec fn spec_parse_enum_value(n: CstNode) -> Result<SpecEnumValue, SpecParsingError> {
    enum_value_fold(n.children@, 0, SpecEnumValue { value: Seq::empty(), note: None })
}

/// Folds an enum block: each child is one member, order preserved.
pub open spec fn enum_block_fold(cs: Seq<CstNode>, i: int, acc: Seq<SpecEnumValue>) -> Result<
    Seq<SpecEnumValue>,
    SpecParsingError,
>
    decreases cs.len() - i,
{
    if i >= cs.len() {
        Ok(acc)
    } else {
        let c = cs[i];
        if c.rule == Rule::EnumValue {
            match spec_parse_enum_value(c) {
                Ok(v) => enum_block_fold(cs, i + 1, acc.push(v)),
                Err(e) => Err(e),
            }
        } else {
            Err(spec_unexpected(seq![Rule::EnumValue], c))
        }
    }
}

/// An enum block's ordered members.
pub open spec fn spec_parse_enum_block(n: CstNode) -> Result<Seq<SpecEnumValue>, SpecParsingError> {
    enum_block_fold(n.children@, 0, Seq::empty())
}

/// Folds one enum declaration: its qualified name and its block.
pub open spec fn enum_decl_fold(cs: Seq<CstNode>, i: int, acc: SpecEnumBlock) -> Result<
    SpecEnumBlock,
    SpecParsingError,
>
    decreases cs.len() - i,
{
    if i >= cs.len() {
        Ok(acc)
    } else {
        let c = cs[i];
        if c.rule == Rule::DeclIdent {
            match spec_parse_decl_ident(c) {
                Ok((schema, name)) => enum_decl_fold(
                    cs,
                    i + 1,
                    SpecEnumBlock { ident: SpecEnumIdent { schema, name }, values: acc.values },
                ),
                Err(e) => Err(e),
            }
        } else if c.rule == Rule::EnumBlock {
            match spec_parse_enum_block(c) {
                Ok(vs) => enum_decl_fold(cs, i + 1, SpecEnumBlock { ident: acc.ident, values: vs }),
                Err(e) => Err(e),
            }
        } else {
            Err(spec_unexpected(seq![Rule::DeclIdent, Rule::EnumBlock], c))
        }
    }
}

/// One enum declaration.
pub open spec fn spec_parse_enum_decl(n: CstNode) -> Result<SpecEnumBlock, SpecParsingError> {
    enum_decl_fold(
        n.children@,
        0,
        SpecEnumBlock {
            ident: SpecEnumIdent { schema: None, name: Seq::empty() },
            values: Seq::empty(),
        },
    )
}

// ---------------------------------------------------------------------------
// Table groups
// ---------------------------------------------------------------------------

/// Folds a table-group block: each child is a qualified table name.
pub open spec fn table_group_block_fold(
    cs: Seq<CstNode>,
    i: int,
    acc: SpecTableGroupBlock,
) -> Result<SpecTableGroupBlock, SpecParsingError>
    decreases cs.len() - i,
{
    if i >= cs.len() {
        Ok(acc)
    } else {
        let c = cs[i];
        if c.rule == Rule::DeclIdent {
            match spec_parse_decl_ident(c) {
                Ok((schema, name)) => table_group_block_fold(
                    cs,
                    i + 1,
                    SpecTableGroupBlock {
                        name: acc.name,
                        table_idents: acc.table_idents.push(
                            SpecTableGroupIdent { schema, ident_alias: name },
                        ),
                    },
                ),
                Err(e) => Err(e),
            }
        } else {
            Err(spec_unexpected(seq![Rule::DeclIdent], c))
        }
    }
}

/// Folds one table-group declaration: its name and its block of table
/// references.
pub open spec fn table_group_fold(cs: Seq<CstNode>, i: int, acc: SpecTableGroupBlock) -> Result<
    SpecTableGroupBlock,
    SpecParsingError,
>
    decreases cs.len() - i,
{
    if i >= cs.len() {
        Ok(acc)
    } else {
        let c = cs[i];
        if c.rule == Rule::Ident {
            match spec_parse_ident(c) {
                Ok(name) => table_group_fold(
                    cs,
                    i + 1,
                    SpecTableGroupBlock { name, table_idents: acc.table_idents },
                ),
                Err(e) => Err(e),
            }
        } else if c.rule == Rule::TableGroupBlock {
            match table_group_block_fold(c.children@, 0, acc) {
                Ok(a) => table_group_fold(cs, i + 1, a),
                Err(e) => Err(e),
            }
        } else {
            Err(spec_unexpected(seq![Rule::Ident, Rule::TableGroupBlock], c))
        }
    }
}

/// One table-group declaration.
pub open spec fn spec_parse_table_group_decl(n: CstNode) -> Result<
    SpecTableGroupBlock,
    SpecParsingError,
> {
    table_group_fold(
        n.children@,
        0,
        SpecTableGroupBlock { name: Seq::empty(), table_idents: Seq::empty() },
    )
}

// ---------------------------------------------------------------------------
// Project
// ---------------------------------------------------------------------------

/// Folds one project statement into its `(key, value)` pair.
pub open spec fn project_stmt_fold(
    cs: Seq<CstNode>,
    i: int,
    key: Seq<char>,
    value: Seq<char>,
) -> Result<(Seq<char>, Seq<char>), SpecParsingError>
    decreases cs.len() - i,
{
    if i >= cs.len() {
        Ok((key, value))
    } else {
        let c = cs[i];
        if c.rule == Rule::ProjectKey {
            project_stmt_fold(cs, i + 1, c.text@, value)
        } else if c.rule == Rule::StringValue {
            match spec_parse_string_value(c) {
                Ok(v) => project_stmt_fold(cs, i + 1, key, v),
                Err(e) => Err(e),
            }
        } else {
            Err(spec_unexpected(seq![Rule::ProjectKey, Rule::StringValue], c))
        }
    }
}

/// One project statement: its configuration key and its string value.
pub open spec fn spec_parse_project_stmt(n: CstNode) -> Result<
    (Seq<char>, Seq<char>),
    SpecParsingError,
> {
    project_stmt_fold(n.children@, 0, Seq::empty(), Seq::empty())
}

/// Folds a project block: `database_type` is the only recognized
/// configuration key; any other key is named in an error; a note
/// declaration is accepted.
pub open spec fn project_block_fold(cs: Seq<CstNode>, i: int, acc: SpecProjectBlock) -> Result<
    SpecProjectBlock,
    SpecParsingError,
>
    decreases cs.len() - i,
{
    if i >= cs.len() {
        Ok(acc)
    } else {
        let c = cs[i];
        if c.rule == Rule::ProjectStmt {
            match spec_parse_project_stmt(c) {
                Ok((key, value)) => {
                    if key == "database_type"@ {
                        project_block_fold(
                            cs,
                            i + 1,
                            SpecProjectBlock {
                                name: acc.name,
                                database_type: value,
                                note: acc.note,
                            },
                        )
                    } else {
                        Err(spec_invalid(AttributeContext::ProjectKey, key, c.span))
                    }
                },
                Err(e) => Err(e),
            }
        } else if c.rule == Rule::NoteDecl {
            match spec_parse_note_decl(c) {
                Ok(s) => project_block_fold(
                    cs,
                    i + 1,
                    SpecProjectBlock {
                        name: acc.name,
                        database_type: acc.database_type,
                        note: Some(s),
                    },
                ),
                Err(e) => Err(e),
            }
        } else {
            Err(spec_unexpected(seq![Rule::ProjectStmt, Rule::NoteDecl], c))
        }
    }
}

/// Folds one project declaration: its name and its block.
pub open spec fn project_decl_fold(cs: Seq<CstNode>, i: int, acc: SpecProjectBlock) -> Result<
    SpecProjectBlock,
    SpecParsingError,
>
    decreases cs.len() - i,
{
    if i >= cs.len() {
        Ok(acc)
    } else {
        let c = cs[i];
        if c.rule == Rule::Ident {
            match spec_parse_ident(c) {
                Ok(name) => project_decl_fold(
                    cs,
                    i + 1,
                    SpecProjectBlock {
                        name,
                        database_type: acc.database_type,
                        note: acc.note,
                    },
                ),
                Err(e) => Err(e),
            }
        } else if c.rule == Rule::ProjectBlock {
            match project_block_fold(c.children@, 0, acc) {
                Ok(a) => project_decl_fold(cs, i + 1, a),
                Err(e) => Err(e),
            }
        } else {
            Err(spec_unexpected(seq![Rule::ProjectBlock], c))
        }
    }
}

/// One project declaration.
pub open spec fn spec_parse_project_decl(n: CstNode) -> Result<SpecProjectBlock, SpecParsingError> {
    project_decl_fold(
        n.children@,
        0,
        SpecProjectBlock { name: Seq::empty(), database_type: Seq::empty(), note: None },
    )
}

// ---------------------------------------------------------------------------
// Indexes
// ---------------------------------------------------------------------------

/// Folds an indexed entity: a plain identifier, or a backquoted raw
/// expression taken verbatim from its value node.
pub open spec fn indexes_ident_fold(cs: Seq<CstNode>, i: int, n: CstNode) -> Result<
    SpecIndexesIdent,
    SpecParsingError,
>
    decreases cs.len() - i,
{
    if i >= cs.len() {
        Err(spec_contract(n))
    } else {
        let c = cs[i];
        if c.rule == Rule::Ident {
            match spec_parse_ident(c) {
                Ok(s) => Ok(SpecIndexesIdent::Ident(s)),
                Err(e) => Err(e),
            }
        } else if c.rule == Rule::BackquotedQuotedString {
            if c.children@.len() == 0 {
                indexes_ident_fold(cs, i + 1, n)
            } else {
                let c0 = c.children@[0];
                if c0.rule == Rule::BackquotedQuotedValue {
                    Ok(SpecIndexesIdent::Expr(c0.text@))
                } else {
                    Err(spec_unexpected(seq![Rule::BackquotedQuotedValue], c0))
                }
            }
        } else {
            Err(spec_unexpected(seq![Rule::Ident, Rule::BackquotedQuotedString], c))
        }
    }
}

/// One indexed entity.
pub open spec fn spec_parse_indexes_ident(n: CstNode) -> Result<
    SpecIndexesIdent,
    SpecParsingError,
> {
    indexes_ident_fold(n.children@, 0, n)
}

/// Folds an index-name sub-form: each child contributes its string value,
/// the last one winning.
pub open spec fn indexes_name_fold(cs: Seq<CstNode>, i: int, acc: SpecIndexesSettings) -> Result<
    SpecIndexesSettings,
    SpecParsingError,
>
    decreases cs.len() - i,
{
    if i >= cs.len() {
        Ok(acc)
    } else {
        match spec_parse_string_value(cs[i]) {
            Ok(s) => indexes_name_fold(
                cs,
                i + 1,
                SpecIndexesSettings {
                    is_unique: acc.is_unique,
                    is_pk: acc.is_pk,
                    index_type: acc.index_type,
                    name: Some(s),
                    note: acc.note,
                },
            ),
            Err(e) => Err(e),
        }
    }
}

/// Folds one indexes attribute: the raw matched text is checked first
/// against the keyword set — `unique`, `pk` — and only then decomposed
/// into the structured sub-forms (`type`, `name`, `note`).
pub open spec fn indexes_attr_fold(cs: Seq<CstNode>, i: int, acc: SpecIndexesSettings) -> Result<
    SpecIndexesSettings,
    SpecParsingError,
>
    decreases cs.len() - i,
{
    if i >= cs.len() {
        Ok(acc)
    } else {
        let c = cs[i];
        if c.text@ == "unique"@ {
            indexes_attr_fold(
                cs,
                i + 1,
                SpecIndexesSettings {
                    is_unique: true,
                    is_pk: acc.is_pk,
                    index_type: acc.index_type,
                    name: acc.name,
                    note: acc.note,
                },
            )
        } else if c.text@ == "pk"@ {
            indexes_attr_fold(
                cs,
                i + 1,
                SpecIndexesSettings {
                    is_unique: acc.is_unique,
                    is_pk: true,
                    index_type: acc.index_type,
                    name: acc.name,
                    note: acc.note,
                },
            )
        } else if c.rule == Rule::IndexesType {
            let t = if c.children@.len() == 0 {
                None
            } else {
                Some(spec_indexes_type(c.children@.last().text@))
            };
            indexes_attr_fold(
                cs,
                i + 1,
                SpecIndexesSettings {
                    is_unique: acc.is_unique,
                    is_pk: acc.is_pk,
                    index_type: t,
                    name: acc.name,
                    note: acc.note,
                },
            )
        } else if c.rule == Rule::IndexesName {
            match indexes_name_fold(c.children@, 0, acc) {
                Ok(a) => indexes_attr_fold(cs, i + 1, a),
                Err(e) => Err(e),
            }
        } else if c.rule == Rule::NoteInline {
            match spec_parse_note_inline(c) {
                Ok(s) => indexes_attr_fold(
                    cs,
                    i + 1,
                    SpecIndexesSettings {
                        is_unique: acc.is_unique,
                        is_pk: acc.is_pk,
                        index_type: acc.index_type,
                        name: acc.name,
                        note: Some(s),
                    },
                ),
                Err(e) => Err(e),
            }
        } else {
            Err(spec_invalid(AttributeContext::IndexesAttribute, c.text@, c.span))
        }
    }
}

/// Folds an indexes-settings node: each child is one attribute.
pub open spec fn indexes_settings_fold(
    cs: Seq<CstNode>,
    i: int,
    acc: SpecIndexesSettings,
) -> Result<SpecIndexesSettings, SpecParsingError>
    decreases cs.len() - i,
{
    if i >= cs.len() {
        Ok(acc)
    } else {
        let c = cs[i];
        if c.rule == Rule::IndexesAttribute {
            match indexes_attr_fold(c.children@, 0, acc) {
                Ok(a) => indexes_settings_fold(cs, i + 1, a),
                Err(e) => Err(e),
            }
        } else {
            Err(spec_unexpected(seq![Rule::IndexesAttribute], c))
        }
    }
}

/// An index's attributes.
pub open spec fn spec_parse_indexes_settings(n: CstNode) -> Result<
    SpecIndexesSettings,
    SpecParsingError,
> {
    indexes_settings_fold(
        n.children@,
        0,
        SpecIndexesSettings {
            is_unique: false,
            is_pk: false,
            index_type: None,
            name: None,
            note: None,
        },
    )
}

/// Folds one index declaration: its ordered indexed entities and its
/// optional settings.
pub open spec fn indexes_def_fold(cs: Seq<CstNode>, i: int, acc: SpecIndexesDef) -> Result<
    SpecIndexesDef,
    SpecParsingError,
>
    decreases cs.len() - i,
{
    if i >= cs.len() {
        Ok(acc)
    } else {
        let c = cs[i];
        if c.rule == Rule::IndexesIdent {
            match spec_parse_indexes_ident(c) {
                Ok(id) => indexes_def_fold(
                    cs,
                    i + 1,
                    SpecIndexesDef { idents: acc.idents.push(id), settings: acc.settings },
                ),
                Err(e) => Err(e),
            }
        } else if c.rule == Rule::IndexesSettings {
            match spec_parse_indexes_settings(c) {
                Ok(s) => indexes_def_fold(
                    cs,
                    i + 1,
                    SpecIndexesDef { idents: acc.idents, settings: Some(s) },
                ),
                Err(e) => Err(e),
            }
        } else {
            Err(spec_unexpected(seq![Rule::IndexesIdent, Rule::IndexesSettings], c))
        }
    }
}

/// One index declaration, single- or multi-column.
pub open spec fn spec_parse_indexes_single_multi(n: CstNode) -> Result<
    SpecIndexesDef,
    SpecParsingError,
> {
    indexes_def_fold(n.children@, 0, SpecIndexesDef { idents: Seq::empty(), settings: None })
}

/// Folds an indexes block: each child is one index declaration.
pub open spec fn indexes_block_fold(cs: Seq<CstNode>, i: int, acc: Seq<SpecIndexesDef>) -> Result<
    Seq<SpecIndexesDef>,
    SpecParsingError,
>
    decreases cs.len() - i,
{
    if i >= cs.len() {
        Ok(acc)
    } else {
        let c = cs[i];
        if c.rule == Rule::IndexesSingle || c.rule == Rule::IndexesMulti {
            match spec_parse_indexes_single_multi(c) {
                Ok(d) => indexes_block_fold(cs, i + 1, acc.push(d)),
                Err(e) => Err(e),
            }
        } else {
            Err(spec_unexpected(seq![Rule::IndexesSingle, Rule::IndexesMulti], c))
        }
    }
}

/// A table's ordered index declarations.
pub open spec fn spec_parse_indexes_block(n: CstNode) -> Result<
    SpecIndexesBlock,
    SpecParsingError,
> {
    match indexes_block_fold(n.children@, 0, Seq::empty()) {
        Ok(defs) => Ok(SpecIndexesBlock { defs }),
        Err(e) => Err(e),
    }
}

/// An indexes declaration: its block; the first child decides.
pub open spec fn spec_parse_indexes_decl(n: CstNode) -> Result<
    SpecIndexesBlock,
    SpecParsingError,
> {
    if n.children@.len() == 0 {
        Err(spec_contract(n))
    } else {
        let c0 = n.children@[0];
        if c0.rule == Rule::IndexesBlock {
            spec_parse_indexes_block(c0)
        } else {
            Err(spec_unexpected(seq![Rule::IndexesBlock], c0))
        }
    }
}

// ---------------------------------------------------------------------------
// Tables
// ---------------------------------------------------------------------------

/// The default table a fold starts from.
pub open spec fn empty_table_block() -> SpecTableBlock {
    SpecTableBlock {
        ident: SpecTableIdent { schema: None, name: Seq::empty(), alias: None },
        fields: Seq::empty(),
        note: None,
        indexes: None,
    }
}

/// Folds a table block: columns in order, an optional note, an optional
/// indexes declaration.
pub open spec fn table_block_fold(cs: Seq<CstNode>, i: int, acc: SpecTableBlock) -> Result<
    SpecTableBlock,
    SpecParsingError,
>
    decreases cs.len() - i,
{
    if i >= cs.len() {
        Ok(acc)
    } else {
        let c = cs[i];
        if c.rule == Rule::TableCol {
            match spec_parse_table_col(c) {
                Ok(f) => table_block_fold(
                    cs,
                    i + 1,
                    SpecTableBlock {
                        ident: acc.ident,
                        fields: acc.fields.push(f),
                        note: acc.note,
                        indexes: acc.indexes,
                    },
                ),
                Err(e) => Err(e),
            }
        } else if c.rule == Rule::NoteDecl {
            match spec_parse_note_decl(c) {
                Ok(s) => table_block_fold(
                    cs,
                    i + 1,
                    SpecTableBlock {
                        ident: acc.ident,
                        fields: acc.fields,
                        note: Some(s),
                        indexes: acc.indexes,
                    },
                ),
                Err(e) => Err(e),
            }
        } else if c.rule == Rule::IndexesDecl {
            match spec_parse_indexes_decl(c) {
                Ok(ix) => table_block_fold(
                    cs,
                    i + 1,
                    SpecTableBlock {
                        ident: acc.ident,
                        fields: acc.fields,
                        note: acc.note,
                        indexes: Some(ix),
                    },
                ),
                Err(e) => Err(e),
            }
        } else {
            Err(spec_unexpected(seq![Rule::TableCol, Rule::NoteDecl, Rule::IndexesDecl], c))
        }
    }
}

/// Folds one table declaration: its qualified name, its optional alias,
/// and its block.
pub open spec fn table_decl_fold(cs: Seq<CstNode>, i: int, acc: SpecTableBlock) -> Result<
    SpecTableBlock,
    SpecParsingError,
>
    decreases cs.len() - i,
{
    if i >= cs.len() {
        Ok(acc)
    } else {
        let c = cs[i];
        if c.rule == Rule::DeclIdent {
            match spec_parse_decl_ident(c) {
                Ok((schema, name)) => table_decl_fold(
                    cs,
                    i + 1,
                    SpecTableBlock {
                        ident: SpecTableIdent { schema, name, alias: acc.ident.alias },
                        fields: acc.fields,
                        note: acc.note,
                        indexes: acc.indexes,
                    },
                ),
                Err(e) => Err(e),
            }
        } else if c.rule == Rule::TableAlias {
            table_decl_fold(
                cs,
                i + 1,
                SpecTableBlock {
                    ident: SpecTableIdent {
                        schema: acc.ident.schema,
                        name: acc.ident.name,
                        alias: Some(c.text@),
                    },
                    fields: acc.fields,
                    note: acc.note,
                    indexes: acc.indexes,
                },
            )
        } else if c.rule == Rule::TableBlock {
            match table_block_fold(c.children@, 0, acc) {
                Ok(a) => table_decl_fold(cs, i + 1, a),
                Err(e) => Err(e),
            }
        } else {
            Err(spec_unexpected(seq![Rule::DeclIdent, Rule::TableAlias, Rule::TableBlock], c))
        }
    }
}

/// One table declaration.
pub open spec fn spec_parse_table_decl(n: CstNode) -> Result<SpecTableBlock, SpecParsingError> {
    table_decl_fold(n.children@, 0, empty_table_block())
}

// ---------------------------------------------------------------------------
// Whole document
// ---------------------------------------------------------------------------

/// The empty document a schema fold starts from.
pub open spec fn empty_schema_block() -> SpecSchemaBlock {
    SpecSchemaBlock {
        project: None,
        tables: Seq::empty(),
        enums: Seq::empty(),
        refs: Seq::empty(),
        table_groups: Seq::empty(),
    }
}

/// Folds the document's declarations in order; an end-of-input marker is
/// skipped.
pub open spec fn schema_fold(cs: Seq<CstNode>, i: int, acc: SpecSchemaBlock) -> Result<
    SpecSchemaBlock,
    SpecParsingError,
>
    decreases cs.len() - i,
{
    if i >= cs.len() {
        Ok(acc)
    } else {
        let c = cs[i];
        if c.rule == Rule::ProjectDecl {
            match spec_parse_project_decl(c) {
                Ok(p) => schema_fold(
                    cs,
                    i + 1,
                    SpecSchemaBlock {
                        project: Some(p),
                        tables: acc.tables,
                        enums: acc.enums,
                        refs: acc.refs,
                        table_groups: acc.table_groups,
                    },
                ),
                Err(e) => Err(e),
            }
        } else if c.rule == Rule::TableDecl {
            match spec_parse_table_decl(c) {
                Ok(t) => schema_fold(
                    cs,
                    i + 1,
                    SpecSchemaBlock {
                        project: acc.project,
                        tables: acc.tables.push(t),
                        enums: acc.enums,
                        refs: acc.refs,
                        table_groups: acc.table_groups,
                    },
                ),
                Err(e) => Err(e),
            }
        } else if c.rule == Rule::EnumDecl {
            match spec_parse_enum_decl(c) {
                Ok(en) => schema_fold(
                    cs,
                    i + 1,
                    SpecSchemaBlock {
                        project: acc.project,
                        tables: acc.tables,
                        enums: acc.enums.push(en),
                        refs: acc.refs,
                        table_groups: acc.table_groups,
                    },
                ),
                Err(e) => Err(e),
            }
        } else if c.rule == Rule::RefDecl {
            match spec_parse_ref_decl(c) {
                Ok(rb) => schema_fold(
                    cs,
                    i + 1,
                    SpecSchemaBlock {
                        project: acc.project,
                        tables: acc.tables,
                        enums: acc.enums,
                        refs: acc.refs.push(rb),
                        table_groups: acc.table_groups,
                    },
                ),
                Err(e) => Err(e),
            }
        } else if c.rule == Rule::TableGroupDecl {
            match spec_parse_table_group_decl(c) {
                Ok(g) => schema_fold(
                    cs,
                    i + 1,
                    SpecSchemaBlock {
                        project: acc.project,
                        tables: acc.tables,
                        enums: acc.enums,
                        refs: acc.refs,
                        table_groups: acc.table_groups.push(g),
                    },
                ),
                Err(e) => Err(e),
            }
        } else if c.rule == Rule::Eoi {
            schema_fold(cs, i + 1, acc)
        } else {
            Err(
                spec_unexpected(
                    seq![
                        Rule::ProjectDecl,
                        Rule::TableDecl,
                        Rule::EnumDecl,
                        Rule::RefDecl,
                        Rule::TableGroupDecl,
                    ],
                    c,
                ),
            )
        }
    }
}

/// The whole document's declarations, reduced in order.
pub open spec fn spec_parse_schema(n: CstNode) -> Result<SpecSchemaBlock, SpecParsingError> {
    schema_fold(n.children@, 0, empty_schema_block())
}

/// The top-level reduction: the root node must be a schema.
pub open spec fn spec_parse(n: CstNode) -> Result<SpecSchemaBlock, SpecParsingError> {
    if n.rule == Rule::Schema {
        spec_parse_schema(n)
    } else {
        Err(spec_unexpected(seq![Rule::Schema], n))
    }
}

} // verus!
