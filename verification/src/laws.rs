//! Laws of the reducer, each proved from the model in `model`: order
//! preservation across a whole document, qualified-name resolution, the
//! column-attribute keyword table, the array marker, the relation-operator
//! pivot, and the rejection of unknown attribute keys.

use vstd::prelude::*;

use crate::ast::{
    spec_relation, Relation, SpecColumnSettings, SpecColumnType, SpecProjectBlock, SpecRefBlock,
    SpecSchemaBlock, SpecValue,
};
use crate::cst::{CstNode, Rule};
use crate::err::{spec_invalid, AttributeContext, SpecParsingError};
use crate::model::{
    col_attr_apply, col_type_fold, col_type_inner_fold, decl_ident_fold, empty_ref_block,
    empty_schema_block, project_block_fold, ref_stmt_fold, schema_fold, spec_parse,
    spec_parse_col_type, spec_parse_decl_ident, spec_parse_enum_decl, spec_parse_ident,
    spec_parse_project_decl, spec_parse_project_stmt, spec_parse_ref_decl, spec_parse_ref_ident,
    spec_parse_ref_stmt, spec_parse_table_decl, spec_parse_table_group_decl,
};

verus! {

/// The children of rule kind `want`, from position `i` on, in document
/// order.
pub open spec fn decls_of(cs: Seq<CstNode>, i: int, want: Rule) -> Seq<CstNode>
    decreases cs.len() - i,
{
    if i >= cs.len() {
        Seq::empty()
    } else if cs[i].rule == want {
        seq![cs[i]] + decls_of(cs, i + 1, want)
    } else {
        decls_of(cs, i + 1, want)
    }
}

/// Inductive core of the order-preservation law: a successful schema fold
/// extends each of the accumulator's collections with exactly the
/// reductions of the corresponding declarations, in document order.
pub proof fn lemma_schema_fold_order(cs: Seq<CstNode>, i: int, acc: SpecSchemaBlock)
    requires
        0 <= i <= cs.len(),
        schema_fold(cs, i, acc) is Ok,
    ensures
        ({
            let s = schema_fold(cs, i, acc)->Ok_0;
            let tds = decls_of(cs, i, Rule::TableDecl);
            let eds = decls_of(cs, i, Rule::EnumDecl);
            let rds = decls_of(cs, i, Rule::RefDecl);
            let gds = decls_of(cs, i, Rule::TableGroupDecl);
            &&& s.tables.len() == acc.tables.len() + tds.len()
            &&& (forall|k: int| 0 <= k < acc.tables.len() ==> s.tables[k] == acc.tables[k])
            &&& (forall|k: int|
                0 <= k < tds.len() ==> spec_parse_table_decl(#[trigger] tds[k]) == Ok::<
                    _,
                    SpecParsingError,
                >(s.tables[acc.tables.len() + k]))
            &&& s.enums.len() == acc.enums.len() + eds.len()
            &&& (forall|k: int| 0 <= k < acc.enums.len() ==> s.enums[k] == acc.enums[k])
            &&& (forall|k: int|
                0 <= k < eds.len() ==> spec_parse_enum_decl(#[trigger] eds[k]) == Ok::<
                    _,
                    SpecParsingError,
                >(s.enums[acc.enums.len() + k]))
            &&& s.refs.len() == acc.refs.len() + rds.len()
            &&& (forall|k: int| 0 <= k < acc.refs.len() ==> s.refs[k] == acc.refs[k])
            &&& (forall|k: int|
                0 <= k < rds.len() ==> spec_parse_ref_decl(#[trigger] rds[k]) == Ok::<
                    _,
                    SpecParsingError,
                >(s.refs[acc.refs.len() + k]))
            &&& s.table_groups.len() == acc.table_groups.len() + gds.len()
            &&& (forall|k: int|
                0 <= k < acc.table_groups.len() ==> s.table_groups[k] == acc.table_groups[k])
            &&& (forall|k: int|
                0 <= k < gds.len() ==> spec_parse_table_group_decl(#[trigger] gds[k]) == Ok::<
                    _,
                    SpecParsingError,
                >(s.table_groups[acc.table_groups.len() + k]))
        }),
    decreases cs.len() - i,
{
    if i < cs.len() {
        let c = cs[i];
        let s = schema_fold(cs, i, acc)->Ok_0;
        if c.rule == Rule::ProjectDecl {
            let p = spec_parse_project_decl(c)->Ok_0;
            let acc2 = SpecSchemaBlock {
                project: Some(p),
                tables: acc.tables,
                enums: acc.enums,
                refs: acc.refs,
                table_groups: acc.table_groups,
            };
            lemma_schema_fold_order(cs, i + 1, acc2);
        } else if c.rule == Rule::TableDecl {
            let t = spec_parse_table_decl(c)->Ok_0;
            let acc2 = SpecSchemaBlock {
                project: acc.project,
                tables: acc.tables.push(t),
                enums: acc.enums,
                refs: acc.refs,
                table_groups: acc.table_groups,
            };
            lemma_schema_fold_order(cs, i + 1, acc2);
            let tds = decls_of(cs, i, Rule::TableDecl);
            let tds1 = decls_of(cs, i + 1, Rule::TableDecl);
            assert(tds == seq![c] + tds1);
            assert(s.tables[acc.tables.len() as int] == t);
            assert forall|k: int| 0 <= k < tds.len() implies spec_parse_table_decl(
                #[trigger] tds[k],
            ) == Ok::<_, SpecParsingError>(s.tables[acc.tables.len() + k]) by {
                if k == 0 {
                    assert(tds[0] == c);
                } else {
                    assert(tds[k] == tds1[k - 1]);
                }
            }
        } else if c.rule == Rule::EnumDecl {
            let en = spec_parse_enum_decl(c)->Ok_0;
            let acc2 = SpecSchemaBlock {
                project: acc.project,
                tables: acc.tables,
                enums: acc.enums.push(en),
                refs: acc.refs,
                table_groups: acc.table_groups,
            };
            lemma_schema_fold_order(cs, i + 1, acc2);
            let eds = decls_of(cs, i, Rule::EnumDecl);
            let eds1 = decls_of(cs, i + 1, Rule::EnumDecl);
            assert(eds == seq![c] + eds1);
            assert(s.enums[acc.enums.len() as int] == en);
            assert forall|k: int| 0 <= k < eds.len() implies spec_parse_enum_decl(
                #[trigger] eds[k],
            ) == Ok::<_, SpecParsingError>(s.enums[acc.enums.len() + k]) by {
                if k == 0 {
                    assert(eds[0] == c);
                } else {
                    assert(eds[k] == eds1[k - 1]);
                }
            }
        } else if c.rule == Rule::RefDecl {
            let rb = spec_parse_ref_decl(c)->Ok_0;
            let acc2 = SpecSchemaBlock {
                project: acc.project,
                tables: acc.tables,
                enums: acc.enums,
                refs: acc.refs.push(rb),
                table_groups: acc.table_groups,
            };
            lemma_schema_fold_order(cs, i + 1, acc2);
            let rds = decls_of(cs, i, Rule::RefDecl);
            let rds1 = decls_of(cs, i + 1, Rule::RefDecl);
            assert(rds == seq![c] + rds1);
            assert(s.refs[acc.refs.len() as int] == rb);
            assert forall|k: int| 0 <= k < rds.len() implies spec_parse_ref_decl(
                #[trigger] rds[k],
            ) == Ok::<_, SpecParsingError>(s.refs[acc.refs.len() + k]) by {
                if k == 0 {
                    assert(rds[0] == c);
                } else {
                    assert(rds[k] == rds1[k - 1]);
                }
            }
        } else if c.rule == Rule::TableGroupDecl {
            let g = spec_parse_table_group_decl(c)->Ok_0;
            let acc2 = SpecSchemaBlock {
                project: acc.project,
                tables: acc.tables,
                enums: acc.enums,
                refs: acc.refs,
                table_groups: acc.table_groups.push(g),
            };
            lemma_schema_fold_order(cs, i + 1, acc2);
            let gds = decls_of(cs, i, Rule::TableGroupDecl);
            let gds1 = decls_of(cs, i + 1, Rule::TableGroupDecl);
            assert(gds == seq![c] + gds1);
            assert(s.table_groups[acc.table_groups.len() as int] == g);
            assert forall|k: int| 0 <= k < gds.len() implies spec_parse_table_group_decl(
                #[trigger] gds[k],
            ) == Ok::<_, SpecParsingError>(s.table_groups[acc.table_groups.len() + k]) by {
                if k == 0 {
                    assert(gds[0] == c);
                } else {
                    assert(gds[k] == gds1[k - 1]);
                }
            }
        } else if c.rule == Rule::Eoi {
            lemma_schema_fold_order(cs, i + 1, acc);
        }
    }
}

/// Law: for any parse tree the reducer accepts, the tables, enums,
/// relationships, and table groups of the result are exactly the
/// reductions of the corresponding declarations among the root's
/// children, in the order they were declared.
pub proof fn lemma_reduce_preserves_order(n: CstNode)
    requires
        spec_parse(n) is Ok,
    ensures
        ({
            let s = spec_parse(n)->Ok_0;
            let tds = decls_of(n.children@, 0, Rule::TableDecl);
            let eds = decls_of(n.children@, 0, Rule::EnumDecl);
            let rds = decls_of(n.children@, 0, Rule::RefDecl);
            let gds = decls_of(n.children@, 0, Rule::TableGroupDecl);
            &&& s.tables.len() == tds.len()
            &&& (forall|k: int|
                0 <= k < tds.len() ==> spec_parse_table_decl(#[trigger] tds[k]) == Ok::<
                    _,
                    SpecParsingError,
                >(s.tables[k]))
            &&& s.enums.len() == eds.len()
            &&& (forall|k: int|
                0 <= k < eds.len() ==> spec_parse_enum_decl(#[trigger] eds[k]) == Ok::<
                    _,
                    SpecParsingError,
                >(s.enums[k]))
            &&& s.refs.len() == rds.len()
            &&& (forall|k: int|
                0 <= k < rds.len() ==> spec_parse_ref_decl(#[trigger] rds[k]) == Ok::<
                    _,
                    SpecParsingError,
                >(s.refs[k]))
            &&& s.table_groups.len() == gds.len()
            &&& (forall|k: int|
                0 <= k < gds.len() ==> spec_parse_table_group_decl(#[trigger] gds[k]) == Ok::<
                    _,
                    SpecParsingError,
                >(s.table_groups[k]))
        }),
{
    lemma_schema_fold_order(n.children@, 0, empty_schema_block());
}

/// Law: a qualified declaration name of two identifier segments resolves
/// to `(schema, name)` in that order.
pub proof fn lemma_decl_ident_qualified(n: CstNode)
    requires
        n.children@.len() == 2,
        n.children@[0].rule == Rule::Ident,
        n.children@[1].rule == Rule::Ident,
        spec_parse_ident(n.children@[0]) is Ok,
        spec_parse_ident(n.children@[1]) is Ok,
    ensures
        spec_parse_decl_ident(n) == Ok::<_, SpecParsingError>(
            (
                Some(spec_parse_ident(n.children@[0])->Ok_0),
                spec_parse_ident(n.children@[1])->Ok_0,
            ),
        ),
{
    let cs = n.children@;
    let a = spec_parse_ident(cs[0])->Ok_0;
    let b = spec_parse_ident(cs[1])->Ok_0;
    let toks0 = Seq::<Seq<char>>::empty();
    assert(decl_ident_fold(cs, 0, toks0) == decl_ident_fold(cs, 1, toks0.push(a)));
    assert(decl_ident_fold(cs, 1, toks0.push(a)) == decl_ident_fold(cs, 2, toks0.push(a).push(b)));
    assert(decl_ident_fold(cs, 2, toks0.push(a).push(b)) == Ok::<_, SpecParsingError>(
        toks0.push(a).push(b),
    ));
    assert(toks0.push(a).push(b)[0] == a);
    assert(toks0.push(a).push(b)[1] == b);
}

/// Law: a declaration name of a single identifier segment resolves to
/// `(no schema, name)`.
pub proof fn lemma_decl_ident_unqualified(n: CstNode)
    requires
        n.children@.len() == 1,
        n.children@[0].rule == Rule::Ident,
        spec_parse_ident(n.children@[0]) is Ok,
    ensures
        spec_parse_decl_ident(n) == Ok::<_, SpecParsingError>(
            (None::<Seq<char>>, spec_parse_ident(n.children@[0])->Ok_0),
        ),
{
    let cs = n.children@;
    let a = spec_parse_ident(cs[0])->Ok_0;
    let toks0 = Seq::<Seq<char>>::empty();
    assert(decl_ident_fold(cs, 0, toks0) == decl_ident_fold(cs, 1, toks0.push(a)));
    assert(decl_ident_fold(cs, 1, toks0.push(a)) == Ok::<_, SpecParsingError>(toks0.push(a)));
    assert(toks0.push(a)[0] == a);
}

/// Law: the column-attribute keywords `primary key` and `pk` are
/// equivalent — applied to the same settings they give the same result,
/// and both set `is_pk`.
pub proof fn lemma_col_attr_pk_equivalent(acc: SpecColumnSettings, c1: CstNode, c2: CstNode)
    requires
        c1.text@ == "pk"@,
        c2.text@ == "primary key"@,
    ensures
        col_attr_apply(acc, c1) == col_attr_apply(acc, c2),
        col_attr_apply(acc, c1)->Ok_0.is_pk,
{
    reveal_strlit("pk");
    reveal_strlit("primary key");
    reveal_strlit("unique");
    assert("pk"@.len() == 2);
    assert("primary key"@.len() == 11);
    assert("unique"@.len() == 6);
    assert(c1.text@ != "unique"@);
    assert(c2.text@ != "unique"@);
    let set = SpecColumnSettings {
        is_unique: acc.is_unique,
        is_pk: true,
        is_nullable: acc.is_nullable,
        is_incremental: acc.is_incremental,
        default: acc.default,
        note: acc.note,
        refs: acc.refs,
    };
    assert(col_attr_apply(acc, c1) == Ok::<_, SpecParsingError>(set));
    assert(col_attr_apply(acc, c2) == Ok::<_, SpecParsingError>(set));
}

/// Law: the column-attribute keyword `null` sets `is_nullable` and
/// changes nothing else.
pub proof fn lemma_col_attr_null(acc: SpecColumnSettings, c: CstNode)
    requires
        c.text@ == "null"@,
    ensures
        col_attr_apply(acc, c) == Ok::<_, SpecParsingError>(
            SpecColumnSettings {
                is_unique: acc.is_unique,
                is_pk: acc.is_pk,
                is_nullable: true,
                is_incremental: acc.is_incremental,
                default: acc.default,
                note: acc.note,
                refs: acc.refs,
            },
        ),
{
    reveal_strlit("null");
    reveal_strlit("unique");
    reveal_strlit("primary key");
    reveal_strlit("pk");
    assert("null"@.len() == 4);
    assert("unique"@.len() == 6);
    assert("primary key"@.len() == 11);
    assert("pk"@.len() == 2);
    assert(c.text@ != "unique"@);
    assert(c.text@ != "primary key"@);
    assert(c.text@ != "pk"@);
    assert(col_attr_apply(acc, c) is Ok);
}

/// Law: the column-attribute keyword `not null` is a no-op — the settings
/// come back unchanged, so `is_nullable` keeps its default.
pub proof fn lemma_col_attr_not_null(acc: SpecColumnSettings, c: CstNode)
    requires
        c.text@ == "not null"@,
    ensures
        col_attr_apply(acc, c) == Ok::<_, SpecParsingError>(acc),
{
    reveal_strlit("not null");
    reveal_strlit("unique");
    reveal_strlit("primary key");
    reveal_strlit("pk");
    reveal_strlit("null");
    assert("not null"@.len() == 8);
    assert("unique"@.len() == 6);
    assert("primary key"@.len() == 11);
    assert("pk"@.len() == 2);
    assert("null"@.len() == 4);
    assert(c.text@ != "unique"@);
    assert(c.text@ != "primary key"@);
    assert(c.text@ != "pk"@);
    assert(c.text@ != "null"@);
    assert(col_attr_apply(acc, c) is Ok);
}

/// Law: the column-attribute keyword `increment` sets `is_incremental`
/// and changes nothing else.
pub proof fn lemma_col_attr_increment(acc: SpecColumnSettings, c: CstNode)
    requires
        c.text@ == "increment"@,
    ensures
        col_attr_apply(acc, c) == Ok::<_, SpecParsingError>(
            SpecColumnSettings {
                is_unique: acc.is_unique,
                is_pk: acc.is_pk,
                is_nullable: acc.is_nullable,
                is_incremental: true,
                default: acc.default,
                note: acc.note,
                refs: acc.refs,
            },
        ),
{
    reveal_strlit("increment");
    reveal_strlit("unique");
    reveal_strlit("primary key");
    reveal_strlit("pk");
    reveal_strlit("null");
    reveal_strlit("not null");
    assert("increment"@.len() == 9);
    assert("unique"@.len() == 6);
    assert("primary key"@.len() == 11);
    assert("pk"@.len() == 2);
    assert("null"@.len() == 4);
    assert("not null"@.len() == 8);
    assert(c.text@ != "unique"@);
    assert(c.text@ != "primary key"@);
    assert(c.text@ != "pk"@);
    assert(c.text@ != "null"@);
    assert(c.text@ != "not null"@);
    assert(col_attr_apply(acc, c) is Ok);
}

/// Law: a column type declared through the array alternative has
/// `is_array` true in the result, regardless of the type-argument list
/// inside; the single alternative leaves it false.
pub proof fn lemma_col_type_array_marker(n: CstNode)
    requires
        n.children@.len() == 1,
        spec_parse_col_type(n) is Ok,
    ensures
        n.children@[0].rule == Rule::ColTypeArray ==> spec_parse_col_type(n)->Ok_0.2,
        n.children@[0].rule == Rule::ColTypeSingle ==> !spec_parse_col_type(n)->Ok_0.2,
{
    let cs = n.children@;
    let c = cs[0];
    if c.rule == Rule::ColTypeArray || c.rule == Rule::ColTypeSingle {
        let inner = col_type_inner_fold(
            c.children@,
            0,
            SpecColumnType::Undef,
            Seq::empty(),
        );
        match inner {
            Ok((t2, a2)) => {
                let arr = c.rule == Rule::ColTypeArray;
                assert(spec_parse_col_type(n) == col_type_fold(cs, 1, t2, a2, arr));
                assert(col_type_fold(cs, 1, t2, a2, arr) == Ok::<
                    _,
                    SpecParsingError,
                >((t2, a2, arr)));
            },
            Err(e) => {
                assert(spec_parse_col_type(n) == Err::<
                    (SpecColumnType, Seq<SpecValue>, bool),
                    _,
                >(e));
            },
        }
    }
}

/// Law: the relation operator is the pivot. In a statement of the shape
/// `group, operator, group` whose operator resolves to a known relation,
/// the group before the operator becomes the left side and the group
/// after it becomes the right side.
pub proof fn lemma_ref_pivot(n: CstNode)
    requires
        n.children@.len() == 3,
        n.children@[0].rule == Rule::RefIdent,
        n.children@[1].rule == Rule::Relation,
        n.children@[2].rule == Rule::RefIdent,
        spec_relation(n.children@[1].text@) != Relation::Undef,
        spec_parse_ref_ident(n.children@[0]) is Ok,
        spec_parse_ref_ident(n.children@[2]) is Ok,
    ensures
        spec_parse_ref_stmt(n) == Ok::<_, SpecParsingError>(
            SpecRefBlock {
                rel: spec_relation(n.children@[1].text@),
                lhs: Some(spec_parse_ref_ident(n.children@[0])->Ok_0),
                rhs: spec_parse_ref_ident(n.children@[2])->Ok_0,
                settings: None,
            },
        ),
{
    let cs = n.children@;
    let acc0 = empty_ref_block();
    let v0 = spec_parse_ref_ident(cs[0])->Ok_0;
    let acc1 = SpecRefBlock { rel: Relation::Undef, lhs: Some(v0), rhs: acc0.rhs, settings: None };
    assert(ref_stmt_fold(cs, 0, acc0) == ref_stmt_fold(cs, 1, acc1));
    let rel = spec_relation(cs[1].text@);
    let acc2 = SpecRefBlock { rel, lhs: acc1.lhs, rhs: acc1.rhs, settings: None };
    assert(ref_stmt_fold(cs, 1, acc1) == ref_stmt_fold(cs, 2, acc2));
    let v2 = spec_parse_ref_ident(cs[2])->Ok_0;
    let acc3 = SpecRefBlock { rel, lhs: acc1.lhs, rhs: v2, settings: None };
    assert(ref_stmt_fold(cs, 2, acc2) == ref_stmt_fold(cs, 3, acc3));
    assert(ref_stmt_fold(cs, 3, acc3) == Ok::<_, SpecParsingError>(acc3));
}

/// Law: a project statement whose key is not `database_type` aborts the
/// project block with a diagnostic naming exactly that key, wherever it
/// stands in the block.
pub proof fn lemma_unknown_project_key(cs: Seq<CstNode>, i: int, acc: SpecProjectBlock)
    requires
        0 <= i < cs.len(),
        cs[i].rule == Rule::ProjectStmt,
        spec_parse_project_stmt(cs[i]) is Ok,
        spec_parse_project_stmt(cs[i])->Ok_0.0 != "database_type"@,
    ensures
        project_block_fold(cs, i, acc) == Err::<SpecProjectBlock, _>(
            spec_invalid(
                AttributeContext::ProjectKey,
                spec_parse_project_stmt(cs[i])->Ok_0.0,
                cs[i].span,
            ),
        ),
{
}

/// Law: a column attribute whose text is none of the keywords and whose
/// first sub-form is not a recognized structured sub-form aborts the
/// settings with a diagnostic naming exactly the offending text.
pub proof fn lemma_unknown_col_attribute(acc: SpecColumnSettings, c: CstNode)
    requires
        c.text@ != "unique"@,
        c.text@ != "primary key"@,
        c.text@ != "pk"@,
        c.text@ != "null"@,
        c.text@ != "not null"@,
        c.text@ != "increment"@,
        c.children@.len() > 0,
        c.children@[0].rule != Rule::ColDefault,
        c.children@[0].rule != Rule::NoteInline,
        c.children@[0].rule != Rule::RefInline,
    ensures
        col_attr_apply(acc, c) == Err::<SpecColumnSettings, _>(
            spec_invalid(
                AttributeContext::ColumnAttribute,
                c.children@[0].text@,
                c.children@[0].span,
            ),
        ),
{
}

} // verus!
