use dbml::ast::{ColumnType, IndexesIdent, IndexesType, Relation, RelationAction, Value};
use dbml::cst::{CstNode, Rule, Span};
use dbml::err::{AttributeContext, ParsingError};
use dbml::parser::parse;

fn node(rule: Rule, text: &str, children: Vec<CstNode>) -> CstNode {
    CstNode { rule, text: text.to_string(), span: Span { start: 0, end: 0 }, children }
}

fn node_at(rule: Rule, text: &str, start: usize, end: usize, children: Vec<CstNode>) -> CstNode {
    CstNode { rule, text: text.to_string(), span: Span { start, end }, children }
}

fn var_ident(name: &str) -> CstNode {
    node(Rule::Ident, name, vec![node(Rule::Var, name, vec![])])
}

fn quoted_ident(name: &str) -> CstNode {
    node(
        Rule::Ident,
        name,
        vec![node(
            Rule::DoubleQuotedString,
            name,
            vec![node(Rule::DoubleQuotedValue, name, vec![])],
        )],
    )
}

fn single_quoted_string_value(text: &str) -> CstNode {
    node(
        Rule::StringValue,
        text,
        vec![node(
            Rule::SingleQuotedString,
            text,
            vec![node(Rule::SingleQuotedValue, text, vec![])],
        )],
    )
}

fn col_attribute(text: &str) -> CstNode {
    node(Rule::ColAttribute, text, vec![])
}

fn simple_col(name: &str, ty: &str, attrs: Vec<CstNode>) -> CstNode {
    let mut children = vec![
        var_ident(name),
        node(
            Rule::ColType,
            ty,
            vec![node(Rule::ColTypeSingle, ty, vec![node(Rule::Var, ty, vec![])])],
        ),
    ];
    if !attrs.is_empty() {
        children.push(node(Rule::ColSettings, "", attrs));
    }
    node(Rule::TableCol, "", children)
}

fn schema_of(decls: Vec<CstNode>) -> CstNode {
    let mut children = decls;
    children.push(node(Rule::Eoi, "", vec![]));
    node(Rule::Schema, "", children)
}

#[test]
fn users_table_with_pk_increment_and_not_null() {
    // Table users {
    //   id int [pk, increment]
    //   name varchar [not null]
    // }
    let table = node(
        Rule::TableDecl,
        "",
        vec![
            node(Rule::DeclIdent, "users", vec![var_ident("users")]),
            node(
                Rule::TableBlock,
                "",
                vec![
                    simple_col(
                        "id",
                        "int",
                        vec![col_attribute("pk"), col_attribute("increment")],
                    ),
                    simple_col("name", "varchar", vec![col_attribute("not null")]),
                ],
            ),
        ],
    );
    let out = parse(&schema_of(vec![table])).unwrap();
    assert_eq!(out.tables.len(), 1);
    let t = &out.tables[0];
    assert_eq!(t.ident.name, "users");
    assert!(t.ident.schema.is_none());
    assert_eq!(t.fields.len(), 2);
    let id = &t.fields[0];
    assert_eq!(id.col_name, "id");
    match &id.col_type {
        ColumnType::Raw(s) => assert_eq!(s, "int"),
        other => panic!("unexpected column type {:?}", other),
    }
    assert!(id.col_settings.is_pk);
    assert!(id.col_settings.is_incremental);
    assert!(!id.col_settings.is_nullable);
    let name = &t.fields[1];
    assert_eq!(name.col_name, "name");
    match &name.col_type {
        ColumnType::Raw(s) => assert_eq!(s, "varchar"),
        other => panic!("unexpected column type {:?}", other),
    }
    assert!(!name.col_settings.is_nullable);
}

#[test]
fn quoted_schema_qualified_table() {
    // Table "public"."orders" { id int [pk] }
    let table = node(
        Rule::TableDecl,
        "",
        vec![
            node(
                Rule::DeclIdent,
                "\"public\".\"orders\"",
                vec![quoted_ident("public"), quoted_ident("orders")],
            ),
            node(
                Rule::TableBlock,
                "",
                vec![simple_col("id", "int", vec![col_attribute("pk")])],
            ),
        ],
    );
    let out = parse(&schema_of(vec![table])).unwrap();
    let t = &out.tables[0];
    assert_eq!(t.ident.schema.as_deref(), Some("public"));
    assert_eq!(t.ident.name, "orders");
    assert!(t.fields[0].col_settings.is_pk);
}

#[test]
fn unqualified_name_has_no_schema() {
    let table = node(
        Rule::TableDecl,
        "",
        vec![
            node(Rule::DeclIdent, "orders", vec![var_ident("orders")]),
            node(Rule::TableBlock, "", vec![]),
        ],
    );
    let out = parse(&schema_of(vec![table])).unwrap();
    assert!(out.tables[0].ident.schema.is_none());
    assert_eq!(out.tables[0].ident.name, "orders");
}

#[test]
fn enum_with_noted_member() {
    // enum status { active inactive [note: 'inactive state'] }
    let en = node(
        Rule::EnumDecl,
        "",
        vec![
            node(Rule::DeclIdent, "status", vec![var_ident("status")]),
            node(
                Rule::EnumBlock,
                "",
                vec![
                    node(Rule::EnumValue, "active", vec![var_ident("active")]),
                    node(
                        Rule::EnumValue,
                        "inactive",
                        vec![
                            var_ident("inactive"),
                            node(
                                Rule::EnumSettings,
                                "",
                                vec![node(
                                    Rule::EnumAttribute,
                                    "",
                                    vec![node(
                                        Rule::NoteInline,
                                        "",
                                        vec![single_quoted_string_value("inactive state")],
                                    )],
                                )],
                            ),
                        ],
                    ),
                ],
            ),
        ],
    );
    let out = parse(&schema_of(vec![en])).unwrap();
    assert_eq!(out.enums.len(), 1);
    let e = &out.enums[0];
    assert_eq!(e.ident.name, "status");
    assert_eq!(e.values.len(), 2);
    assert_eq!(e.values[0].value, "active");
    assert!(e.values[0].note.is_none());
    assert_eq!(e.values[1].value, "inactive");
    assert_eq!(e.values[1].note.as_deref(), Some("inactive state"));
}

fn ref_side(table: &str, column: &str) -> CstNode {
    node(
        Rule::RefIdent,
        "",
        vec![
            var_ident(table),
            node(Rule::RefComposition, column, vec![var_ident(column)]),
        ],
    )
}

#[test]
fn relation_operator_pivots_sides() {
    // Ref: orders.user_id > users.id
    let stmt = node(
        Rule::RefStmt,
        "",
        vec![
            ref_side("orders", "user_id"),
            node(Rule::Relation, ">", vec![]),
            ref_side("users", "id"),
        ],
    );
    let decl = node(Rule::RefDecl, "", vec![node(Rule::RefShort, "", vec![stmt])]);
    let out = parse(&schema_of(vec![decl])).unwrap();
    assert_eq!(out.refs.len(), 1);
    let r = &out.refs[0];
    assert_eq!(r.rel, Relation::ManyToOne);
    let lhs = r.lhs.as_ref().expect("left side populated");
    assert_eq!(lhs.table, "orders");
    assert_eq!(lhs.compositions, vec!["user_id".to_string()]);
    assert_eq!(r.rhs.table, "users");
    assert_eq!(r.rhs.compositions, vec!["id".to_string()]);
}

#[test]
fn short_reference_fills_only_right_side() {
    // A short form carries the operator first and a single identifier
    // group after it: the group lands on the right side and the left side
    // stays unset.
    let stmt = node(
        Rule::RefStmt,
        "",
        vec![node(Rule::Relation, ">", vec![]), ref_side("users", "id")],
    );
    let decl = node(Rule::RefDecl, "", vec![node(Rule::RefShort, "", vec![stmt])]);
    let out = parse(&schema_of(vec![decl])).unwrap();
    let r = &out.refs[0];
    assert_eq!(r.rel, Relation::ManyToOne);
    assert!(r.lhs.is_none());
    assert_eq!(r.rhs.table, "users");
    assert_eq!(r.rhs.compositions, vec!["id".to_string()]);
}

#[test]
fn relation_settings_resolve_actions() {
    let settings = node(
        Rule::RelSettings,
        "",
        vec![node(
            Rule::RelAttribute,
            "",
            vec![
                node(Rule::RelUpdate, "", vec![node(Rule::Var, "cascade", vec![])]),
                node(Rule::RelDelete, "", vec![node(Rule::Var, "set null", vec![])]),
            ],
        )],
    );
    let stmt = node(
        Rule::RefStmt,
        "",
        vec![
            ref_side("orders", "user_id"),
            node(Rule::Relation, "<", vec![]),
            ref_side("users", "id"),
            settings,
        ],
    );
    let decl = node(Rule::RefDecl, "", vec![node(Rule::RefBlock, "", vec![stmt])]);
    let out = parse(&schema_of(vec![decl])).unwrap();
    let r = &out.refs[0];
    assert_eq!(r.rel, Relation::OneToMany);
    let s = r.settings.as_ref().expect("settings populated");
    assert_eq!(s.on_update, Some(RelationAction::Cascade));
    assert_eq!(s.on_delete, Some(RelationAction::SetNull));
}

#[test]
fn declaration_order_is_preserved() {
    let table = |name: &str| {
        node(
            Rule::TableDecl,
            "",
            vec![
                node(Rule::DeclIdent, name, vec![var_ident(name)]),
                node(Rule::TableBlock, "", vec![]),
            ],
        )
    };
    let en = node(
        Rule::EnumDecl,
        "",
        vec![
            node(Rule::DeclIdent, "status", vec![var_ident("status")]),
            node(Rule::EnumBlock, "", vec![]),
        ],
    );
    let out = parse(&schema_of(vec![table("alpha"), en, table("beta"), table("gamma")])).unwrap();
    assert_eq!(out.tables.len(), 3);
    assert_eq!(out.tables[0].ident.name, "alpha");
    assert_eq!(out.tables[1].ident.name, "beta");
    assert_eq!(out.tables[2].ident.name, "gamma");
    assert_eq!(out.enums.len(), 1);
    assert_eq!(out.enums[0].ident.name, "status");
}

#[test]
fn primary_key_and_pk_are_equivalent() {
    let with = |attr: &str| {
        let table = node(
            Rule::TableDecl,
            "",
            vec![
                node(Rule::DeclIdent, "t", vec![var_ident("t")]),
                node(
                    Rule::TableBlock,
                    "",
                    vec![simple_col("id", "int", vec![col_attribute(attr)])],
                ),
            ],
        );
        parse(&schema_of(vec![table])).unwrap()
    };
    let a = with("pk");
    let b = with("primary key");
    let sa = &a.tables[0].fields[0].col_settings;
    let sb = &b.tables[0].fields[0].col_settings;
    assert!(sa.is_pk && sb.is_pk);
    assert_eq!(sa.is_unique, sb.is_unique);
    assert_eq!(sa.is_nullable, sb.is_nullable);
    assert_eq!(sa.is_incremental, sb.is_incremental);
}

#[test]
fn null_and_unique_keywords_toggle_flags() {
    let table = node(
        Rule::TableDecl,
        "",
        vec![
            node(Rule::DeclIdent, "t", vec![var_ident("t")]),
            node(
                Rule::TableBlock,
                "",
                vec![simple_col(
                    "c",
                    "text",
                    vec![col_attribute("null"), col_attribute("unique")],
                )],
            ),
        ],
    );
    let out = parse(&schema_of(vec![table])).unwrap();
    let s = &out.tables[0].fields[0].col_settings;
    assert!(s.is_nullable);
    assert!(s.is_unique);
    assert!(!s.is_pk);
}

#[test]
fn array_marker_sets_is_array_regardless_of_arguments() {
    let array_col = node(
        Rule::TableCol,
        "",
        vec![
            var_ident("tags"),
            node(
                Rule::ColType,
                "varchar(10)[]",
                vec![node(
                    Rule::ColTypeArray,
                    "varchar(10)[]",
                    vec![
                        node(Rule::Var, "varchar", vec![]),
                        node(
                            Rule::ColTypeArg,
                            "10",
                            vec![node(
                                Rule::Value,
                                "10",
                                vec![node(
                                    Rule::NumberValue,
                                    "10",
                                    vec![node(Rule::Integer, "10", vec![])],
                                )],
                            )],
                        ),
                    ],
                )],
            ),
        ],
    );
    let table = node(
        Rule::TableDecl,
        "",
        vec![
            node(Rule::DeclIdent, "t", vec![var_ident("t")]),
            node(Rule::TableBlock, "", vec![array_col]),
        ],
    );
    let out = parse(&schema_of(vec![table])).unwrap();
    let f = &out.tables[0].fields[0];
    assert!(f.is_array);
    assert_eq!(f.col_args.len(), 1);
    match &f.col_args[0] {
        Value::Integer(v) => assert_eq!(*v, 10),
        other => panic!("unexpected argument {:?}", other),
    }
}

#[test]
fn default_value_and_inline_note_attributes() {
    let default_attr = node(
        Rule::ColAttribute,
        "default: 42",
        vec![node(
            Rule::ColDefault,
            "42",
            vec![node(Rule::NumberValue, "42", vec![node(Rule::Integer, "42", vec![])])],
        )],
    );
    let note_attr = node(
        Rule::ColAttribute,
        "note: 'answer'",
        vec![node(Rule::NoteInline, "", vec![single_quoted_string_value("answer")])],
    );
    let table = node(
        Rule::TableDecl,
        "",
        vec![
            node(Rule::DeclIdent, "t", vec![var_ident("t")]),
            node(
                Rule::TableBlock,
                "",
                vec![simple_col("c", "int", vec![default_attr, note_attr])],
            ),
        ],
    );
    let out = parse(&schema_of(vec![table])).unwrap();
    let s = &out.tables[0].fields[0].col_settings;
    match &s.default {
        Some(Value::Integer(v)) => assert_eq!(*v, 42),
        other => panic!("unexpected default {:?}", other),
    }
    assert_eq!(s.note.as_deref(), Some("answer"));
}

#[test]
fn table_alias_and_note_are_kept() {
    let table = node(
        Rule::TableDecl,
        "",
        vec![
            node(Rule::DeclIdent, "users", vec![var_ident("users")]),
            node(Rule::TableAlias, "u", vec![]),
            node(
                Rule::TableBlock,
                "",
                vec![node(
                    Rule::NoteDecl,
                    "",
                    vec![node(
                        Rule::NoteShort,
                        "",
                        vec![single_quoted_string_value("the users table")],
                    )],
                )],
            ),
        ],
    );
    let out = parse(&schema_of(vec![table])).unwrap();
    let t = &out.tables[0];
    assert_eq!(t.ident.alias.as_deref(), Some("u"));
    assert_eq!(t.note.as_deref(), Some("the users table"));
}

#[test]
fn indexes_block_with_settings() {
    let indexes = node(
        Rule::IndexesDecl,
        "",
        vec![node(
            Rule::IndexesBlock,
            "",
            vec![node(
                Rule::IndexesMulti,
                "",
                vec![
                    node(Rule::IndexesIdent, "id", vec![var_ident("id")]),
                    node(
                        Rule::IndexesIdent,
                        "`id*2`",
                        vec![node(
                            Rule::BackquotedQuotedString,
                            "`id*2`",
                            vec![node(Rule::BackquotedQuotedValue, "id*2", vec![])],
                        )],
                    ),
                    node(
                        Rule::IndexesSettings,
                        "",
                        vec![node(
                            Rule::IndexesAttribute,
                            "",
                            vec![
                                node(Rule::Var, "unique", vec![]),
                                node(
                                    Rule::IndexesType,
                                    "type: btree",
                                    vec![node(Rule::Var, "btree", vec![])],
                                ),
                                node(
                                    Rule::IndexesName,
                                    "name: 'by_id'",
                                    vec![single_quoted_string_value("by_id")],
                                ),
                            ],
                        )],
                    ),
                ],
            )],
        )],
    );
    let table = node(
        Rule::TableDecl,
        "",
        vec![
            node(Rule::DeclIdent, "t", vec![var_ident("t")]),
            node(Rule::TableBlock, "", vec![indexes]),
        ],
    );
    let out = parse(&schema_of(vec![table])).unwrap();
    let ix = out.tables[0].indexes.as_ref().expect("indexes populated");
    assert_eq!(ix.defs.len(), 1);
    let def = &ix.defs[0];
    assert_eq!(def.idents.len(), 2);
    match &def.idents[0] {
        IndexesIdent::Ident(s) => assert_eq!(s, "id"),
        other => panic!("unexpected indexed entity {:?}", other),
    }
    match &def.idents[1] {
        IndexesIdent::Expr(s) => assert_eq!(s, "id*2"),
        other => panic!("unexpected indexed entity {:?}", other),
    }
    let s = def.settings.as_ref().expect("settings populated");
    assert!(s.is_unique);
    assert!(!s.is_pk);
    assert_eq!(s.index_type, Some(IndexesType::BTree));
    assert_eq!(s.name.as_deref(), Some("by_id"));
}

#[test]
fn project_block_is_reduced() {
    let project = node(
        Rule::ProjectDecl,
        "",
        vec![
            var_ident("shop"),
            node(
                Rule::ProjectBlock,
                "",
                vec![
                    node(
                        Rule::ProjectStmt,
                        "",
                        vec![
                            node(Rule::ProjectKey, "database_type", vec![]),
                            single_quoted_string_value("PostgreSQL"),
                        ],
                    ),
                    node(
                        Rule::NoteDecl,
                        "",
                        vec![node(
                            Rule::NoteShort,
                            "",
                            vec![single_quoted_string_value("the shop schema")],
                        )],
                    ),
                ],
            ),
        ],
    );
    let out = parse(&schema_of(vec![project])).unwrap();
    let p = out.project.expect("project populated");
    assert_eq!(p.name, "shop");
    assert_eq!(p.database_type, "PostgreSQL");
    assert_eq!(p.note.as_deref(), Some("the shop schema"));
}

#[test]
fn table_group_keeps_member_order() {
    let group = node(
        Rule::TableGroupDecl,
        "",
        vec![
            var_ident("commerce"),
            node(
                Rule::TableGroupBlock,
                "",
                vec![
                    node(
                        Rule::DeclIdent,
                        "public.orders",
                        vec![var_ident("public"), var_ident("orders")],
                    ),
                    node(Rule::DeclIdent, "users", vec![var_ident("users")]),
                ],
            ),
        ],
    );
    let out = parse(&schema_of(vec![group])).unwrap();
    assert_eq!(out.table_groups.len(), 1);
    let g = &out.table_groups[0];
    assert_eq!(g.name, "commerce");
    assert_eq!(g.table_idents.len(), 2);
    assert_eq!(g.table_idents[0].schema.as_deref(), Some("public"));
    assert_eq!(g.table_idents[0].ident_alias, "orders");
    assert!(g.table_idents[1].schema.is_none());
    assert_eq!(g.table_idents[1].ident_alias, "users");
}

#[test]
fn unknown_project_key_names_the_key() {
    let project = node(
        Rule::ProjectDecl,
        "",
        vec![
            var_ident("shop"),
            node(
                Rule::ProjectBlock,
                "",
                vec![node_at(
                    Rule::ProjectStmt,
                    "foo: 'bar'",
                    5,
                    15,
                    vec![
                        node(Rule::ProjectKey, "foo", vec![]),
                        single_quoted_string_value("bar"),
                    ],
                )],
            ),
        ],
    );
    let err = parse(&schema_of(vec![project])).unwrap_err();
    match err {
        ParsingError::InvalidAttribute { context, text, span } => {
            assert_eq!(context, AttributeContext::ProjectKey);
            assert_eq!(text, "foo");
            assert_eq!(span, Span { start: 5, end: 15 });
        },
        other => panic!("unexpected error {:?}", other),
    }
}

#[test]
fn unknown_column_attribute_names_the_text() {
    let bad_attr = node(
        Rule::ColAttribute,
        "wat",
        vec![node_at(Rule::Var, "wat", 3, 6, vec![])],
    );
    let table = node(
        Rule::TableDecl,
        "",
        vec![
            node(Rule::DeclIdent, "t", vec![var_ident("t")]),
            node(Rule::TableBlock, "", vec![simple_col("c", "int", vec![bad_attr])]),
        ],
    );
    let err = parse(&schema_of(vec![table])).unwrap_err();
    match err {
        ParsingError::InvalidAttribute { context, text, span } => {
            assert_eq!(context, AttributeContext::ColumnAttribute);
            assert_eq!(text, "wat");
            assert_eq!(span, Span { start: 3, end: 6 });
        },
        other => panic!("unexpected error {:?}", other),
    }
}

#[test]
fn unexpected_rule_aborts_with_expected_set() {
    let err = parse(&schema_of(vec![node_at(Rule::Var, "x", 2, 3, vec![])])).unwrap_err();
    match err {
        ParsingError::UnexpectedRule { expected, found, text, span } => {
            assert_eq!(
                expected,
                vec![
                    Rule::ProjectDecl,
                    Rule::TableDecl,
                    Rule::EnumDecl,
                    Rule::RefDecl,
                    Rule::TableGroupDecl,
                ],
            );
            assert_eq!(found, Rule::Var);
            assert_eq!(text, "x");
            assert_eq!(span, Span { start: 2, end: 3 });
        },
        other => panic!("unexpected error {:?}", other),
    }
}

#[test]
fn non_schema_root_is_rejected() {
    let err = parse(&node(Rule::TableDecl, "", vec![])).unwrap_err();
    match err {
        ParsingError::UnexpectedRule { expected, found, .. } => {
            assert_eq!(expected, vec![Rule::Schema]);
            assert_eq!(found, Rule::TableDecl);
        },
        other => panic!("unexpected error {:?}", other),
    }
}

#[test]
fn malformed_qualified_name_is_a_contract_violation() {
    let table = node(
        Rule::TableDecl,
        "",
        vec![
            node_at(
                Rule::DeclIdent,
                "a.b.c",
                7,
                12,
                vec![var_ident("a"), var_ident("b"), var_ident("c")],
            ),
            node(Rule::TableBlock, "", vec![]),
        ],
    );
    let err = parse(&schema_of(vec![table])).unwrap_err();
    match err {
        ParsingError::ContractViolation { rule, span } => {
            assert_eq!(rule, Rule::DeclIdent);
            assert_eq!(span, Span { start: 7, end: 12 });
        },
        other => panic!("unexpected error {:?}", other),
    }
}

#[test]
fn first_error_aborts_the_whole_document() {
    // A bad declaration after a good one: no partial result comes back.
    let good = node(
        Rule::TableDecl,
        "",
        vec![
            node(Rule::DeclIdent, "ok", vec![var_ident("ok")]),
            node(Rule::TableBlock, "", vec![]),
        ],
    );
    let bad = node(Rule::Var, "x", vec![]);
    assert!(parse(&schema_of(vec![good, bad])).is_err());
}

#[test]
fn inline_reference_attribute_is_collected() {
    // id int [ref: > users.id]
    let inline_ref = node(
        Rule::ColAttribute,
        "ref: > users.id",
        vec![node(
            Rule::RefInline,
            "> users.id",
            vec![node(Rule::Relation, ">", vec![]), ref_side("users", "id")],
        )],
    );
    let table = node(
        Rule::TableDecl,
        "",
        vec![
            node(Rule::DeclIdent, "orders", vec![var_ident("orders")]),
            node(
                Rule::TableBlock,
                "",
                vec![simple_col("id", "int", vec![inline_ref])],
            ),
        ],
    );
    let out = parse(&schema_of(vec![table])).unwrap();
    let refs = &out.tables[0].fields[0].col_settings.refs;
    assert_eq!(refs.len(), 1);
    assert_eq!(refs[0].rel, Relation::ManyToOne);
    assert!(refs[0].lhs.is_none());
    assert_eq!(refs[0].rhs.table, "users");
}
