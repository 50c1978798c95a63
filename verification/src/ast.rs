//! The typed schema AST the reducer produces, together with the
//! mathematical view of each entity (`Spec*` types over `Seq`) that the
//! reducer's contracts are stated over.
//!
//! Every entity is immutable once constructed: it is built during the
//! reduction of its corresponding parse-tree node and never mutated after
//! its owning fold completes.

use vstd::prelude::*;

use crate::literals::str_eq;

verus! {

// ---------------------------------------------------------------------------
// Literal values
// ---------------------------------------------------------------------------

/// A fixed-point decimal literal: `mantissa / 10^scale`.
/// `3.14` is held as `mantissa = 314, scale = 2`; the mantissa is committed
/// to 32-bit signed width, and an overflowing literal is a reduction error.
#[derive(Debug, Clone, Copy, PartialEq, Eq, Structural)]
pub struct Decimal {
    pub mantissa: i32,
    pub scale: usize,
}

/// A literal value: string, 32-bit integer, 32-bit-mantissa decimal,
/// boolean, or null.
#[derive(Debug, Clone)]
pub enum Value {
    String(String),
    Integer(i32),
    Decimal(Decimal),
    Bool(bool),
    Null,
}

/// Mathematical view of a `Value`.
pub enum SpecValue {
    String(Seq<char>),
    Integer(i32),
    Decimal(Decimal),
    Bool(bool),
    Null,
}

impl DeepView for Value {
    type V = SpecValue;

    open spec fn deep_view(&self) -> SpecValue {
        match self {
            Value::String(s) => SpecValue::String(s@),
            Value::Integer(i) => SpecValue::Integer(*i),
            Value::Decimal(d) => SpecValue::Decimal(*d),
            Value::Bool(b) => SpecValue::Bool(*b),
            Value::Null => SpecValue::Null,
        }
    }
}

// ---------------------------------------------------------------------------
// Columns
// ---------------------------------------------------------------------------

/// A column's type name, stored as an opaque raw string; no validation
/// against a fixed type catalogue is performed.
#[derive(Debug, Clone)]
pub enum ColumnType {
    Undef,
    Raw(String),
}

/// Mathematical view of a `ColumnType`.
pub enum SpecColumnType {
    Undef,
    Raw(Seq<char>),
}

impl DeepView for ColumnType {
    type V = SpecColumnType;

    open spec fn deep_view(&self) -> SpecColumnType {
        match self {
            ColumnType::Undef => SpecColumnType::Undef,
            ColumnType::Raw(s) => SpecColumnType::Raw(s@),
        }
    }
}

/// Column attributes: the boolean toggles, an optional default value, an
/// optional note, and any inline relationship declarations.
/// The `not null` keyword is a no-op: `is_nullable` stays false by default.
#[derive(Debug, Clone)]
pub struct ColumnSettings {
    pub is_unique: bool,
    pub is_pk: bool,
    pub is_nullable: bool,
    pub is_incremental: bool,
    pub default: Option<Value>,
    pub note: Option<String>,
    pub refs: Vec<RefBlock>,
}

/// Mathematical view of `ColumnSettings`.
pub struct SpecColumnSettings {
    pub is_unique: bool,
    pub is_pk: bool,
    pub is_nullable: bool,
    pub is_incremental: bool,
    pub default: Option<SpecValue>,
    pub note: Option<Seq<char>>,
    pub refs: Seq<SpecRefBlock>,
}

impl DeepView for ColumnSettings {
    type V = SpecColumnSettings;

    open spec fn deep_view(&self) -> SpecColumnSettings {
        SpecColumnSettings {
            is_unique: self.is_unique,
            is_pk: self.is_pk,
            is_nullable: self.is_nullable,
            is_incremental: self.is_incremental,
            default: self.default.deep_view(),
            note: self.note.deep_view(),
            refs: self.refs.deep_view(),
        }
    }
}

/// One column declaration: its name, its type (possibly an array type),
/// the ordered type arguments, and its attributes.
#[derive(Debug, Clone)]
pub struct TableField {
    pub col_name: String,
    pub col_type: ColumnType,
    pub is_array: bool,
    pub col_args: Vec<Value>,
    pub col_settings: ColumnSettings,
}

/// Mathematical view of a `TableField`.
pub struct SpecTableField {
    pub col_name: Seq<char>,
    pub col_type: SpecColumnType,
    pub is_array: bool,
    pub col_args: Seq<SpecValue>,
    pub col_settings: SpecColumnSettings,
}

impl DeepView for TableField {
    type V = SpecTableField;

    open spec fn deep_view(&self) -> SpecTableField {
        SpecTableField {
            col_name: self.col_name@,
            col_type: self.col_type.deep_view(),
            is_array: self.is_array,
            col_args: self.col_args.deep_view(),
            col_settings: self.col_settings.deep_view(),
        }
    }
}

// ---------------------------------------------------------------------------
// Tables
// ---------------------------------------------------------------------------

/// A table's schema-qualified name and optional alias.
#[derive(Debug, Clone)]
pub struct TableIdent {
    pub schema: Option<String>,
    pub name: String,
    pub alias: Option<String>,
}

/// Mathematical view of a `TableIdent`.
pub struct SpecTableIdent {
    pub schema: Option<Seq<char>>,
    pub name: Seq<char>,
    pub alias: Option<Seq<char>>,
}

impl DeepView for TableIdent {
    type V = SpecTableIdent;

    open spec fn deep_view(&self) -> SpecTableIdent {
        SpecTableIdent {
            schema: self.schema.deep_view(),
            name: self.name@,
            alias: self.alias.deep_view(),
        }
    }
}

/// One table declaration: its identifier, its ordered columns, an optional
/// note, and an optional indexes block.
#[derive(Debug, Clone)]
pub struct TableBlock {
    pub ident: TableIdent,
    pub fields: Vec<TableField>,
    pub note: Option<String>,
    pub indexes: Option<IndexesBlock>,
}

/// Mathematical view of a `TableBlock`.
pub struct SpecTableBlock {
    pub ident: SpecTableIdent,
    pub fields: Seq<SpecTableField>,
    pub note: Option<Seq<char>>,
    pub indexes: Option<SpecIndexesBlock>,
}

impl DeepView for TableBlock {
    type V = SpecTableBlock;

    open spec fn deep_view(&self) -> SpecTableBlock {
        SpecTableBlock {
            ident: self.ident.deep_view(),
            fields: self.fields.deep_view(),
            note: self.note.deep_view(),
            indexes: self.indexes.deep_view(),
        }
    }
}

// ---------------------------------------------------------------------------
// Enums
// ---------------------------------------------------------------------------

/// An enum's schema-qualified name.
#[derive(Debug, Clone)]
pub struct EnumIdent {
    pub schema: Option<String>,
    pub name: String,
}

/// Mathematical view of an `EnumIdent`.
pub struct SpecEnumIdent {
    pub schema: Option<Seq<char>>,
    pub name: Seq<char>,
}

impl DeepView for EnumIdent {
    type V = SpecEnumIdent;

    open spec fn deep_view(&self) -> SpecEnumIdent {
        SpecEnumIdent { schema: self.schema.deep_view(), name: self.name@ }
    }
}

/// One enum member: its name and an optional note.
#[derive(Debug, Clone)]
pub struct EnumValue {
    pub value: String,
    pub note: Option<String>,
}

/// Mathematical view of an `EnumValue`.
pub struct SpecEnumValue {
    pub value: Seq<char>,
    pub note: Option<Seq<char>>,
}

impl DeepView for EnumValue {
    type V = SpecEnumValue;

    open spec fn deep_view(&self) -> SpecEnumValue {
        SpecEnumValue { value: self.value@, note: self.note.deep_view() }
    }
}

/// One enum declaration: its identifier and its ordered members.
#[derive(Debug, Clone)]
pub struct EnumBlock {
    pub ident: EnumIdent,
    pub values: Vec<EnumValue>,
}

/// Mathematical view of an `EnumBlock`.
pub struct SpecEnumBlock {
    pub ident: SpecEnumIdent,
    pub values: Seq<SpecEnumValue>,
}

impl DeepView for EnumBlock {
    type V = SpecEnumBlock;

    open spec fn deep_view(&self) -> SpecEnumBlock {
        SpecEnumBlock { ident: self.ident.deep_view(), values: self.values.deep_view() }
    }
}

// ---------------------------------------------------------------------------
// Relationships
// ---------------------------------------------------------------------------

/// The kind of a relationship, resolved from its operator token:
/// `<` one-to-many, `>` many-to-one, `-` one-to-one, `<>` many-to-many.
#[derive(Debug, Clone, Copy, PartialEq, Eq, Structural)]
pub enum Relation {
    Undef,
    OneToMany,
    ManyToOne,
    OneToOne,
    ManyToMany,
}

impl DeepView for Relation {
    type V = Relation;

    open spec fn deep_view(&self) -> Relation {
        *self
    }
}

/// The relation kind an operator token resolves to.
pub open spec fn spec_relation(s: Seq<char>) -> Relation {
    if s == "<"@ {
        Relation::OneToMany
    } else if s == ">"@ {
        Relation::ManyToOne
    } else if s == "-"@ {
        Relation::OneToOne
    } else if s == "<>"@ {
        Relation::ManyToMany
    } else {
        Relation::Undef
    }
}

impl Relation {
    /// Resolves a relation-operator token by textual match.
    pub fn match_type(s: &str) -> (r: Relation)
        ensures
            r == spec_relation(s@),
    {
        if str_eq(s, "<") {
            Relation::OneToMany
        } else if str_eq(s, ">") {
            Relation::ManyToOne
        } else if str_eq(s, "-") {
            Relation::OneToOne
        } else if str_eq(s, "<>") {
            Relation::ManyToMany
        } else {
            Relation::Undef
        }
    }
}

/// A cascade action, resolved from its textual form.
#[derive(Debug, Clone, Copy, PartialEq, Eq, Structural)]
pub enum RelationAction {
    Undef,
    NoAction,
    Cascade,
    Restrict,
    SetNull,
    SetDefault,
}

impl DeepView for RelationAction {
    type V = RelationAction;

    open spec fn deep_view(&self) -> RelationAction {
        *self
    }
}

/// The cascade action a token resolves to.
pub open spec fn spec_relation_action(s: Seq<char>) -> RelationAction {
    if s == "no action"@ {
        RelationAction::NoAction
    } else if s == "cascade"@ {
        RelationAction::Cascade
    } else if s == "restrict"@ {
        RelationAction::Restrict
    } else if s == "set null"@ {
        RelationAction::SetNull
    } else if s == "set default"@ {
        RelationAction::SetDefault
    } else {
        RelationAction::Undef
    }
}

impl RelationAction {
    /// Resolves a cascade-action token by textual match.
    pub fn match_type(s: &str) -> (r: RelationAction)
        ensures
            r == spec_relation_action(s@),
    {
        if str_eq(s, "no action") {
            RelationAction::NoAction
        } else if str_eq(s, "cascade") {
            RelationAction::Cascade
        } else if str_eq(s, "restrict") {
            RelationAction::Restrict
        } else if str_eq(s, "set null") {
            RelationAction::SetNull
        } else if str_eq(s, "set default") {
            RelationAction::SetDefault
        } else {
            RelationAction::Undef
        }
    }
}

/// One side of a relationship: an optionally schema-qualified table
/// reference plus the ordered column names it is keyed on (one or more,
/// supporting composite foreign keys).
#[derive(Debug, Clone)]
pub struct RefIdent {
    pub schema: Option<String>,
    pub table: String,
    pub compositions: Vec<String>,
}

/// Mathematical view of a `RefIdent`.
pub struct SpecRefIdent {
    pub schema: Option<Seq<char>>,
    pub table: Seq<char>,
    pub compositions: Seq<Seq<char>>,
}

impl DeepView for RefIdent {
    type V = SpecRefIdent;

    open spec fn deep_view(&self) -> SpecRefIdent {
        SpecRefIdent {
            schema: self.schema.deep_view(),
            table: self.table@,
            compositions: self.compositions.deep_view(),
        }
    }
}

/// Cascade behavior attached to a relationship.
#[derive(Debug, Clone)]
pub struct RelationSettings {
    pub on_update: Option<RelationAction>,
    pub on_delete: Option<RelationAction>,
}

/// Mathematical view of `RelationSettings`.
pub struct SpecRelationSettings {
    pub on_update: Option<RelationAction>,
    pub on_delete: Option<RelationAction>,
}

impl DeepView for RelationSettings {
    type V = SpecRelationSettings;

    open spec fn deep_view(&self) -> SpecRelationSettings {
        SpecRelationSettings {
            on_update: self.on_update.deep_view(),
            on_delete: self.on_delete.deep_view(),
        }
    }
}

/// One relationship declaration. The left-hand side stays `None` for
/// short, single-sided reference forms; the relation kind acts as the
/// pivot that decides which side an identifier group lands on.
#[derive(Debug, Clone)]
pub struct RefBlock {
    pub rel: Relation,
    pub lhs: Option<RefIdent>,
    pub rhs: RefIdent,
    pub settings: Option<RelationSettings>,
}

/// Mathematical view of a `RefBlock`.
pub struct SpecRefBlock {
    pub rel: Relation,
    pub lhs: Option<SpecRefIdent>,
    pub rhs: SpecRefIdent,
    pub settings: Option<SpecRelationSettings>,
}

impl DeepView for RefBlock {
    type V = SpecRefBlock;

    open spec fn deep_view(&self) -> SpecRefBlock {
        SpecRefBlock {
            rel: self.rel,
            lhs: self.lhs.deep_view(),
            rhs: self.rhs.deep_view(),
            settings: self.settings.deep_view(),
        }
    }
}

// ---------------------------------------------------------------------------
// Table groups
// ---------------------------------------------------------------------------

/// One table reference inside a table group: an optional schema and the
/// referenced table's name (resolution to an actual table is a downstream
/// responsibility).
#[derive(Debug, Clone)]
pub struct TableGroupIdent {
    pub schema: Option<String>,
    pub ident_alias: String,
}

/// Mathematical view of a `TableGroupIdent`.
pub struct SpecTableGroupIdent {
    pub schema: Option<Seq<char>>,
    pub ident_alias: Seq<char>,
}

impl DeepView for TableGroupIdent {
    type V = SpecTableGroupIdent;

    open spec fn deep_view(&self) -> SpecTableGroupIdent {
        SpecTableGroupIdent {
            schema: self.schema.deep_view(),
            ident_alias: self.ident_alias@,
        }
    }
}

/// A logical grouping of tables under a group name.
#[derive(Debug, Clone)]
pub struct TableGroupBlock {
    pub name: String,
    pub table_idents: Vec<TableGroupIdent>,
}

/// Mathematical view of a `TableGroupBlock`.
pub struct SpecTableGroupBlock {
    pub name: Seq<char>,
    pub table_idents: Seq<SpecTableGroupIdent>,
}

impl DeepView for TableGroupBlock {
    type V = SpecTableGroupBlock;

    open spec fn deep_view(&self) -> SpecTableGroupBlock {
        SpecTableGroupBlock {
            name: self.name@,
            table_idents: self.table_idents.deep_view(),
        }
    }
}

// ---------------------------------------------------------------------------
// Indexes
// ---------------------------------------------------------------------------

/// One indexed entity: either a plain column identifier or a raw
/// backtick-quoted expression.
#[derive(Debug, Clone)]
pub enum IndexesIdent {
    Ident(String),
    Expr(String),
}

/// Mathematical view of an `IndexesIdent`.
pub enum SpecIndexesIdent {
    Ident(Seq<char>),
    Expr(Seq<char>),
}

impl DeepView for IndexesIdent {
    type V = SpecIndexesIdent;

    open spec fn deep_view(&self) -> SpecIndexesIdent {
        match self {
            IndexesIdent::Ident(s) => SpecIndexesIdent::Ident(s@),
            IndexesIdent::Expr(s) => SpecIndexesIdent::Expr(s@),
        }
    }
}

/// An index's storage structure, resolved from its textual form.
#[derive(Debug, Clone, Copy, PartialEq, Eq, Structural)]
pub enum IndexesType {
    Undef,
    BTree,
    Hash,
}

impl DeepView for IndexesType {
    type V = IndexesType;

    open spec fn deep_view(&self) -> IndexesType {
        *self
    }
}

/// The index storage structure a token resolves to.
pub open spec fn spec_indexes_type(s: Seq<char>) -> IndexesType {
    if s == "btree"@ {
        IndexesType::BTree
    } else if s == "hash"@ {
        IndexesType::Hash
    } else {
        IndexesType::Undef
    }
}

impl IndexesType {
    /// Resolves an index storage-structure token by textual match.
    pub fn match_type(s: &str) -> (r: IndexesType)
        ensures
            r == spec_indexes_type(s@),
    {
        if str_eq(s, "btree") {
            IndexesType::BTree
        } else if str_eq(s, "hash") {
            IndexesType::Hash
        } else {
            IndexesType::Undef
        }
    }
}

/// Index attributes: uniqueness and primary-key toggles, an optional
/// storage type, an optional name, and an optional note.
#[derive(Debug, Clone)]
pub struct IndexesSettings {
    pub is_unique: bool,
    pub is_pk: bool,
    pub index_type: Option<IndexesType>,
    pub name: Option<String>,
    pub note: Option<String>,
}

/// Mathematical view of `IndexesSettings`.
pub struct SpecIndexesSettings {
    pub is_unique: bool,
    pub is_pk: bool,
    pub index_type: Option<IndexesType>,
    pub name: Option<Seq<char>>,
    pub note: Option<Seq<char>>,
}

impl DeepView for IndexesSettings {
    type V = SpecIndexesSettings;

    open spec fn deep_view(&self) -> SpecIndexesSettings {
        SpecIndexesSettings {
            is_unique: self.is_unique,
            is_pk: self.is_pk,
            index_type: self.index_type.deep_view(),
            name: self.name.deep_view(),
            note: self.note.deep_view(),
        }
    }
}

/// One index declaration: its ordered indexed entities and optional
/// settings.
#[derive(Debug, Clone)]
pub struct IndexesDef {
    pub idents: Vec<IndexesIdent>,
    pub settings: Option<IndexesSettings>,
}

/// Mathematical view of an `IndexesDef`.
pub struct SpecIndexesDef {
    pub idents: Seq<SpecIndexesIdent>,
    pub settings: Option<SpecIndexesSettings>,
}

impl DeepView for IndexesDef {
    type V = SpecIndexesDef;

    open spec fn deep_view(&self) -> SpecIndexesDef {
        SpecIndexesDef {
            idents: self.idents.deep_view(),
            settings: self.settings.deep_view(),
        }
    }
}

/// A table's index declarations, in declaration order.
#[derive(Debug, Clone)]
pub struct IndexesBlock {
    pub defs: Vec<IndexesDef>,
}

/// Mathematical view of an `IndexesBlock`.
pub struct SpecIndexesBlock {
    pub defs: Seq<SpecIndexesDef>,
}

impl DeepView for IndexesBlock {
    type V = SpecIndexesBlock;

    open spec fn deep_view(&self) -> SpecIndexesBlock {
        SpecIndexesBlock { defs: self.defs.deep_view() }
    }
}

// ---------------------------------------------------------------------------
// Project
// ---------------------------------------------------------------------------

/// Project metadata: the project's name, its database type, and an
/// optional note. `database_type` is the only recognized configuration
/// key; any other key is rejected during reduction.
#[derive(Debug, Clone)]
pub struct ProjectBlock {
    pub name: String,
    pub database_type: String,
    pub note: Option<String>,
}

/// Mathematical view of a `ProjectBlock`.
pub struct SpecProjectBlock {
    pub name: Seq<char>,
    pub database_type: Seq<char>,
    pub note: Option<Seq<char>>,
}

impl DeepView for ProjectBlock {
    type V = SpecProjectBlock;

    open spec fn deep_view(&self) -> SpecProjectBlock {
        SpecProjectBlock {
            name: self.name@,
            database_type: self.database_type@,
            note: self.note.deep_view(),
        }
    }
}

// ---------------------------------------------------------------------------
// Whole document
// ---------------------------------------------------------------------------

/// The whole parsed document: at most one project block and the ordered
/// sequences of table, enum, relationship, and table-group declarations,
/// in declaration order.
#[derive(Debug, Clone)]
pub struct SchemaBlock {
    pub project: Option<ProjectBlock>,
    pub tables: Vec<TableBlock>,
    pub enums: Vec<EnumBlock>,
    pub refs: Vec<RefBlock>,
    pub table_groups: Vec<TableGroupBlock>,
}

/// Mathematical view of a `SchemaBlock`.
pub struct SpecSchemaBlock {
    pub project: Option<SpecProjectBlock>,
    pub tables: Seq<SpecTableBlock>,
    pub enums: Seq<SpecEnumBlock>,
    pub refs: Seq<SpecRefBlock>,
    pub table_groups: Seq<SpecTableGroupBlock>,
}

impl DeepView for SchemaBlock {
    type V = SpecSchemaBlock;

    open spec fn deep_view(&self) -> SpecSchemaBlock {
        SpecSchemaBlock {
            project: self.project.deep_view(),
            tables: self.tables.deep_view(),
            enums: self.enums.deep_view(),
            refs: self.refs.deep_view(),
            table_groups: self.table_groups.deep_view(),
        }
    }
}

} // verus!
