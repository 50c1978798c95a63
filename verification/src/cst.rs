//! The concrete syntax tree handed to the reducer: a tree of tagged nodes,
//! each carrying a rule kind from a fixed, closed vocabulary, the exact
//! matched source text, its byte span, and its ordered children.

use vstd::prelude::*;

verus! {

/// The closed vocabulary of grammar rule kinds a CST node can be tagged with.
#[derive(Debug, PartialEq, Eq, Structural, Clone, Copy)]
pub enum Rule {
    Schema,
    ProjectDecl,
    ProjectBlock,
    ProjectStmt,
    ProjectKey,
    TableDecl,
    TableAlias,
    TableBlock,
    TableCol,
    ColType,
    ColTypeSingle,
    ColTypeArray,
    ColTypeArg,
    ColSettings,
    ColAttribute,
    ColDefault,
    EnumDecl,
    EnumBlock,
    EnumValue,
    EnumSettings,
    EnumAttribute,
    RefDecl,
    RefBlock,
    RefShort,
    RefStmt,
    RefInline,
    RefIdent,
    RefComposition,
    Relation,
    RelSettings,
    RelAttribute,
    RelUpdate,
    RelDelete,
    TableGroupDecl,
    TableGroupBlock,
    IndexesDecl,
    IndexesBlock,
    IndexesSingle,
    IndexesMulti,
    IndexesIdent,
    IndexesSettings,
    IndexesAttribute,
    IndexesType,
    IndexesName,
    NoteDecl,
    NoteShort,
    NoteBlock,
    NoteInline,
    Value,
    StringValue,
    NumberValue,
    BooleanValue,
    Decimal,
    Integer,
    Ident,
    DeclIdent,
    Var,
    DoubleQuotedString,
    DoubleQuotedValue,
    SingleQuotedString,
    SingleQuotedValue,
    TripleQuotedString,
    TripleQuotedValue,
    BackquotedQuotedString,
    BackquotedQuotedValue,
    Eoi,
}

/// Byte span of a node's matched text within the source document.
#[derive(Debug, PartialEq, Eq, Structural, Clone, Copy)]
pub struct Span {
    pub start: usize,
    pub end: usize,
}

/// One node of the concrete syntax tree: its rule kind, the exact source
/// text it matched, where that text sits in the document, and its ordered
/// child nodes.
#[derive(Debug)]
pub struct CstNode {
    pub rule: Rule,
    pub text: String,
    pub span: Span,
    pub children: Vec<CstNode>,
}

} // verus!
