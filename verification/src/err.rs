//! Reduction errors: the typed diagnostics the reducer produces when a
//! parse-tree node does not match any shape its construct expects.
//!
//! Reduction is fail-fast and non-recovering: the first error anywhere
//! aborts the whole document's reduction, and no partial AST is returned.

use vstd::prelude::*;

use crate::cst::{CstNode, Rule, Span};

verus! {

/// Which fixed vocabulary a rejected attribute text failed to belong to.
/// This names the construct for the diagnostic message.
#[derive(Debug, Clone, Copy, PartialEq, Eq, Structural)]
pub enum AttributeContext {
    /// A project configuration key other than the recognized set.
    ProjectKey,
    /// A column attribute that is neither a keyword nor a structured sub-form.
    ColumnAttribute,
    /// An index attribute that is neither a keyword nor a structured sub-form.
    IndexesAttribute,
    /// A boolean literal other than `true`, `false`, or `null`.
    BooleanLiteral,
    /// A malformed or out-of-range 32-bit integer literal.
    IntegerLiteral,
    /// A malformed or out-of-range decimal literal.
    DecimalLiteral,
}

/// A reduction failure.
#[derive(Debug, Clone)]
pub enum ParsingError {
    /// A child node's rule kind is not among those legal for its parent
    /// construct: the set of rule kinds that would have been accepted, the
    /// rule kind actually found, its literal source text, and its span.
    UnexpectedRule { expected: Vec<Rule>, found: Rule, text: String, span: Span },
    /// A matched text belongs to a recognized category but is not a member
    /// of that category's fixed vocabulary.
    InvalidAttribute { context: AttributeContext, text: String, span: Span },
    /// A structural condition the grammar is supposed to make impossible
    /// did not hold: a grammar/reducer mismatch, not bad user input.
    ContractViolation { rule: Rule, span: Span },
}

/// Mathematical view of a `ParsingError`.
pub enum SpecParsingError {
    UnexpectedRule { expected: Seq<Rule>, found: Rule, text: Seq<char>, span: Span },
    InvalidAttribute { context: AttributeContext, text: Seq<char>, span: Span },
    ContractViolation { rule: Rule, span: Span },
}

impl DeepView for ParsingError {
    type V = SpecParsingError;

    open spec fn deep_view(&self) -> SpecParsingError {
        match self {
            ParsingError::UnexpectedRule { expected, found, text, span } => {
                SpecParsingError::UnexpectedRule {
                    expected: expected@,
                    found: *found,
                    text: text@,
                    span: *span,
                }
            },
            ParsingError::InvalidAttribute { context, text, span } => {
                SpecParsingError::InvalidAttribute { context: *context, text: text@, span: *span }
            },
            ParsingError::ContractViolation { rule, span } => {
                SpecParsingError::ContractViolation { rule: *rule, span: *span }
            },
        }
    }
}

/// The `UnexpectedRule` diagnostic for the node `found`, blaming it for
/// not being one of `expected`.
pub open spec fn spec_unexpected(expected: Seq<Rule>, found: CstNode) -> SpecParsingError {
    SpecParsingError::UnexpectedRule {
        expected,
        found: found.rule,
        text: found.text@,
        span: found.span,
    }
}

/// The `InvalidAttribute` diagnostic naming the offending text.
pub open spec fn spec_invalid(
    context: AttributeContext,
    text: Seq<char>,
    span: Span,
) -> SpecParsingError {
    SpecParsingError::InvalidAttribute { context, text, span }
}

/// The internal-contract diagnostic for the node whose shape the grammar
/// should have ruled out.
pub open spec fn spec_contract(node: CstNode) -> SpecParsingError {
    SpecParsingError::ContractViolation { rule: node.rule, span: node.span }
}

/// Builds the `UnexpectedRule` error for `found` not being one of
/// `expected`.
pub fn unexpected(expected: Vec<Rule>, found: &CstNode) -> (e: ParsingError)
    ensures
        e.deep_view() == spec_unexpected(expected@, *found),
{
    ParsingError::UnexpectedRule {
        expected,
        found: found.rule,
        text: found.text.clone(),
        span: found.span,
    }
}

/// Builds the `InvalidAttribute` error naming the offending text.
pub fn invalid_attribute(context: AttributeContext, text: &String, span: Span) -> (e: ParsingError)
    ensures
        e.deep_view() == spec_invalid(context, text@, span),
{
    ParsingError::InvalidAttribute { context, text: text.clone(), span }
}

/// Builds the internal-contract error for `node`.
pub fn contract_violation(node: &CstNode) -> (e: ParsingError)
    ensures
        e.deep_view() == spec_contract(*node),
{
    ParsingError::ContractViolation { rule: node.rule, span: node.span }
}

} // verus!
