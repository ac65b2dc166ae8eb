//! Everything that can stop the analysis of one module.

use crate::ast::Span;
use vstd::prelude::*;

verus! {

/// A collaborator's failure, kept exactly as the collaborator reported it:
/// the position it points at and its message.
#[derive(Clone, Debug, PartialEq, Eq)]
pub struct CollabError {
    pub span: Span,
    pub message: String,
}

/// The taxonomy of analysis failures. The first four variants are structural
/// findings of the accounts-context resolution; the last wraps a
/// collaborator's failure unmodified. Analysis is terminal on every variant:
/// no partial intermediate representation is ever produced.
#[derive(Clone, Debug, PartialEq, Eq)]
pub enum StructuralError {
    /// The parameter's declared type is not a path type.
    InvalidParameterType(Span),
    /// The type's first path segment carries no angle-bracketed argument list.
    MissingGenericArguments(Span),
    /// An argument list exists but holds no type-valued argument.
    MissingAccountsContext(Span),
    /// The first type-valued argument is itself not a path type.
    InvalidAccountsContextType(Span),
    /// A collaborator failed; its error is carried through verbatim.
    Collaborator(CollabError),
}

impl StructuralError {
    /// The source position this error points at.
    pub open spec fn spec_span(&self) -> Span {
        match self {
            StructuralError::InvalidParameterType(s) => *s,
            StructuralError::MissingGenericArguments(s) => *s,
            StructuralError::MissingAccountsContext(s) => *s,
            StructuralError::InvalidAccountsContextType(s) => *s,
            StructuralError::Collaborator(e) => e.span,
        }
    }

    /// The source position this error points at.
    pub fn span(&self) -> (s: Span)
        ensures
            s == self.spec_span(),
    {
        match self {
            StructuralError::InvalidParameterType(s) => *s,
            StructuralError::MissingGenericArguments(s) => *s,
            StructuralError::MissingAccountsContext(s) => *s,
            StructuralError::InvalidAccountsContextType(s) => *s,
            StructuralError::Collaborator(e) => e.span,
        }
    }
}

} // verus!
