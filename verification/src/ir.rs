//! The intermediate representation handed to the downstream generator.

use crate::ast::{Ident, ProgramModule};
use vstd::prelude::*;

verus! {

/// The module's state declaration, as the state extractor describes it.
#[derive(Clone, Debug, PartialEq, Eq)]
pub struct StateDescriptor {
    pub ident: Ident,
}

/// One externally invocable instruction: the handler's name and the
/// accounts-context type its first context parameter names.
#[derive(Clone, Debug, PartialEq, Eq)]
pub struct InstructionDescriptor {
    pub ident: Ident,
    pub accounts_ctx: Ident,
}

/// The designated handler invoked when no other handler matches.
#[derive(Clone, Debug, PartialEq, Eq)]
pub struct FallbackDescriptor {
    pub ident: Ident,
}

/// The assembled intermediate representation of one program module. The name
/// always equals the analyzed module's identifier, and the retained tree is
/// the input tree after the marker-stripping pass.
#[derive(Debug, PartialEq, Eq)]
pub struct Program {
    pub name: Ident,
    pub state: Option<StateDescriptor>,
    pub ixs: Vec<InstructionDescriptor>,
    pub fallback_fn: Option<FallbackDescriptor>,
    pub docs: Vec<String>,
    pub program_mod: ProgramModule,
}

} // verus!
