//! The analysis orchestrator.
//!
//! One module is analyzed in a fixed order: state extraction, documentation
//! extraction, instruction-set extraction, then the marker-stripping pass,
//! and finally assembly of the intermediate representation. The first failing
//! step aborts the analysis of the module; later steps are not attempted and
//! no partial representation is produced.

use crate::ast::{clone_ident, Attribute, ProgramModule};
use crate::error::StructuralError;
use crate::ir::{FallbackDescriptor, InstructionDescriptor, Program, StateDescriptor};
use crate::stripper::{module_stripped, strip_module};
use vstd::prelude::*;

verus! {

/// The external collaborators the analyzer sequences. The analysis core
/// takes their results as given: nothing is assumed about them beyond their
/// signatures, and the driver supplies the real extraction passes.
pub trait Extractors {
    /// Describes the module's state declaration, if it has one.
    fn extract_state(&mut self, module: &ProgramModule) -> Result<
        Option<StateDescriptor>,
        StructuralError,
    >;

    /// Collects the module's documentation lines from its attribute list.
    /// Total: this collaborator never fails.
    fn extract_docs(&mut self, attrs: &Vec<Attribute>) -> Vec<String>;

    /// Describes the module's instruction set: one descriptor per handler, in
    /// order, and the fallback handler if one is designated.
    fn extract_instructions(&mut self, module: &ProgramModule) -> Result<
        (Vec<InstructionDescriptor>, Option<FallbackDescriptor>),
        StructuralError,
    >;
}

/// Assembles the intermediate representation from the module and the
/// collaborators' results: the tree is rewritten by the marker-stripping
/// pass and retained, the name is the module's identifier, and each
/// extraction result is kept exactly as handed in.
pub fn assemble(
    program_mod: ProgramModule,
    state: Option<StateDescriptor>,
    docs: Vec<String>,
    ixs: Vec<InstructionDescriptor>,
    fallback_fn: Option<FallbackDescriptor>,
) -> (p: Program)
    ensures
        p.name == program_mod.ident,
        module_stripped(program_mod, p.program_mod),
        p.state == state,
        p.docs == docs,
        p.ixs == ixs,
        p.fallback_fn == fallback_fn,
{
    let mut retained = program_mod;
    strip_module(&mut retained);
    let name = clone_ident(&retained.ident);
    Program { name, state, ixs, fallback_fn, docs, program_mod: retained }
}

/// Analyzes one program module against the given collaborators.
///
/// The fixed order is: state extraction, documentation extraction,
/// instruction-set extraction, marker stripping, assembly. A collaborator's
/// error is returned verbatim and ends the analysis. On success the
/// representation's name equals the module's identifier and the retained
/// tree is the input tree after the marker-stripping pass.
pub fn parse<E: Extractors>(program_mod: ProgramModule, extractors: &mut E) -> (r: Result<
    Program,
    StructuralError,
>)
    ensures
        r matches Ok(p) ==> p.name == program_mod.ident && module_stripped(
            program_mod,
            p.program_mod,
        ),
{
    let state = match extractors.extract_state(&program_mod) {
        Ok(state) => state,
        Err(e) => {
            return Err(e);
        },
    };
    let docs = extractors.extract_docs(&program_mod.attrs);
    let (ixs, fallback_fn) = match extractors.extract_instructions(&program_mod) {
        Ok(set) => set,
        Err(e) => {
            return Err(e);
        },
    };
    Ok(assemble(program_mod, state, docs, ixs, fallback_fn))
}

} // verus!
