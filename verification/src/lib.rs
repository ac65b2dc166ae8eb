//! Structural analysis of one parsed program module.
//!
//! The crate turns a structured module declaration into a strongly-typed
//! intermediate representation for a downstream code generator. It
//! orchestrates three external collaborators (state, documentation and
//! instruction-set extraction), recovers the accounts-context type named by a
//! handler parameter's generic argument, and strips a marker attribute from
//! the module's functions before the tree is retained for re-emission.

pub mod analyzer;
pub mod ast;
pub mod error;
pub mod ir;
pub mod resolver;
pub mod stripper;
