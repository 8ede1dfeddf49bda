//! The semantic core of a domain modeling language: a model of parsed modules, the
//! resolution of their cross-references against a store of loaded modules, and two
//! judgments on each module, completeness (every definition has the body it needs) and
//! correctness (names, imports and constraints obey the static rules), the second
//! reported as a sequence of diagnostics.
pub mod annotations;
pub mod concat;
pub mod constraints;
pub mod definitions;
pub mod diagnostics;
pub mod entities;
pub mod identifiers;
pub mod members;
pub mod modules;
pub mod sequences;
pub mod structures;
pub mod validation;
pub mod values;
