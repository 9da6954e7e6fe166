//! Derive a piecewise-defaulting deserialization routine for a named-field
//! struct: the generated code parses a shadow struct in which every field is
//! wrapped in `Option`, then substitutes the struct's `Default` value for each
//! absent field.
//!
//! The crate is split into the declaration model (`decl`), the code generator
//! itself (`engine`), and a model of the substitution step that the generated
//! routine performs at run time (`resolve`).

pub mod decl;
pub mod engine;
pub mod resolve;
