//! Compile-time generators for transparent delegation accessors.
//!
//! Given a structure with exactly one designated inner field, the crate
//! synthesizes the two standard accessor trait implementations (read-only
//! dereference and mutable dereference) as source text, so that a wrapper
//! type can expose its inner value without hand-written boilerplate.
//!
//! Two equivalent surfaces are provided: an annotation-driven generator
//! that scans a parsed structure declaration for a marked field, and a
//! pattern-driven generator whose arguments name the field explicitly.

pub mod decl;
pub mod emit;
pub mod annotation;
pub mod pattern;
pub mod laws;
