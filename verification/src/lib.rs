//! Finalization of bundled modules: the rewrite that turns one module's
//! syntax tree into the form that is concatenated into an output file.
//!
//! Every function here takes the tree it rewrites by value and hands the new
//! tree back. What the rewrite gives is defined by spec functions on the
//! tree (`Finalizer::finalized`, `Finalizer::expression`, ..), and each
//! executable function is proved to return exactly that. The snapshots of
//! the earlier phases are read only; `Finalizer::finalize` is the entry
//! point that also decides whether they fit together.

pub mod list;
pub mod ast;
pub mod context;
pub mod snippet;
pub mod rewrite;
pub mod visit;
pub mod wrapper;
pub mod program;
pub mod validate;
pub mod laws;
pub mod markers;
