//! Export-driven dead-code elimination for a single ECMAScript module.
//!
//! A module is modelled as an ordered list of top-level statements
//! ([`ast::Module`]); parsing source text into this model, resolving
//! identifier references, and printing a model back to text are the
//! business of an external parser and semantic analyser.  Within the
//! model, two verified passes do the work:
//!
//! * the canonicalizer ([`export_expand`]) rewrites every import/export
//!   shorthand into a normal form where each exported binding and each
//!   import specifier is its own top-level statement;
//! * the shaker ([`shake`]) computes, by graph reachability over
//!   resolved references, the minimal set of top-level statements that
//!   keeps a requested set of exports well-formed, and prunes the rest.
//!
//! The pipeline controller ([`transformer`]) runs the two passes in
//! sequence, with a fast path for the wildcard request that keeps every
//! statement.

pub mod ast;
pub mod export_expand;
pub mod module_resolve;
pub mod options;
pub mod shake;
pub mod transformer;
