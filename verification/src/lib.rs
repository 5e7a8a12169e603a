//! Cross-representation entry-point resolution for a compiled program.
//!
//! A compiler frontend leaves behind two independently built views of the
//! same program: a resolved module graph and the raw per-file syntax trees.
//! This crate snapshots the resolved graph into plain records
//! ([`resolver::ModuleInfo`], [`resolver::DefinitionInfo`]), locates a named
//! entry-point definition within the snapshot, and matches the resolved
//! definition back to its syntax node by the (name, source location)
//! composite key -- the two representations share no other identifier. Every
//! operation is specified and verified over the plain-value model in
//! [`model`]; the unverified driver converts the frontend's own types into
//! that model at the boundary.

pub mod entry_point;
pub mod matcher;
pub mod model;
pub mod render;
pub mod resolver;
