//! An incremental build orchestrator for small C projects.
//!
//! A project is described by a manifest; its sources are compiled to
//! content-addressed object files and linked into one binary. The work of a
//! build is modelled as a directed acyclic graph of tasks, executed in
//! dependency order with the first failure aborting the rest.

pub mod builder;
pub mod cli;
pub mod compiler;
pub mod config;
pub mod directory;
pub mod executable;
pub mod executor;
pub mod fingerprint;
pub mod meta;
pub mod node;
pub mod object;
pub mod project_tools;
pub mod text;
