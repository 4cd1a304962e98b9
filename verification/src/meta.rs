//! Metadata about the languages a toolchain can compile.

pub mod language;
