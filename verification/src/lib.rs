//! Provisioning of isolated analysis toolchains, invocation of the analysers
//! they hold, and normalisation of what the analysers report.
//!
//! The library decides and computes; it performs no I/O. A caller runs the
//! commands that the library plans and hands the outcomes back as plain values.

pub mod analyzer;
pub mod cli;
pub mod command;
pub mod compiler;
pub mod generator;
pub mod installer;
pub mod paths;
pub mod pipeline;
pub mod reporter;
pub mod serialize;
pub mod text;
