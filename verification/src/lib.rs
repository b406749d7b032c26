//! The decisions of a command that builds on-chain programs with a vendored toolchain: what the
//! command line asks for, which package is built where, how cargo is called, and what is done with
//! what it produced.

pub mod build_laws;
pub mod cargo;
pub mod cargo_laws;
pub mod command_line;
pub mod config;
pub mod laws;
pub mod metadata;
pub mod option_laws;
pub mod package;
pub mod program_laws;
pub mod report;
mod sequence;
pub mod session;
pub mod text;
pub mod text_laws;
pub mod view_laws;
