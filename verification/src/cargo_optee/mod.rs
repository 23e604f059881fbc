//! The planning logic of the `cargo-optee` build tool: targets and
//! toolchains, configuration resolution, the cargo invocations it runs, and
//! UUID extraction from built ELF images.
pub mod artifacts;
pub mod builder;
pub mod cli;
pub mod common;
pub mod config;
pub mod elf_uuid;
pub mod fmt;
