//! Verified parameter handling for OP-TEE trusted applications and plugins,
//! the signature checks of the plugin attribute macros, and the planning
//! logic of the `cargo-optee` build tool.
pub mod cargo_optee;
pub mod error;
pub mod parameter;
pub mod plugin;
pub mod plugin_bindgen;
pub mod plugin_signature;
pub mod raw;
pub mod text;
