//! Encryption boxes for an interactive terminal: three cipher adapters behind
//! one capability, the sourcing of their key material, and the lifecycle of the
//! handle under which a crypto engine knows a registered box.

pub mod boxes;
pub mod create;
pub mod engine;
pub mod error;
pub mod handle;
pub mod info;
pub mod material;
pub mod text;
pub mod trace;
