//! Configuration, manifest and client-setup logic for pulling and pushing
//! WebAssembly components from OCI registries.
use vstd::prelude::*;

pub mod client;
pub mod commands;
pub mod config;
pub mod manifest;
pub mod oci;
pub mod text;

pub use client::DepsClient;
pub use config::Config;

verus! {

} // verus!
