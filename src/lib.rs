//! Core logic of a host that runs WebAssembly components as content-addressed
//! "machines": identities, registries, hostname routing and capability rules.
pub mod api;
pub mod bls;
pub mod config;
pub mod dispatch;
pub mod environment;
pub mod guest;
pub mod hex;
pub mod host_header;
pub mod http;
pub mod ids;
pub mod laws;
pub mod loader;
pub mod machines;
pub mod registry;
pub mod resolver;
pub mod text;
