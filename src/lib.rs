//! Keeps the MCP server entries of a desktop AI client's configuration file
//! in step with a registry of installable apps, and bootstraps the toolchains
//! (uv, nvm and a pinned Node release) that those apps run on.
//!
//! - `json`: the JSON value the documents are made of, with map semantics for objects.
//! - `registry`: resolving the app registry into launch configurations.
//! - `app`: install, uninstall, environment values and statuses on a configuration document.
//! - `store`: the configuration and registry caches and where the file lives.
//! - `environment`: the toolchain state machines and the one-time bootstrap.
//! - `text`: character-level string helpers.

pub mod app;
pub mod environment;
pub mod json;
pub mod registry;
pub mod store;
pub mod text;
