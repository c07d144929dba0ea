//! Dispatch core of a command-line chat client: the registry of model
//! backends, the catalog of the models they offer, the proxy policy, the
//! dry-run policy shared by every backend and the decisions of the
//! cancellable streaming bridge.

pub mod model;
pub mod text;
pub mod error;
pub mod proxy;
pub mod config;
pub mod registry;
pub mod client;
pub mod bridge;
