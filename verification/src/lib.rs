//! A configuration-driven HTTP gateway core: a route table maps exact request
//! paths to upstream specifications, an upstream fetch is planned from the
//! inbound request, the upstream body is filtered through a jq program, and
//! the outcome is turned into exactly one HTTP response.
//!
//! Everything here is pure with respect to the network: the surrounding
//! binary performs the actual HTTP calls and hands their outcomes back in.

pub mod config;
pub mod dispatch;
pub mod fetch;
pub mod response;
pub mod routes;
pub mod transform;

pub use config::AppConfig;
pub use config::PathConfig;
pub use config::RouteEntry;
pub use config::default_listen;
pub use config::default_paths;
pub use routes::RouteTable;
