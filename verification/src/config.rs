//! The in-memory configuration model: a listen address and a set of routes,
//! each route pairing an exact request path with the upstream specification
//! to serve it from.

use vstd::prelude::*;

verus! {

/// The upstream specification for one configured path: where to fetch from
/// and which jq program to run over the fetched body.
#[derive(Debug)]
pub struct PathConfig {
    pub source_url: String,
    pub jq_filter: String,
}

/// Ghost image of a `PathConfig`: both fields as character sequences.
pub ghost struct PathConfigV {
    pub source_url: Seq<char>,
    pub jq_filter: Seq<char>,
}

impl View for PathConfig {
    type V = PathConfigV;

    open spec fn view(&self) -> PathConfigV {
        PathConfigV { source_url: self.source_url@, jq_filter: self.jq_filter@ }
    }
}

/// One configured route: an exact request path and its upstream specification.
#[derive(Debug)]
pub struct RouteEntry {
    pub path: String,
    pub target: PathConfig,
}

/// Ghost image of a `RouteEntry`.
pub ghost struct RouteEntryV {
    pub path: Seq<char>,
    pub target: PathConfigV,
}

impl View for RouteEntry {
    type V = RouteEntryV;

    open spec fn view(&self) -> RouteEntryV {
        RouteEntryV { path: self.path@, target: self.target@ }
    }
}

/// The whole configuration: the listen address and the configured routes.
/// The route list may be empty here; building a route table from it rejects
/// that case, so an empty configuration can never serve requests.
#[derive(Debug)]
pub struct AppConfig {
    pub listen: String,
    pub paths: Vec<RouteEntry>,
}

/// The listen address used when the configuration gives none.
pub fn default_listen() -> (r: String)
    ensures
        r@ == "0.0.0.0:8080"@,
{
    "0.0.0.0:8080".to_owned()
}

/// The route set used when the configuration gives none: empty, which the
/// route-table builder then rejects.
pub fn default_paths() -> (r: Vec<RouteEntry>)
    ensures
        r@.len() == 0,
{
    Vec::new()
}

} // verus!
