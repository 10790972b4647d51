//! The application front: the static server settings and the application
//! value binding settings to a route table.  Listening on a socket and
//! serving requests is the host's concern; this module carries the state
//! the host serves from.

use vstd::prelude::*;

use crate::routes::Routes;

verus! {

/// Static server settings: where to bind, where templates live, and which
/// URI prefix is served as static files.
#[derive(Clone, Copy, Debug)]
pub struct Config {
    pub bind_path: &'static str,
    pub base_path: &'static str,
    pub static_uri_pref: &'static str,
}

impl Config {
    /// The built-in settings the server falls back to when the host
    /// supplies nothing else.
    pub fn new() -> (r: Config)
        ensures
            r.bind_path@ == "127.0.0.1:8080"@,
            r.base_path@ == ""@,
            r.static_uri_pref@ == "/css/"@,
    {
        Config { bind_path: "127.0.0.1:8080", base_path: "", static_uri_pref: "/css/" }
    }
}

/// An application: its settings and its route table, ready for the host
/// to serve.
pub struct Ctchi<A> {
    config: Config,
    routes: Routes<A>,
}

impl<A> Ctchi<A> {
    /// The settings this application was created with.
    pub closed spec fn spec_config(&self) -> Config {
        self.config
    }

    /// The route table this application was created with.
    pub closed spec fn spec_routes(&self) -> Routes<A> {
        self.routes
    }

    /// Creates an application with the specified settings and routes.
    pub fn new(config: Config, routes: Routes<A>) -> (r: Ctchi<A>)
        ensures
            r.spec_config() == config,
            r.spec_routes() == routes,
    {
        Ctchi { config, routes }
    }

    /// The settings, for the serving host.
    pub fn config(&self) -> (r: &Config)
        ensures
            *r == self.spec_config(),
    {
        &self.config
    }

    /// The route table, for the serving host.
    pub fn routes(&self) -> (r: &Routes<A>)
        ensures
            *r == self.spec_routes(),
    {
        &self.routes
    }
}

} // verus!
