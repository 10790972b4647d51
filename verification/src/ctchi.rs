//! An earlier shape of the application front, kept for hosts built
//! against it: settings that carry their route table inline.

use vstd::prelude::*;

use crate::routes::Routes;

verus! {

/// Server settings with the route table inline.
pub struct Config<'a, A> {
    pub bind_path: &'a str,
    pub base_path: &'a str,
    pub static_uri_pref: &'a str,
    pub routes: Routes<A>,
}

/// An application wrapping its settings.
pub struct Ctchi<A> {
    config: Config<'static, A>,
}

impl<A> Ctchi<A> {
    /// The settings this application was created with.
    pub closed spec fn spec_config(&self) -> Config<'static, A> {
        self.config
    }

    /// Creates an application with the specified settings.
    pub fn new(config: Config<'static, A>) -> (r: Ctchi<A>)
        ensures
            r.spec_config() == config,
    {
        Ctchi { config }
    }

    /// The settings, for the serving host.
    pub fn config(&self) -> (r: &Config<'static, A>)
        ensures
            *r == self.spec_config(),
    {
        &self.config
    }
}

} // verus!
