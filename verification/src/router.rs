//! The router's data: the message service and the configuration the
//! HTTP layer dispatches with, plus address building for static files.

use vstd::prelude::*;
use vstd::string::*;

use std::sync::Arc;

use crate::config::Config;
use crate::services::BaseService;

verus! {

/// Holds the message service and configuration one dispatcher serves.
pub struct Router<S> {
    service: Arc<S>,
    config: Arc<Config>,
}

impl<S: BaseService> Router<S> {
    /// The held service.
    pub closed spec fn spec_service(self) -> S {
        *self.service
    }

    /// The held configuration.
    pub closed spec fn spec_config(self) -> Config {
        *self.config
    }

    /// Wraps a service and a configuration for dispatch.
    pub fn new(service: S, config: Arc<Config>) -> (r: Self)
        ensures
            r.spec_service() == service,
            r.spec_config() == config,
    {
        Router { service: Arc::new(service), config }
    }

    /// Shares the held service.
    pub fn service(&self) -> (r: &Arc<S>)
        ensures
            **r == self.spec_service(),
    {
        &self.service
    }

    /// Shares the held configuration.
    pub fn config(&self) -> (r: &Arc<Config>)
        ensures
            **r == self.spec_config(),
    {
        &self.config
    }
}

/// The address of a static file: the base address, a slash, the path.
pub fn build_static_address(base: &str, path: &str) -> (r: String)
    ensures
        r@ == base@ + "/"@ + path@,
{
    let mut s = base.to_owned();
    s.append("/");
    s.append(path);
    s
}

} // verus!
