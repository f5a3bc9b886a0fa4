//! `ttymap.config` — read-only access to host-side configuration
//! values plugins may need at runtime.
use vstd::prelude::*;
use std::sync::Arc;
use super::LuaHostShared;

verus! {

/// Backing state of the `ttymap.config` namespace.
pub struct HostConfig {
    pub shared: Arc<LuaHostShared>,
}

impl HostConfig {
    pub fn new(shared: Arc<LuaHostShared>) -> (r: Self)
        ensures
            r.shared == shared,
    {
        Self { shared }
    }

    /// `ttymap.config:geoip_endpoint() -> string` — the configured
    /// IP-geolocation URL.
    pub fn geoip_endpoint(&self) -> (r: String)
        ensures
            r@ == self.shared.geoip_endpoint@,
    {
        self.shared.geoip_endpoint.clone()
    }
}

} // verus!
