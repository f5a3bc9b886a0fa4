//! `ttymap.log` — plugin-side logging sink. The target is
//! pre-formatted as `lua[<plugin>]`, the same shape the host uses for
//! its own plugin warnings.
use vstd::prelude::*;
use crate::text::concat;

verus! {

/// Backing state of the `ttymap.log` namespace.
pub struct HostLog {
    pub target: String,
}

/// The log target for plugin `tag`: `lua[<tag>]`.
pub open spec fn spec_log_target(tag: Seq<char>) -> Seq<char> {
    "lua["@ + tag + "]"@
}

/// The log target for plugin `tag`: `lua[<tag>]`.
pub fn log_target(tag: &str) -> (r: String)
    ensures
        r@ == spec_log_target(tag@),
{
    let s = concat("lua[", tag);
    concat(s.as_str(), "]")
}

impl HostLog {
    pub fn new(target: String) -> (r: Self)
        ensures
            r.target == target,
    {
        Self { target }
    }
}

} // verus!
