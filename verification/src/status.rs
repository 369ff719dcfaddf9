//! The fixed vocabulary of health status tokens and maintenance keys.
//!
//! Five well-known status tokens exist: `any` (a wildcard, never a real
//! status), `passing`, `warning`, `critical` and `maintenance`. Two further
//! tokens identify operator-declared maintenance windows by check id: a fixed
//! node-maintenance id and a service-maintenance id prefix. Comparisons
//! against these tokens are by value.

use vstd::prelude::*;

verus! {

/// The wildcard status token; it matches any state and is never reported as
/// a concrete status by itself.
pub fn health_any() -> (r: String)
    ensures
        r@ == "any"@,
{
    String::from_str("any")
}

/// The status token of a check that is healthy.
pub fn health_passing() -> (r: String)
    ensures
        r@ == "passing"@,
{
    String::from_str("passing")
}

/// The status token of a check that is degraded but still serving.
pub fn health_warning() -> (r: String)
    ensures
        r@ == "warning"@,
{
    String::from_str("warning")
}

/// The status token of a check that is failing.
pub fn health_critical() -> (r: String)
    ensures
        r@ == "critical"@,
{
    String::from_str("critical")
}

/// The status token reported when a node or service is under an
/// operator-declared maintenance window.
pub fn health_maint() -> (r: String)
    ensures
        r@ == "maintenance"@,
{
    String::from_str("maintenance")
}

/// The reserved check id set by a node in maintenance mode.
pub fn node_maint() -> (r: String)
    ensures
        r@ == node_maint_id(),
{
    String::from_str("_node_maintenance")
}

/// The prefix of the reserved check ids set for a service in maintenance
/// mode.
pub fn service_maint_prefix() -> (r: String)
    ensures
        r@ == service_maint_prefix_id(),
{
    String::from_str("_service_maintenance:")
}

/// The check id that marks a node in maintenance mode.
pub open spec fn node_maint_id() -> Seq<char> {
    "_node_maintenance"@
}

/// The prefix of check ids that mark a service in maintenance mode.
pub open spec fn service_maint_prefix_id() -> Seq<char> {
    "_service_maintenance:"@
}

/// A check id flags maintenance when it equals the node-maintenance id or
/// starts with the service-maintenance prefix; maintenance is a property of
/// the id, never of the status value.
pub open spec fn is_maintenance_id(id: Seq<char>) -> bool {
    id == node_maint_id() || service_maint_prefix_id().is_prefix_of(id)
}

} // verus!
