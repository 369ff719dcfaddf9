//! The health record model: the shape of a single check, of a check's
//! execution definition, of the envelope returned for each matching service
//! instance, and of the metadata returned alongside every query.
//!
//! Every field is optional: the remote catalog may omit any of them, and
//! absence must stay distinguishable from an empty or zero value. The field
//! names are part of the wire contract shared with the remote service and are
//! kept exactly as the wire spells them, including the deprecated
//! human-readable duration fields, which must still be carried when the
//! remote emits them.

use std::collections::HashMap;
use vstd::prelude::*;

verus! {

/// A span of time as the wire carries it: whole seconds and a nanosecond
/// remainder.
#[derive(Debug, Clone, Copy, Default, PartialEq, Eq, Structural)]
pub struct DurationValue {
    pub secs: u64,
    pub nanos: u32,
}

/// A duration is in canonical form when the nanosecond part does not reach a
/// full second.
pub open spec fn duration_is_canonical(d: DurationValue) -> bool {
    d.nanos < 1_000_000_000
}

/// One reported health check: an immutable snapshot produced by the remote
/// system, identified by `(Node, CheckID)`.
#[derive(Debug, Clone, Default)]
#[allow(non_snake_case)]
pub struct HealthCheck {
    pub Node: Option<String>,
    pub CheckID: Option<String>,
    pub Name: Option<String>,
    pub Status: Option<String>,
    pub Notes: Option<String>,
    pub Output: Option<String>,
    pub ServiceID: Option<String>,
    pub ServiceName: Option<String>,
    pub ServiceTags: Option<Vec<String>>,
    pub Type: Option<String>,
    pub Namespace: Option<String>,
    pub Definition: Option<HealthCheckDefinition>,
    pub CreateIndex: Option<usize>,
    pub ModifyIndex: Option<usize>,
}

/// The execution parameters of an active check. The structured duration
/// fields are authoritative; the trailing human-readable duration strings are
/// a deprecated decode-compatibility path, read-only and carried verbatim.
#[derive(Debug, Clone, Default)]
#[allow(non_snake_case)]
pub struct HealthCheckDefinition {
    pub HTTP: Option<String>,
    pub Header: Option<HashMap<String, Vec<String>>>,
    pub Method: Option<String>,
    pub Body: Option<String>,
    pub TLSServerName: Option<String>,
    pub TLSSkipVerify: Option<bool>,
    pub TCP: Option<String>,
    pub IntervalDuration: Option<DurationValue>,
    pub TimeoutDuration: Option<DurationValue>,
    pub DeregisterCriticalServiceAfterDuration: Option<DurationValue>,
    pub Interval: Option<String>,
    pub Timeout: Option<String>,
    pub DeregisterCriticalServiceAfter: Option<String>,
}

/// An ordered collection of health checks; the order is the response's
/// insertion order and carries no meaning for aggregation.
#[derive(Debug, Clone, Default)]
pub struct HealthChecks(pub Vec<HealthCheck>);

impl View for HealthChecks {
    type V = Seq<HealthCheck>;

    open spec fn view(&self) -> Seq<HealthCheck> {
        self.0@
    }
}

/// A catalog node embedded in a service entry; carried through, never
/// interpreted here.
#[derive(Debug, Clone, Default)]
#[allow(non_snake_case)]
pub struct Node {
    pub ID: Option<String>,
    pub Node: Option<String>,
    pub Address: Option<String>,
    pub Datacenter: Option<String>,
}

/// An agent service record embedded in a service entry; only its address and
/// port are ever read here, for the `host:port` projection.
#[derive(Debug, Clone, Default)]
#[allow(non_snake_case)]
pub struct AgentService {
    pub ID: Option<String>,
    pub Service: Option<String>,
    pub Tags: Option<Vec<String>>,
    pub Address: Option<String>,
    pub Port: Option<u16>,
    pub Namespace: Option<String>,
}

/// One matched service instance returned by the health endpoint: its node,
/// its service record, and the checks attached to either.
#[derive(Debug, Clone, Default)]
#[allow(non_snake_case)]
pub struct ServiceEntry {
    pub Node: Option<Node>,
    pub Service: Option<AgentService>,
    pub Checks: Option<HealthChecks>,
}

/// A repeated `tag` query parameter as the wire spells it.
#[derive(Debug, Clone, Default, PartialEq)]
pub struct Tag {
    pub tag: String,
}

/// The `passing` query parameter as the wire spells it; `"1"` when only
/// passing instances are requested.
#[derive(Debug, Clone, Default, PartialEq)]
pub struct Passing {
    pub passing: String,
}

/// The projection of a query response to the `host:port` strings of the
/// entries whose service record carries both an address and a port.
#[derive(Debug, Clone, Default, PartialEq)]
pub struct ServiceAddress {
    pub address: Vec<String>,
}

/// Metadata about one query's execution, paired with its result and never
/// merged across queries. `LastIndex` and `LastContentHash` seed a blocking
/// query's continuation.
#[derive(Debug, Clone, Default)]
#[allow(non_snake_case)]
pub struct QueryMeta {
    pub LastIndex: Option<u64>,
    pub LastContentHash: Option<String>,
    pub LastContact: Option<DurationValue>,
    pub KnownLeader: Option<bool>,
    pub RequestTime: Option<DurationValue>,
    pub AddressTranslationEnabled: Option<bool>,
    pub CacheHit: Option<bool>,
    pub CacheAge: Option<DurationValue>,
    pub DefaultACLPolicy: Option<String>,
}

} // verus!
