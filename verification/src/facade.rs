//! The client-facing entry point: holds the handle to the shared transport
//! client, builds health queries, and shapes responses.
//!
//! The facade never performs I/O. Each operation checks that a client is
//! configured, captures it, and returns a fully built query for the caller's
//! transport to execute; a missing client is a configuration error raised
//! before any network attempt. `service` fixes the catalog view to
//! `connect`, a choice inherited deliberately: callers that need the plain
//! or ingress view use the lower-level `service_query`.

use crate::model::{ServiceAddress, ServiceEntry};
use crate::query::{
    build_params, build_path, health_path, opts_pairs, request_params, HealthRequest,
    HealthVariant, QueryOptions,
};
use crate::text::{decimal_seq, decimal_string};
use vstd::prelude::*;

verus! {

/// A handle to one transport client, identified by the base address it was
/// configured with. The facade only captures and hands back such handles;
/// the transport behind them lives outside this crate.
#[derive(Debug, PartialEq)]
pub struct Client {
    pub address: String,
}

impl Clone for Client {
    fn clone(&self) -> (r: Self)
        ensures
            r == *self,
    {
        Client { address: self.address.clone() }
    }
}

/// How a health operation fails: no client configured yet, a transport
/// failure propagated verbatim, or a response body that does not decode as
/// the expected shape.
#[derive(Debug, Clone, PartialEq)]
pub enum HealthError {
    ClientNotConfigured,
    Transport(String),
    Decode(String),
}

impl HealthError {
    /// A short description of the failure stage.
    pub fn message(&self) -> (r: String)
        ensures
            self is ClientNotConfigured ==> r@ == "client init err"@,
            self matches HealthError::Transport(d) ==> r@ == "transport error: "@ + d@,
            self matches HealthError::Decode(d) ==> r@ == "decode error: "@ + d@,
    {
        match self {
            HealthError::ClientNotConfigured => String::from_str("client init err"),
            HealthError::Transport(detail) => {
                let mut m = String::from_str("transport error: ");
                m.append(detail.as_str());
                m
            },
            HealthError::Decode(detail) => {
                let mut m = String::from_str("decode error: ");
                m.append(detail.as_str());
                m
            },
        }
    }
}

/// A query ready for execution, together with the client handle captured
/// for it. An operation in flight keeps using the client it captured even
/// if the facade's client is replaced meanwhile.
#[derive(Debug, Clone, PartialEq)]
pub struct PreparedQuery {
    pub client: Client,
    pub request: HealthRequest,
}

/// Whether `p` captured the client currently installed in `h`.
pub open spec fn captures_current_client(h: Health, p: PreparedQuery) -> bool {
    h.c == Some(p.client)
}

/// The single tag filter of the convenience operation: one tag when the
/// argument is non-empty, none otherwise.
pub open spec fn tag_filter(tag: Seq<char>) -> Seq<Seq<char>> {
    if tag.len() == 0 {
        Seq::empty()
    } else {
        seq![tag]
    }
}

/// Whether a service entry can be projected to an address string: its
/// service record is present and carries both an address and a port.
pub open spec fn entry_has_address(e: ServiceEntry) -> bool {
    &&& e.Service is Some
    &&& e.Service->0.Address is Some
    &&& e.Service->0.Port is Some
}

/// The `host:port` projection of one projectable entry.
pub open spec fn entry_address(e: ServiceEntry) -> Seq<char> {
    e.Service->0.Address->0@ + ":"@ + decimal_seq(e.Service->0.Port->0 as nat)
}

/// The address strings of the projectable entries, in entry order,
/// duplicates preserved; entries missing the service record, the address or
/// the port are skipped silently.
pub open spec fn addresses_spec(s: Seq<ServiceEntry>) -> Seq<Seq<char>>
    decreases s.len(),
{
    if s.len() == 0 {
        Seq::empty()
    } else {
        let prior = addresses_spec(s.drop_last());
        if entry_has_address(s.last()) {
            prior.push(entry_address(s.last()))
        } else {
            prior
        }
    }
}

/// Queries the health endpoints through a configured transport client.
#[derive(Debug, Clone, Default)]
pub struct Health {
    pub c: Option<Client>,
}

impl Health {
    /// A facade with no client configured; every query fails with a
    /// configuration error until one is installed.
    pub fn new() -> (r: Health)
        ensures
            r.c is None,
    {
        Health { c: None }
    }

    /// A facade holding the given client.
    pub fn with_client(client: Client) -> (r: Health)
        ensures
            r.c == Some(client),
    {
        Health { c: Some(client) }
    }

    /// Replaces the shared client handle, for use after a global
    /// configuration change. Queries prepared later capture the new client;
    /// queries already prepared keep the client they captured.
    pub fn reload_client(&mut self, client: Client)
        ensures
            final (self).c == Some(client),
    {
        self.c = Some(client);
    }

    /// Builds the health query for one catalog view: the path for the view
    /// and service name, and the parameters in their fixed order. Fails
    /// exactly when no client is configured, before any network attempt.
    pub fn service_query(
        &self,
        service: &str,
        tags: &Vec<String>,
        passing_only: bool,
        variant: HealthVariant,
        q: Option<&QueryOptions>,
    ) -> (r: Result<PreparedQuery, HealthError>)
        ensures
            r is Ok <==> self.c is Some,
            r is Err ==> r->Err_0 == HealthError::ClientNotConfigured,
            r is Ok ==> captures_current_client(*self, r->Ok_0),
            r is Ok ==> r->Ok_0.request.path@ == health_path(variant, service@),
            r is Ok ==> r->Ok_0.request.params.deep_view() == request_params(
                opts_pairs(q),
                tags.deep_view(),
                passing_only,
            ),
    {
        match &self.c {
            Some(client) => {
                let path = build_path(variant, service);
                let params = build_params(q, tags, passing_only);
                Ok(
                    PreparedQuery {
                        client: client.clone(),
                        request: HealthRequest { path, params },
                    },
                )
            },
            None => Err(HealthError::ClientNotConfigured),
        }
    }

    /// The convenience query over `service_query`: the catalog view is
    /// fixed to `connect`, and the single tag becomes a filter only when
    /// non-empty.
    pub fn service(&self, service: &str, tag: &str, passing_only: bool, q: Option<&QueryOptions>)
        -> (r: Result<PreparedQuery, HealthError>)
        ensures
            r is Ok <==> self.c is Some,
            r is Err ==> r->Err_0 == HealthError::ClientNotConfigured,
            r is Ok ==> captures_current_client(*self, r->Ok_0),
            r is Ok ==> r->Ok_0.request.path@ == health_path(HealthVariant::Connect, service@),
            r is Ok ==> r->Ok_0.request.params.deep_view() == request_params(
                opts_pairs(q),
                tag_filter(tag@),
                passing_only,
            ),
    {
        let mut tags: Vec<String> = Vec::new();
        if !tag.is_empty() {
            tags.push(String::from_str(tag));
        }
        proof {
            assert(tags.deep_view() =~= tag_filter(tag@));
        }
        self.service_query(service, &tags, passing_only, HealthVariant::Connect, q)
    }

    /// Projects service entries to `host:port` strings: one string per
    /// entry whose service record carries both an address and a port, in
    /// entry order, duplicates preserved; the other entries are skipped,
    /// not an error.
    pub fn service_address(entries: &Vec<ServiceEntry>) -> (r: ServiceAddress)
        ensures
            r.address.deep_view() == addresses_spec(entries@),
    {
        let mut out: Vec<String> = Vec::new();
        let n = entries.len();
        let mut i: usize = 0;
        while i < n
            invariant
                n == entries.len(),
                i <= n,
                out.deep_view() == addresses_spec(entries@.subrange(0, i as int)),
            decreases n - i,
        {
            let entry = &entries[i];
            if let Some(svc) = &entry.Service {
                if let Some(addr) = &svc.Address {
                    if let Some(port) = &svc.Port {
                        let mut address = addr.clone();
                        address.append(":");
                        let port_str = decimal_string(*port);
                        address.append(port_str.as_str());
                        proof {
                            assert(address@ == entry_address(entries@[i as int]));
                        }
                        out.push(address);
                    }
                }
            }
            proof {
                let prefix = entries@.subrange(0, i as int);
                let extended = entries@.subrange(0, i + 1 as int);
                assert(extended.drop_last() =~= prefix);
                assert(extended.last() == entries@[i as int]);
                assert(out.deep_view() =~= addresses_spec(extended));
            }
            i = i + 1;
        }
        proof {
            assert(entries@.subrange(0, n as int) =~= entries@);
        }
        ServiceAddress { address: out }
    }
}

/// Replacing the shared client is visible to later queries and invisible to
/// earlier ones: a query prepared against the facade after the reload
/// captured exactly the newly installed client, while a query prepared
/// before the reload still holds the client the old facade state carried.
pub proof fn lemma_reload_client_visibility(
    before: Health,
    after: Health,
    installed: Client,
    prepared_before: PreparedQuery,
    prepared_after: PreparedQuery,
)
    requires
        captures_current_client(before, prepared_before),
        after.c == Some(installed),
        captures_current_client(after, prepared_after),
    ensures
        prepared_after.client == installed,
        before.c == Some(prepared_before.client),
{
}

} // verus!
