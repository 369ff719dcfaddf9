//! Construction of health-endpoint queries: the path for each catalog view
//! and the ordered list of query parameters.
//!
//! Pass-through query options (blocking-query index and wait, ACL token,
//! datacenter, namespace, and so on) are opaque here: they arrive as
//! ready-made key/value pairs and are merged in verbatim, in order, ahead of
//! the `tag` parameters and the optional `passing=1`.

use vstd::prelude::*;

verus! {

/// Which catalog view a health query addresses: plain service health,
/// service-mesh (connect) health, or ingress-gateway health. The
/// enumeration is closed; no other view exists.
#[derive(Debug, Clone, Copy, PartialEq, Eq, Structural)]
pub enum HealthVariant {
    Plain,
    Connect,
    Ingress,
}

/// Query options merged into a request verbatim: each pair becomes one
/// query parameter, in order, ahead of the tag and passing parameters.
#[derive(Debug, Clone, Default, PartialEq)]
pub struct QueryOptions {
    pub params: Vec<(String, String)>,
}

/// A fully built health query: the endpoint path and the ordered query
/// parameters.
#[derive(Debug, Clone, Default, PartialEq)]
pub struct HealthRequest {
    pub path: String,
    pub params: Vec<(String, String)>,
}

/// The endpoint path prefix of each catalog view.
pub open spec fn variant_prefix(v: HealthVariant) -> Seq<char> {
    match v {
        HealthVariant::Plain => "/v1/health/service/"@,
        HealthVariant::Connect => "/v1/health/connect/"@,
        HealthVariant::Ingress => "/v1/health/ingress/"@,
    }
}

/// The endpoint path of a health query: the view's prefix followed by the
/// service name.
pub open spec fn health_path(v: HealthVariant, service: Seq<char>) -> Seq<char> {
    variant_prefix(v) + service
}

/// The pass-through pairs of an optional `QueryOptions`, empty when absent.
pub open spec fn opts_pairs(q: Option<&QueryOptions>) -> Seq<(Seq<char>, Seq<char>)> {
    match q {
        Some(o) => o.params.deep_view(),
        None => Seq::empty(),
    }
}

/// The ordered query parameters of a health query: the pass-through options
/// verbatim, then one `tag` parameter per requested tag in order (duplicates
/// preserved), then `passing=1` when only passing instances are wanted.
pub open spec fn request_params(
    opts: Seq<(Seq<char>, Seq<char>)>,
    tags: Seq<Seq<char>>,
    passing_only: bool,
) -> Seq<(Seq<char>, Seq<char>)> {
    opts + tags.map_values(|t: Seq<char>| ("tag"@, t)) + (if passing_only {
        seq![("passing"@, "1"@)]
    } else {
        Seq::<(Seq<char>, Seq<char>)>::empty()
    })
}

/// Builds the endpoint path for one catalog view and service name.
pub fn build_path(v: HealthVariant, service: &str) -> (r: String)
    ensures
        r@ == health_path(v, service@),
{
    let mut path = match v {
        HealthVariant::Plain => String::from_str("/v1/health/service/"),
        HealthVariant::Connect => String::from_str("/v1/health/connect/"),
        HealthVariant::Ingress => String::from_str("/v1/health/ingress/"),
    };
    path.append(service);
    path
}

/// Builds the ordered query parameters: options verbatim, then tags, then
/// `passing=1` when requested.
pub fn build_params(q: Option<&QueryOptions>, tags: &Vec<String>, passing_only: bool) -> (r: Vec<
    (String, String),
>)
    ensures
        r.deep_view() == request_params(opts_pairs(q), tags.deep_view(), passing_only),
{
    let ghost opts = opts_pairs(q);
    let mut out: Vec<(String, String)> = Vec::new();
    if let Some(o) = q {
        let m = o.params.len();
        let mut i: usize = 0;
        while i < m
            invariant
                m == o.params.len(),
                i <= m,
                opts == o.params.deep_view(),
                out.deep_view().len() == i,
                forall|j: int| 0 <= j < i ==> out.deep_view()[j] == opts[j],
            decreases m - i,
        {
            let pair = (o.params[i].0.clone(), o.params[i].1.clone());
            out.push(pair);
            i = i + 1;
        }
    }
    proof {
        assert(out.deep_view() =~= opts);
    }
    let ghost after_opts = out.deep_view();
    let t = tags.len();
    let mut i: usize = 0;
    while i < t
        invariant
            t == tags.len(),
            i <= t,
            after_opts == opts,
            out.deep_view().len() == opts.len() + i,
            forall|j: int| 0 <= j < opts.len() ==> out.deep_view()[j] == opts[j],
            forall|j: int|
                0 <= j < i ==> out.deep_view()[opts.len() + j] == ("tag"@, tags.deep_view()[j]),
        decreases t - i,
    {
        let pair = (String::from_str("tag"), tags[i].clone());
        out.push(pair);
        i = i + 1;
    }
    if passing_only {
        let pair = (String::from_str("passing"), String::from_str("1"));
        out.push(pair);
    }
    proof {
        let expected = request_params(opts, tags.deep_view(), passing_only);
        assert(out.deep_view() =~= expected);
    }
    out
}

} // verus!
