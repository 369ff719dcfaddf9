use health_client::facade::{Client, Health, HealthError};
use health_client::query::{build_path, HealthVariant, QueryOptions};

fn pairs(prepared: &[(String, String)]) -> Vec<(&str, &str)> {
    prepared.iter().map(|(k, v)| (k.as_str(), v.as_str())).collect()
}

#[test]
fn ingress_path_for_web() {
    assert_eq!(build_path(HealthVariant::Ingress, "web"), "/v1/health/ingress/web");
}

#[test]
fn plain_and_connect_paths() {
    assert_eq!(build_path(HealthVariant::Plain, "db"), "/v1/health/service/db");
    assert_eq!(build_path(HealthVariant::Connect, "db"), "/v1/health/connect/db");
}

#[test]
fn tag_and_passing_parameters() {
    let health = Health::with_client(Client { address: "http://127.0.0.1:8500".to_string() });
    let tags = vec!["v2".to_string()];
    let prepared = health
        .service_query("web", &tags, true, HealthVariant::Ingress, None)
        .unwrap();
    assert_eq!(prepared.request.path, "/v1/health/ingress/web");
    assert_eq!(pairs(&prepared.request.params), vec![("tag", "v2"), ("passing", "1")]);
}

#[test]
fn options_merged_verbatim_ahead_of_tags() {
    let health = Health::with_client(Client { address: "http://127.0.0.1:8500".to_string() });
    let opts = QueryOptions {
        params: vec![
            ("index".to_string(), "5".to_string()),
            ("wait".to_string(), "10s".to_string()),
        ],
    };
    let tags = vec!["v2".to_string(), "v2".to_string()];
    let prepared = health
        .service_query("web", &tags, true, HealthVariant::Plain, Some(&opts))
        .unwrap();
    assert_eq!(
        pairs(&prepared.request.params),
        vec![("index", "5"), ("wait", "10s"), ("tag", "v2"), ("tag", "v2"), ("passing", "1")]
    );
}

#[test]
fn no_passing_parameter_when_not_requested() {
    let health = Health::with_client(Client { address: "http://127.0.0.1:8500".to_string() });
    let tags: Vec<String> = vec![];
    let prepared = health
        .service_query("web", &tags, false, HealthVariant::Plain, None)
        .unwrap();
    assert!(prepared.request.params.is_empty());
}

#[test]
fn service_fixes_connect_view() {
    let health = Health::with_client(Client { address: "http://127.0.0.1:8500".to_string() });
    let prepared = health.service("db", "", false, None).unwrap();
    assert_eq!(prepared.request.path, "/v1/health/connect/db");
    assert!(prepared.request.params.is_empty());
}

#[test]
fn service_with_nonempty_tag_filters() {
    let health = Health::with_client(Client { address: "http://127.0.0.1:8500".to_string() });
    let prepared = health.service("db", "primary", true, None).unwrap();
    assert_eq!(pairs(&prepared.request.params), vec![("tag", "primary"), ("passing", "1")]);
}

#[test]
fn unconfigured_client_is_a_configuration_error() {
    let health = Health::new();
    let err = health.service("web", "", true, None).unwrap_err();
    assert_eq!(err, HealthError::ClientNotConfigured);
    assert_eq!(err.message(), "client init err");
}

#[test]
fn transport_and_decode_messages() {
    assert_eq!(
        HealthError::Transport("connection refused".to_string()).message(),
        "transport error: connection refused"
    );
    assert_eq!(
        HealthError::Decode("expected array".to_string()).message(),
        "decode error: expected array"
    );
}

#[test]
fn reload_client_switches_later_queries_only() {
    let old_client = Client { address: "http://10.0.0.1:8500".to_string() };
    let new_client = Client { address: "http://10.0.0.2:8500".to_string() };
    let mut health = Health::with_client(old_client.clone());
    let in_flight = health.service("web", "", false, None).unwrap();
    health.reload_client(new_client.clone());
    let after = health.service("web", "", false, None).unwrap();
    assert_eq!(after.client, new_client);
    assert_eq!(in_flight.client, old_client);
}
