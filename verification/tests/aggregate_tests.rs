use health_client::model::{HealthCheck, HealthChecks};

fn check_with_status(status: &str) -> HealthCheck {
    let mut c = HealthCheck::default();
    c.Status = Some(status.to_string());
    c
}

fn check_with_id(id: &str) -> HealthCheck {
    let mut c = HealthCheck::default();
    c.CheckID = Some(id.to_string());
    c
}

#[test]
fn node_maintenance_overrides_critical() {
    let checks = HealthChecks(vec![check_with_id("_node_maintenance"), check_with_status("critical")]);
    assert_eq!(checks.aggregates_status(), "maintenance");
}

#[test]
fn warning_over_passing() {
    let checks = HealthChecks(vec![check_with_status("warning"), check_with_status("passing")]);
    assert_eq!(checks.aggregates_status(), "warning");
}

#[test]
fn empty_list_is_passing() {
    let checks = HealthChecks(vec![]);
    assert_eq!(checks.aggregates_status(), "passing");
}

#[test]
fn critical_over_warning_and_passing() {
    let checks = HealthChecks(vec![
        check_with_status("passing"),
        check_with_status("critical"),
        check_with_status("warning"),
    ]);
    assert_eq!(checks.aggregates_status(), "critical");
}

#[test]
fn service_maintenance_prefix_overrides() {
    let checks = HealthChecks(vec![
        check_with_id("_service_maintenance:web"),
        check_with_status("critical"),
    ]);
    assert_eq!(checks.aggregates_status(), "maintenance");
}

#[test]
fn all_passing_is_passing() {
    let checks = HealthChecks(vec![check_with_status("passing"), check_with_status("passing")]);
    assert_eq!(checks.aggregates_status(), "passing");
}

#[test]
fn missing_status_yields_empty_sentinel() {
    let mut no_status = HealthCheck::default();
    no_status.CheckID = Some("web-check".to_string());
    let checks = HealthChecks(vec![check_with_status("passing"), no_status]);
    assert_eq!(checks.aggregates_status(), "");
}

#[test]
fn unrecognized_status_yields_empty_sentinel() {
    let checks = HealthChecks(vec![check_with_status("degraded")]);
    assert_eq!(checks.aggregates_status(), "");
}

#[test]
fn missing_status_beats_maintenance_elsewhere() {
    let checks = HealthChecks(vec![check_with_id("_node_maintenance"), HealthCheck::default()]);
    assert_eq!(checks.aggregates_status(), "");
}

#[test]
fn maintenance_id_short_circuits_own_status() {
    let mut c = check_with_id("_node_maintenance");
    c.Status = Some("nonsense".to_string());
    let checks = HealthChecks(vec![c]);
    assert_eq!(checks.aggregates_status(), "maintenance");
}

#[test]
fn similar_but_distinct_id_is_not_maintenance() {
    let mut c = check_with_id("_service_maintenance");
    c.Status = Some("passing".to_string());
    let checks = HealthChecks(vec![c]);
    assert_eq!(checks.aggregates_status(), "passing");
}
