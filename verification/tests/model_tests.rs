use health_client::model::{
    DurationValue, HealthCheck, HealthCheckDefinition, Passing, QueryMeta, Tag,
};
use health_client::status::{
    health_any, health_critical, health_maint, health_passing, health_warning, node_maint,
    service_maint_prefix,
};
use health_client::text::has_prefix;

#[test]
fn status_vocabulary_values() {
    assert_eq!(health_any(), "any");
    assert_eq!(health_passing(), "passing");
    assert_eq!(health_warning(), "warning");
    assert_eq!(health_critical(), "critical");
    assert_eq!(health_maint(), "maintenance");
    assert_eq!(node_maint(), "_node_maintenance");
    assert_eq!(service_maint_prefix(), "_service_maintenance:");
}

#[test]
fn prefix_test_matches_by_characters() {
    assert!(has_prefix("_service_maintenance:web", "_service_maintenance:"));
    assert!(has_prefix("abc", ""));
    assert!(!has_prefix("_service", "_service_maintenance:"));
    assert!(!has_prefix("x_service_maintenance:web", "_service_maintenance:"));
}

#[test]
fn absent_fields_stay_distinguishable_from_empty() {
    let mut check = HealthCheck::default();
    assert!(check.Status.is_none());
    check.Status = Some(String::new());
    assert!(check.Status.is_some());
    assert_eq!(check.Status.as_deref(), Some(""));
}

#[test]
fn definition_carries_both_duration_encodings() {
    let mut def = HealthCheckDefinition::default();
    def.IntervalDuration = Some(DurationValue { secs: 10, nanos: 0 });
    def.Interval = Some("10s".to_string());
    assert_eq!(def.IntervalDuration, Some(DurationValue { secs: 10, nanos: 0 }));
    assert_eq!(def.Interval.as_deref(), Some("10s"));
    assert!(def.Timeout.is_none());
}

#[test]
fn query_meta_carries_blocking_query_seed() {
    let mut meta = QueryMeta::default();
    meta.LastIndex = Some(42);
    meta.LastContentHash = Some("abc123".to_string());
    meta.KnownLeader = Some(true);
    meta.LastContact = Some(DurationValue { secs: 0, nanos: 250 });
    assert_eq!(meta.LastIndex, Some(42));
    assert_eq!(meta.LastContentHash.as_deref(), Some("abc123"));
    assert_eq!(meta.CacheHit, None);
}

#[test]
fn wire_parameter_shapes() {
    let tag = Tag { tag: "v2".to_string() };
    let passing = Passing { passing: "1".to_string() };
    assert_eq!(tag.tag, "v2");
    assert_eq!(passing.passing, "1");
}
