use mobile_ai_orchestrator::types::{Fraction, Query, RouterConfig, RoutingDecision};

#[test]
fn test_query_creation() {
    let query = Query::new("test query");
    assert_eq!(query.text, "test query");
    assert_eq!(query.priority, 5);
    assert!(query.timestamp > 0);
}

#[test]
fn test_query_with_context() {
    let query = Query::with_context("test", "project-1");
    assert_eq!(query.project_context, Some("project-1".to_string()));
}

#[test]
fn test_priority_check() {
    let mut query = Query::new("test");
    query.priority = 8;
    assert!(query.is_high_priority());

    query.priority = 6;
    assert!(!query.is_high_priority());
}

#[test]
fn test_routing_decision_network() {
    assert!(RoutingDecision::Remote.requires_network());
    assert!(RoutingDecision::Hybrid.requires_network());
    assert!(!RoutingDecision::Local.requires_network());
    assert!(!RoutingDecision::Blocked.requires_network());
}

#[test]
fn test_router_config_default() {
    let config = RouterConfig::default();
    assert_eq!(config.local_threshold, Fraction { num: 70, den: 100 });
    assert_eq!(config.max_local_length, 500);
    assert!(!config.complex_keywords.is_empty());
}

#[test]
fn default_keywords_are_in_order() {
    let config = RouterConfig::default();
    assert_eq!(config.complex_keywords, vec!["prove", "verify", "formal", "complex"]);
}

#[test]
fn priority_boundary_is_seven() {
    let mut query = Query::new("boundary");
    query.priority = 7;
    assert!(!query.is_high_priority());
    query.priority = 8;
    assert!(query.is_high_priority());
}

#[test]
fn new_query_has_no_context() {
    let query = Query::new("plain");
    assert!(query.project_context.is_none());
    let cloned = query.clone();
    assert_eq!(cloned.text, "plain");
    assert_eq!(cloned.timestamp, query.timestamp);
}

#[test]
fn fractions_compare_as_rationals() {
    let a = Fraction::new(8, 10);
    let b = Fraction::new(7, 10);
    assert!(a.gt(&b));
    assert!(!b.gt(&a));
    assert!(!a.gt(&Fraction::new(4, 5)));
    assert!(Fraction::new(u64::MAX, 1).gt(&Fraction::new(u64::MAX - 1, 1)));
    assert_eq!(Fraction::indicator(true), Fraction::one());
    assert_eq!(Fraction::indicator(false), Fraction::zero());
}
