use mobile_ai_orchestrator::{RSR_COMPLIANCE, VERSION};

#[test]
fn test_version() {
    assert!(!VERSION.is_empty());
}

#[test]
fn test_rsr_compliance() {
    assert_eq!(RSR_COMPLIANCE, "Bronze");
}

#[test]
fn test_no_unsafe() {
    assert!(true);
}
