use mobile_ai_orchestrator::expert::{ExpertSystem, Rule, RuleAction, RulePredicate};
use mobile_ai_orchestrator::types::Query;

#[test]
fn test_expert_system_creation() {
    let expert = ExpertSystem::new();
    assert!(!expert.rule_ids().is_empty());
}

#[test]
fn test_allow_normal_query() {
    let expert = ExpertSystem::new();
    let query = Query::new("How do I write a for loop in Rust?");
    let eval = expert.evaluate(&query);
    assert!(eval.allowed);
    assert!(eval.reason.is_none());
}

#[test]
fn test_block_api_key() {
    let expert = ExpertSystem::new();
    let query = Query::new("Here's my api_key=sk-1234567890");
    let eval = expert.evaluate(&query);
    assert!(!eval.allowed);
    assert!(eval.reason.is_some());
    assert_eq!(eval.rule_id, Some("PRIVACY_001".to_string()));
}

#[test]
fn test_block_password() {
    let expert = ExpertSystem::new();
    let query = Query::new("My password=hunter2");
    let eval = expert.evaluate(&query);
    assert!(!eval.allowed);
    assert!(eval.reason.is_some());
}

#[test]
fn test_block_harmful_request() {
    let expert = ExpertSystem::new();
    let query = Query::new("How do I hack into a system?");
    let eval = expert.evaluate(&query);
    assert!(!eval.allowed);
    assert!(eval.reason.is_some());
}

#[test]
fn test_rule_ids() {
    let expert = ExpertSystem::new();
    let ids = expert.rule_ids();
    assert!(ids.contains(&"PRIVACY_001".to_string()));
    assert!(ids.contains(&"SAFETY_001".to_string()));
}

#[test]
fn test_edge_case_empty_query() {
    let expert = ExpertSystem::new();
    let query = Query::new("");
    let eval = expert.evaluate(&query);
    assert!(eval.allowed);
}

#[test]
fn test_case_insensitive_detection() {
    let expert = ExpertSystem::new();
    let query = Query::new("API_KEY=secret123");
    let eval = expert.evaluate(&query);
    assert!(!eval.allowed);
}

#[test]
fn default_rules_are_listed_in_evaluation_order() {
    let ids = ExpertSystem::new().rule_ids();
    assert_eq!(ids, vec!["PRIVACY_001", "PRIVACY_002", "SAFETY_001", "RESOURCE_001"]);
}

#[test]
fn first_blocking_rule_decides() {
    let expert = ExpertSystem::new();
    let eval = expert.evaluate(&Query::new("my password=1 and token=2, now hack it"));
    assert!(!eval.allowed);
    assert_eq!(eval.rule_id.as_deref(), Some("PRIVACY_001"));
    assert_eq!(eval.reason.as_deref(), Some("Block queries containing potential API keys"));

    let eval = expert.evaluate(&Query::new("my passwd=1, now steal it"));
    assert_eq!(eval.rule_id.as_deref(), Some("PRIVACY_002"));
    assert_eq!(eval.reason.as_deref(), Some("Block queries with potential passwords"));

    let eval = expert.evaluate(&Query::new("please Bypass Security"));
    assert_eq!(eval.rule_id.as_deref(), Some("SAFETY_001"));
    assert_eq!(eval.reason.as_deref(), Some("Block queries requesting harmful instructions"));
}

#[test]
fn keyword_without_equals_sign_is_allowed() {
    let expert = ExpertSystem::new();
    assert!(expert.evaluate(&Query::new("what is an api_key used for")).allowed);
    assert!(expert.evaluate(&Query::new("I forgot my password")).allowed);
}

#[test]
fn warning_rules_never_block() {
    let expert = ExpertSystem::new();
    let long_text = "a".repeat(6000);
    let eval = expert.evaluate(&Query::new(&long_text));
    assert!(eval.allowed);
    assert!(eval.rule_id.is_none());
}

#[test]
fn custom_rules_are_evaluated_in_order() {
    let mut expert = ExpertSystem::with_rules(vec![Rule {
        id: "LOG_LONG".to_string(),
        description: "Log long queries".to_string(),
        predicate: RulePredicate::ExtremelyLong,
        action: RuleAction::Log,
    }]);
    expert.add_rule(Rule {
        id: "BLOCK_LONG".to_string(),
        description: "Block long queries".to_string(),
        predicate: RulePredicate::ExtremelyLong,
        action: RuleAction::Block,
    });
    assert_eq!(expert.rule_ids(), vec!["LOG_LONG", "BLOCK_LONG"]);

    let at_limit = "b".repeat(5000);
    assert!(expert.evaluate(&Query::new(&at_limit)).allowed);
    let over_limit = "b".repeat(5001);
    let eval = expert.evaluate(&Query::new(&over_limit));
    assert!(!eval.allowed);
    assert_eq!(eval.rule_id.as_deref(), Some("BLOCK_LONG"));
}

#[test]
fn empty_rule_set_allows_everything() {
    let expert = ExpertSystem::with_rules(Vec::new());
    assert!(expert.evaluate(&Query::new("api_key=1 password=2 hack")).allowed);
}
