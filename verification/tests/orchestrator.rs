use mobile_ai_orchestrator::orchestrator::{estimate_tokens, Orchestrator};
use mobile_ai_orchestrator::text::truncate;
use mobile_ai_orchestrator::types::{Fraction, Query, RoutingDecision};

#[test]
fn test_orchestrator_creation() {
    let orch = Orchestrator::new();
    assert!(orch.current_project().is_none());
}

#[test]
fn test_process_simple_query() {
    let mut orch = Orchestrator::new();
    let query = Query::new("Hello, how are you?");
    let result = orch.process(query);
    assert!(result.is_ok());

    let response = result.unwrap();
    assert_eq!(response.route, RoutingDecision::Local);
}

#[test]
fn test_process_blocked_query() {
    let mut orch = Orchestrator::new();
    let query = Query::new("Here is my api_key=secret123");
    let result = orch.process(query);
    assert!(result.is_err());
}

#[test]
fn orchestrator_test_process_complex_query() {
    let mut orch = Orchestrator::new();
    let query = Query::new("Can you prove this theorem using formal verification?");
    let result = orch.process(query);
    assert!(result.is_err());
}

#[test]
fn test_project_context() {
    let mut orch = Orchestrator::new();
    orch.switch_project("test-project");
    assert_eq!(orch.current_project(), Some("test-project"));
}

#[test]
fn test_conversation_history() {
    let mut orch = Orchestrator::new();

    let query1 = Query::new("First query");
    let _result1 = orch.process(query1);

    let query2 = Query::new("Second query");
    let _result2 = orch.process(query2);

    let history = orch.recent_history(10);
    assert_eq!(history.len(), 2);
    assert!(history[0].query.text.contains("Second"));
}

#[test]
fn test_clear_history() {
    let mut orch = Orchestrator::new();

    let query = Query::new("Test");
    let _result = orch.process(query);

    assert_eq!(orch.recent_history(10).len(), 1);

    orch.clear_history();
    assert_eq!(orch.recent_history(10).len(), 0);
}

#[test]
fn test_truncate_helper() {
    assert_eq!(truncate("hello", 10), "hello");
    assert_eq!(truncate("hello world this is long", 10), "hello worl...");
}

#[test]
fn test_token_estimation() {
    let text = "This is a test";
    let tokens = estimate_tokens(text);
    assert!(tokens > 0);
    assert!(tokens < text.len());
}

#[test]
fn local_answer_quotes_the_query() {
    let mut orch = Orchestrator::default();
    let response = orch.process(Query::new("Hello")).unwrap();
    let expected = "[LOCAL] Processed query: 'Hello' (Mock response - Phase 2 will use actual SLM)";
    assert_eq!(response.text, expected);
    assert_eq!(response.route, RoutingDecision::Local);
    assert_eq!(response.confidence, Fraction { num: 80, den: 100 });
    assert_eq!(response.metadata.model.as_deref(), Some("tinyllama-1.1b-q4"));
    assert_eq!(response.metadata.tokens, Some(expected.len() / 4));
    assert!(!response.metadata.cached);
    let history = orch.recent_history(1);
    assert_eq!(history[0].query.text, "Hello");
    assert_eq!(history[0].response.text, expected);
}

#[test]
fn long_queries_are_quoted_in_part() {
    let mut orch = Orchestrator::new();
    let text = format!("{} tail?", "0123456789".repeat(6));
    let response = orch.process(Query::new(&text)).unwrap();
    assert_eq!(
        response.text,
        format!(
            "[LOCAL] Processed query: '{}...' (Mock response - Phase 2 will use actual SLM)",
            &text[..50]
        )
    );
    assert_eq!(response.confidence, Fraction { num: 75, den: 100 });
}

#[test]
fn hybrid_answer_wraps_the_local_answer() {
    let mut orch = Orchestrator::new();
    orch.switch_project("proj");
    let text = "m".repeat(80);
    let mut query = Query::with_context(&text, "proj");
    query.priority = 9;
    let response = orch.process(query).unwrap();
    assert_eq!(response.route, RoutingDecision::Hybrid);
    assert_eq!(response.confidence, Fraction { num: 70, den: 100 });
    assert_eq!(
        response.text,
        format!(
            "[HYBRID] Offline mode: using only local processing. [LOCAL] Processed query: '{}...' (Mock response - Phase 2 will use actual SLM)",
            "m".repeat(50)
        )
    );
    assert_eq!(response.metadata.model.as_deref(), Some("hybrid-local+remote"));
    assert_eq!(orch.recent_history(5).len(), 1);
}

#[test]
fn blocked_queries_name_the_reason_and_are_not_recorded() {
    let mut orch = Orchestrator::new();
    let err = orch.process(Query::new("my password=hunter2")).unwrap_err();
    assert_eq!(err, "Query blocked by safety rules: Block queries with potential passwords");
    let err = orch.process(Query::new("steal this")).unwrap_err();
    assert_eq!(err, "Query blocked by safety rules: Block queries requesting harmful instructions");
    assert_eq!(orch.recent_history(10).len(), 0);
}

#[test]
fn remote_routes_are_unavailable_and_not_recorded() {
    let mut orch = Orchestrator::new();
    let err = orch.process(Query::new(&"x".repeat(501))).unwrap_err();
    assert_eq!(
        err,
        "Remote processing requires 'network' feature flag. This is an offline-first build."
    );
    assert_eq!(orch.recent_history(10).len(), 0);
}

#[test]
fn truncation_respects_character_boundaries() {
    assert_eq!(truncate("", 0), "");
    assert_eq!(truncate("abc", 3), "abc");
    assert_eq!(truncate("abcd", 3), "abc...");
    assert_eq!(truncate("abcd", 0), "...");
    // Each of these letters takes two bytes.
    assert_eq!(truncate("\u{e9}\u{e9}\u{e9}", 4), "\u{e9}\u{e9}...");
    assert_eq!(truncate("\u{e9}\u{e9}\u{e9}", 3), "\u{e9}...");
    assert_eq!(truncate("\u{e9}\u{e9}\u{e9}", 1), "...");
    assert_eq!(truncate("\u{e9}\u{e9}\u{e9}", 6), "\u{e9}\u{e9}\u{e9}");
    assert_eq!(truncate("a\u{1f600}b", 4), "a...");
    assert_eq!(truncate("a\u{1f600}b", 5), "a\u{1f600}...");
}

#[test]
fn tokens_are_a_quarter_of_the_bytes() {
    assert_eq!(estimate_tokens(""), 0);
    assert_eq!(estimate_tokens("abc"), 0);
    assert_eq!(estimate_tokens("abcd"), 1);
    assert_eq!(estimate_tokens("This is a test"), 3);
    assert_eq!(estimate_tokens("\u{e9}\u{e9}"), 1);
}
