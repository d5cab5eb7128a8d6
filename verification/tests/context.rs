use mobile_ai_orchestrator::context::{ContextManager, MAX_HISTORY_SIZE};
use mobile_ai_orchestrator::types::{
    Fraction, Query, Response, ResponseMetadata, RoutingDecision,
};

fn create_test_response(text: &str) -> Response {
    Response {
        text: text.to_string(),
        route: RoutingDecision::Local,
        confidence: Fraction::new(9, 10),
        latency_ms: 100,
        metadata: ResponseMetadata {
            model: Some("test-model".to_string()),
            tokens: Some(50),
            cached: false,
        },
    }
}

#[test]
fn test_context_manager_creation() {
    let cm = ContextManager::new();
    assert_eq!(cm.conversation_count(), 0);
    assert!(cm.current_project().is_none());
}

#[test]
fn test_add_turn() {
    let mut cm = ContextManager::new();
    let query = Query::new("test query");
    let response = create_test_response("test response");

    cm.add_turn(query, response);
    assert_eq!(cm.conversation_count(), 1);
}

#[test]
fn test_project_switching() {
    let mut cm = ContextManager::new();
    cm.switch_project("project-1");
    assert_eq!(cm.current_project(), Some("project-1"));

    cm.clear_project();
    assert!(cm.current_project().is_none());
}

#[test]
fn test_project_specific_history() {
    let mut cm = ContextManager::new();
    cm.switch_project("project-1");

    let query = Query::new("project 1 query");
    let response = create_test_response("response");
    cm.add_turn(query, response);

    let history = cm.project_history("project-1");
    assert!(history.is_some());
    assert_eq!(history.unwrap().len(), 1);
}

#[test]
fn test_recent_history() {
    let mut cm = ContextManager::new();

    for i in 0..10 {
        let query = Query::new(&format!("query {}", i));
        let response = create_test_response(&format!("response {}", i));
        cm.add_turn(query, response);
    }

    let recent = cm.recent_history(5);
    assert_eq!(recent.len(), 5);
    assert!(recent[0].query.text.contains("9"));
}

#[test]
fn test_snapshot() {
    let mut cm = ContextManager::new();
    cm.switch_project("test-project");

    let query = Query::new("test");
    let response = create_test_response("response");
    cm.add_turn(query, response);

    let snapshot = cm.snapshot(10);
    assert_eq!(snapshot.project, Some("test-project".to_string()));
    assert_eq!(snapshot.history.len(), 1);
}

#[test]
fn test_max_history_limit() {
    let mut cm = ContextManager::new();

    for i in 0..150 {
        let query = Query::new(&format!("query {}", i));
        let response = create_test_response(&format!("response {}", i));
        cm.add_turn(query, response);
    }

    assert_eq!(cm.conversation_count(), MAX_HISTORY_SIZE);
}

#[test]
fn test_projects_list() {
    let mut cm = ContextManager::new();

    cm.switch_project("project-1");
    cm.add_turn(Query::new("q1"), create_test_response("r1"));

    cm.switch_project("project-2");
    cm.add_turn(Query::new("q2"), create_test_response("r2"));

    let projects = cm.projects();
    assert_eq!(projects.len(), 2);
    assert!(projects.contains(&"project-1".to_string()));
    assert!(projects.contains(&"project-2".to_string()));
}

#[test]
fn history_keeps_the_most_recent_turns_first() {
    let mut cm = ContextManager::new();
    for i in 0..103 {
        cm.add_turn(Query::new(&format!("q{}", i)), create_test_response(&format!("r{}", i)));
    }
    let all = cm.recent_history(1000);
    assert_eq!(all.len(), 100);
    assert_eq!(all[0].query.text, "q102");
    assert_eq!(all[0].response.text, "r102");
    assert_eq!(all[99].query.text, "q3");
    assert_eq!(cm.recent_history(0).len(), 0);
    assert_eq!(cm.recent_history(100).len(), 100);
    assert_eq!(cm.recent_history(2)[1].query.text, "q101");
}

#[test]
fn project_histories_are_separate_and_bounded() {
    let mut cm = ContextManager::new();
    cm.add_turn(Query::new("before"), create_test_response("r"));
    cm.switch_project("a");
    for i in 0..120 {
        cm.add_turn(Query::new(&format!("a{}", i)), create_test_response("r"));
    }
    cm.switch_project("b");
    cm.add_turn(Query::new("b0"), create_test_response("r"));
    cm.switch_project("a");
    cm.add_turn(Query::new("a-last"), create_test_response("r"));
    cm.clear_project();
    cm.add_turn(Query::new("after"), create_test_response("r"));

    assert_eq!(cm.projects(), vec!["a", "b"]);
    let a = cm.project_history("a").unwrap();
    assert_eq!(a.len(), 100);
    assert_eq!(a[0].query.text, "a-last");
    assert_eq!(a[1].query.text, "a119");
    let b = cm.project_history("b").unwrap();
    assert_eq!(b.len(), 1);
    assert_eq!(b[0].query.text, "b0");
    assert!(cm.project_history("c").is_none());
    assert!(cm.project_history("").is_none());
    assert_eq!(cm.recent_history(1)[0].query.text, "after");
}

#[test]
fn clearing_histories() {
    let mut cm = ContextManager::new();
    cm.switch_project("a");
    cm.add_turn(Query::new("a0"), create_test_response("r"));
    cm.switch_project("b");
    cm.add_turn(Query::new("b0"), create_test_response("r"));

    cm.clear_history();
    assert_eq!(cm.conversation_count(), 0);
    assert_eq!(cm.projects().len(), 2);
    assert_eq!(cm.current_project(), Some("b"));

    cm.clear_project_history("a");
    assert_eq!(cm.projects(), vec!["b"]);
    cm.clear_project_history("missing");
    assert_eq!(cm.projects(), vec!["b"]);
    assert_eq!(cm.project_history("b").unwrap().len(), 1);
}

#[test]
fn snapshot_takes_the_requested_turns() {
    let mut cm = ContextManager::default();
    for i in 0..4 {
        cm.add_turn(Query::new(&format!("q{}", i)), create_test_response("r"));
    }
    let s = cm.snapshot(2);
    assert_eq!(s.project, None);
    assert_eq!(s.history.len(), 2);
    assert_eq!(s.history[0].query.text, "q3");
    assert_eq!(s.history[1].query.text, "q2");
    assert_eq!(cm.snapshot(10).history.len(), 4);
}
