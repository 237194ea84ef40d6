use domguard::session::{ActionBuilder, Session};
use domguard::workflow::{
    format_workflow, format_workflow_list, site_from_url, WorkflowManager, WorkflowParameter,
};

#[test]
fn test_create_empty_workflow() {
    let workflow = WorkflowManager::create_empty("Test Workflow");
    assert_eq!(workflow.name, "Test Workflow");
    assert!(!workflow.steps.is_empty());
}

#[test]
fn empty_workflow_starts_by_navigating() {
    let w = WorkflowManager::create_empty("W");
    assert!(w.id.starts_with("workflow-"));
    assert_eq!(w.steps[0].action, "navigate");
    assert_eq!(w.steps[0].target.as_deref(), Some("{{url}}"));
}

#[test]
fn workflow_from_session_replays_actions() {
    let mut session = Session::new(Some("demo".to_string()));
    session.id = "abcdef0123456789".to_string();
    session.initial_url = Some("https://shop.test/cart".to_string());
    session.add_action(
        ActionBuilder::new("type")
            .with_args("{\"value\":\"hello\",\"selector\":\"#q\"}".to_string())
            .with_selector(Some("#q".to_string()))
            .success(),
    );
    session.add_action(ActionBuilder::new("click").success());
    let w = WorkflowManager::from_session(&session, "Replay");
    assert_eq!(w.id, "workflow-abcdef01");
    assert_eq!(w.domain.as_deref(), Some("shop.test"));
    assert_eq!(w.description.as_deref(), Some("demo"));
    assert_eq!(w.steps.len(), 2);
    assert_eq!(w.steps[0].value.as_deref(), Some("hello"));
    assert_eq!(w.steps[0].target.as_deref(), Some("#q"));
    assert_eq!(w.steps[1].value, None);
    assert_eq!(w.tags, vec!["from-session".to_string()]);
}

#[test]
fn site_of_addresses() {
    assert_eq!(site_from_url("https://a.test/x/y"), Some("a.test".to_string()));
    assert_eq!(site_from_url("a.test/x"), None);
    assert_eq!(site_from_url("x://b://c"), Some("b".to_string()));
}

#[test]
fn workflow_summary_and_list() {
    let mut w = WorkflowManager::create_empty("Login");
    w.id = "workflow-1".to_string();
    w.tags = vec!["auth".to_string(), "daily".to_string()];
    w.parameters.push(WorkflowParameter {
        name: "user".to_string(),
        description: Some("Account".to_string()),
        default: None,
        required: true,
        param_type: "text".to_string(),
    });
    assert_eq!(
        format_workflow(&w),
        "Workflow: Login (workflow-1)\n  Tags: auth, daily\n  Steps: 1\n  Run count: 0\n\n  Parameters:\n    - user*: Account (text)\n\n  Steps:\n    1. Navigate to site {{url}}\n"
    );
    assert_eq!(format_workflow_list(&vec![&w]), "  workflow-1 - Login (1 steps, -)\n");
}

#[test]
fn find_workflows_by_name() {
    let mut m = WorkflowManager::new("wf".to_string());
    let mut a = WorkflowManager::create_empty("Daily Login");
    a.id = "a".to_string();
    let mut b = WorkflowManager::create_empty("Checkout");
    b.id = "b".to_string();
    m.cache.push(a);
    m.cache.push(b);
    let found = m.find_by_name("LOGIN");
    assert_eq!(found.len(), 1);
    assert_eq!(found[0].id, "a");
    assert_eq!(m.get("b").map(|w| w.name.clone()), Some("Checkout".to_string()));
    assert!(m.get("c").is_none());
}

#[test]
fn workflows_by_tag_and_domain() {
    let mut m = WorkflowManager::new("wf".to_string());
    let mut a = WorkflowManager::create_empty("A");
    a.id = "a".to_string();
    a.tags = vec!["Daily".to_string()];
    a.domain = Some("Shop.Example.com".to_string());
    let mut b = WorkflowManager::create_empty("B");
    b.id = "b".to_string();
    b.tags = vec!["weekly".to_string()];
    m.cache.push(a);
    m.cache.push(b);
    let daily = m.list_by_tag("DAILY");
    assert_eq!(daily.len(), 1);
    assert_eq!(daily[0].id, "a");
    assert!(m.list_by_tag("day").is_empty());
    let shop = m.list_for_domain("example.COM");
    assert_eq!(shop.len(), 1);
    assert_eq!(shop[0].id, "a");
}
