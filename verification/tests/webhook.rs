use jid::BareJid;

use xmpp_webhook::config::RepoSettings;
use xmpp_webhook::routes::webhook::{
    template_name_for, webhook, WebhookError, WebhookResponse,
};
use xmpp_webhook::services::xmpp_service::RoomId;
use xmpp_webhook::templates::Templates;
use xmpp_webhook::webhook::workflow_runs_store::WorkflowRunsStore;
use xmpp_webhook::webhook::RepoMapping;

const PUSH: &str = r#"{
  "ref": "refs/heads/master",
  "forced": false,
  "commits": [
    {
      "id": "6113728f27ae82c7b1a177c8d03f9e96e0adf246",
      "message": "Adding a .gitignore file",
      "url": "https://github.com/Codertocat/Hello-World/commit/6113728f27ae82c7b1a177c8d03f9e96e0adf246",
      "author": { "name": "Codertocat", "email": "21031067+Codertocat@users.noreply.github.com" }
    }
  ],
  "repository": {
    "id": 186853002,
    "name": "Hello-World",
    "full_name": "Codertocat/Hello-World",
    "html_url": "https://github.com/Codertocat/Hello-World"
  }
}"#;

const ISSUE_OPENED: &str = r#"{
  "action": "opened",
  "issue": {
    "html_url": "https://github.com/Codertocat/Hello-World/issues/1",
    "number": 1,
    "title": "Spelling error in the README file",
    "user": { "login": "Codertocat" }
  },
  "repository": { "name": "Hello-World", "full_name": "Codertocat/Hello-World" }
}"#;

fn workflow_run(conclusion: &str) -> String {
    format!(
        r#"{{
  "action": "completed",
  "workflow_run": {{
    "name": "Build",
    "head_branch": "master",
    "workflow_id": 112233,
    "conclusion": "{}",
    "html_url": "https://github.com/Codertocat/Hello-World/actions/runs/30433642"
  }},
  "repository": {{ "name": "Hello-World", "full_name": "Codertocat/Hello-World" }}
}}"#,
        conclusion
    )
}

fn room() -> BareJid {
    BareJid::new("room@example.org").unwrap()
}

fn mapping() -> RepoMapping {
    RepoMapping::new(vec![RepoSettings { repo: "Codertocat/Hello-World".to_string(), room: room() }])
}

fn templates() -> Templates {
    let mut templates = Templates::new();
    let sources = [
        (
            "push.md",
            "Push to {{ event.repository.full_name }}:{% for commit in event.commits %} {{ commit.id[:7] }} {{ commit.message }}{% endfor %}",
        ),
        (
            "issues__opened.md",
            "{{ event.issue.user.login }} opened issue #{{ event.issue.number }}: {{ event.issue.title }}",
        ),
        (
            "workflow_run__completed.md",
            "{{ event.workflow_run.name }} on {{ event.workflow_run.head_branch }}: {{ event.workflow_run.conclusion }}",
        ),
        ("broken.md", "{{ event.repository.full_name | no_such_filter }}"),
    ];
    for (name, source) in sources {
        templates.add_template(name.to_string(), source.to_string()).unwrap();
    }
    templates
}

fn sent(response: Result<WebhookResponse, WebhookError>) -> (RoomId, String) {
    match response {
        Ok(WebhookResponse::MessageSent { to, message }) => (to, message),
        other => panic!("no message was sent: {:?}", other),
    }
}

#[test]
fn webhook_test_push() {
    let mut runs = WorkflowRunsStore::new();
    let response = webhook(Some("push"), PUSH.as_bytes(), &mapping(), &mut runs, &templates());
    assert_eq!(response.as_ref().unwrap().status_code(), 200);
    assert_eq!(response.as_ref().unwrap().body(), "message sent");
    let (to, message) = sent(response);
    assert_eq!(to, RoomId::Room(room()));
    assert_eq!(message, "Push to Codertocat/Hello-World: 6113728 Adding a .gitignore file");
    assert!(message.contains("6113728"));
    assert!(message.contains("Hello-World"));
}

#[test]
fn webhook_test_issue_opened() {
    let mut runs = WorkflowRunsStore::new();
    let response = webhook(Some("issues"), ISSUE_OPENED.as_bytes(), &mapping(), &mut runs, &templates());
    let (to, message) = sent(response);
    assert_eq!(to, RoomId::Room(room()));
    assert_eq!(message, "Codertocat opened issue #1: Spelling error in the README file");
}

#[test]
fn unrecognized_event_type_is_accepted_and_ignored() {
    let mut runs = WorkflowRunsStore::new();
    let response = webhook(Some("star"), PUSH.as_bytes(), &mapping(), &mut runs, &templates());
    match &response {
        Ok(WebhookResponse::NoTemplate { template }) => assert_eq!(template, "star.md"),
        other => panic!("expected no template, got {:?}", other),
    }
    assert_eq!(response.as_ref().unwrap().status_code(), 200);
    assert_eq!(response.unwrap().body(), "ok");
}

#[test]
fn unrecognized_action_is_accepted_and_ignored() {
    let body = ISSUE_OPENED.replace("\"opened\"", "\"pinned\"");
    let mut runs = WorkflowRunsStore::new();
    let response = webhook(Some("issues"), body.as_bytes(), &mapping(), &mut runs, &templates());
    match response {
        Ok(WebhookResponse::NoTemplate { template }) => assert_eq!(template, "issues__pinned.md"),
        other => panic!("expected no template, got {:?}", other),
    }
}

#[test]
fn missing_event_type_is_a_bad_request() {
    let mut runs = WorkflowRunsStore::new();
    let error = webhook(None, PUSH.as_bytes(), &mapping(), &mut runs, &templates()).unwrap_err();
    assert!(matches!(error, WebhookError::MissingEventType));
    assert_eq!(error.status_code(), 400);
    assert_eq!(error.message(), "Missing event type");
}

#[test]
fn malformed_body_is_a_bad_request() {
    let mut runs = WorkflowRunsStore::new();
    for body in ["{", "", "[1, 2]", "\"push\"", "null", "{} trailing"] {
        let error = webhook(Some("push"), body.as_bytes(), &mapping(), &mut runs, &templates()).unwrap_err();
        assert!(matches!(error, WebhookError::DeserializationError(_)), "{}", body);
        assert_eq!(error.status_code(), 400);
        assert!(!error.message().is_empty());
    }
}

#[test]
fn missing_repository_is_a_bad_request() {
    let mut runs = WorkflowRunsStore::new();
    for body in [
        "{}",
        r#"{"repository": "Codertocat/Hello-World"}"#,
        r#"{"repository": {"name": "Hello-World"}}"#,
        r#"{"repository": {"full_name": 7}}"#,
        r#"{"repository": null}"#,
    ] {
        let error = webhook(Some("push"), body.as_bytes(), &mapping(), &mut runs, &templates()).unwrap_err();
        assert!(matches!(error, WebhookError::MissingRepo), "{}", body);
        assert_eq!(error.status_code(), 400);
        assert_eq!(error.message(), "Missing repo");
    }
}

#[test]
fn unknown_repository_is_accepted_and_ignored() {
    let body = PUSH.replace("Codertocat/Hello-World", "Codertocat/Other");
    let mut runs = WorkflowRunsStore::new();
    let response = webhook(Some("push"), body.as_bytes(), &mapping(), &mut runs, &templates());
    assert!(matches!(response, Ok(WebhookResponse::UnknownRepo)));
    assert_eq!(response.unwrap().body(), "unknown repo");
}

#[test]
fn unknown_repository_leaves_failed_runs_alone() {
    let body = workflow_run("failure").replace("Codertocat/Hello-World", "Codertocat/Other");
    let mut runs = WorkflowRunsStore::new();
    let response = webhook(Some("workflow_run"), body.as_bytes(), &mapping(), &mut runs, &templates());
    assert!(matches!(response, Ok(WebhookResponse::UnknownRepo)));
    assert!(runs.is_empty());
}

#[test]
fn template_that_fails_to_render_is_a_server_error() {
    let mut runs = WorkflowRunsStore::new();
    let error = webhook(Some("broken"), PUSH.as_bytes(), &mapping(), &mut runs, &templates()).unwrap_err();
    assert!(matches!(error, WebhookError::RenderingError(_)));
    assert_eq!(error.status_code(), 500);
    assert!(!error.message().is_empty());
}

#[test]
fn test_workflow_run_completed_with_failure() {
    let mut runs = WorkflowRunsStore::new();
    let body = workflow_run("failure");
    let response = webhook(Some("workflow_run"), body.as_bytes(), &mapping(), &mut runs, &templates());
    let (to, message) = sent(response);
    assert_eq!(to, RoomId::Room(room()));
    assert_eq!(message, "Build on master: failure");
    let recorded = runs.runs("Codertocat/Hello-World");
    assert_eq!(recorded.len(), 1);
    assert_eq!((recorded[0].workflow_id, recorded[0].head_branch.as_str()), (112233, "master"));
}

#[test]
fn test_workflow_run_completed_with_success_does_not_send_message() {
    let mut runs = WorkflowRunsStore::new();
    let body = workflow_run("success");
    let response = webhook(Some("workflow_run"), body.as_bytes(), &mapping(), &mut runs, &templates());
    assert!(matches!(response, Ok(WebhookResponse::Suppressed)));
    assert_eq!(response.unwrap().body(), "ok");
    assert!(runs.is_empty());
}

#[test]
fn test_workflow_run_completed_with_success_sends_message_after_failure() {
    let mut runs = WorkflowRunsStore::new();
    let (mapping, templates) = (mapping(), templates());

    let failure = workflow_run("failure");
    let first = webhook(Some("workflow_run"), failure.as_bytes(), &mapping, &mut runs, &templates);
    assert_eq!(sent(first).1, "Build on master: failure");

    let success = workflow_run("success");
    let second = webhook(Some("workflow_run"), success.as_bytes(), &mapping, &mut runs, &templates);
    assert_eq!(sent(second).1, "Build on master: success");
    assert!(runs.is_empty());

    let third = webhook(Some("workflow_run"), success.as_bytes(), &mapping, &mut runs, &templates);
    assert!(matches!(third, Ok(WebhookResponse::Suppressed)));
}

#[test]
fn repeated_failure_is_announced_each_time_and_recorded_once() {
    let mut runs = WorkflowRunsStore::new();
    let (mapping, templates) = (mapping(), templates());
    let failure = workflow_run("failure");
    for _ in 0..2 {
        let response = webhook(Some("workflow_run"), failure.as_bytes(), &mapping, &mut runs, &templates);
        assert_eq!(sent(response).1, "Build on master: failure");
    }
    assert_eq!(runs.runs("Codertocat/Hello-World").len(), 1);
}

#[test]
fn other_conclusions_change_nothing_and_go_to_the_template() {
    let mut runs = WorkflowRunsStore::new();
    let (mapping, templates) = (mapping(), templates());
    runs.workflow_failed("Codertocat/Hello-World", 112233, "master");
    let cancelled = workflow_run("cancelled");
    let response = webhook(Some("workflow_run"), cancelled.as_bytes(), &mapping, &mut runs, &templates);
    assert_eq!(sent(response).1, "Build on master: cancelled");
    assert_eq!(runs.runs("Codertocat/Hello-World").len(), 1);
}

#[test]
fn success_of_another_branch_is_suppressed() {
    let mut runs = WorkflowRunsStore::new();
    let (mapping, templates) = (mapping(), templates());
    runs.workflow_failed("Codertocat/Hello-World", 112233, "develop");
    let success = workflow_run("success");
    let response = webhook(Some("workflow_run"), success.as_bytes(), &mapping, &mut runs, &templates);
    assert!(matches!(response, Ok(WebhookResponse::Suppressed)));
    assert_eq!(runs.runs("Codertocat/Hello-World").len(), 1);
}

#[test]
fn missing_workflow_fields_count_as_zero_and_empty() {
    let mut runs = WorkflowRunsStore::new();
    let (mapping, templates) = (mapping(), templates());
    let body = r#"{
        "workflow_run": { "conclusion": "failure" },
        "repository": { "full_name": "Codertocat/Hello-World" }
    }"#;
    let response = webhook(Some("workflow_run"), body.as_bytes(), &mapping, &mut runs, &templates);
    assert!(matches!(response, Ok(WebhookResponse::NoTemplate { .. })));
    let recorded = runs.runs("Codertocat/Hello-World");
    assert_eq!(recorded.len(), 1);
    assert_eq!((recorded[0].workflow_id, recorded[0].head_branch.as_str()), (0, ""));

    let without_run = r#"{ "repository": { "full_name": "Codertocat/Hello-World" } }"#;
    let response = webhook(Some("workflow_run"), without_run.as_bytes(), &mapping, &mut runs, &templates);
    assert!(matches!(response, Ok(WebhookResponse::NoTemplate { .. })));
    assert_eq!(runs.runs("Codertocat/Hello-World").len(), 1);
}

#[test]
fn workflow_conclusions_of_other_events_are_not_looked_at() {
    let mut runs = WorkflowRunsStore::new();
    let body = workflow_run("failure");
    let response = webhook(Some("check_run"), body.as_bytes(), &mapping(), &mut runs, &templates());
    assert!(matches!(response, Ok(WebhookResponse::NoTemplate { .. })));
    assert!(runs.is_empty());
}

#[test]
fn template_names() {
    assert_eq!(template_name_for("push", None), "push.md");
    assert_eq!(template_name_for("issues", Some("opened")), "issues__opened.md");
    assert_eq!(template_name_for("workflow_run", Some("completed")), "workflow_run__completed.md");
    assert_eq!(template_name_for("", Some("")), "__.md");
}

#[test]
fn action_that_is_no_string_is_not_an_action() {
    let mut templates = Templates::new();
    templates.add_template("push.md".to_string(), "plain".to_string()).unwrap();
    let body = r#"{ "action": 7, "repository": { "full_name": "Codertocat/Hello-World" } }"#;
    let mut runs = WorkflowRunsStore::new();
    let response = webhook(Some("push"), body.as_bytes(), &mapping(), &mut runs, &templates);
    assert_eq!(sent(response).1, "plain");
}
