//! The webhook route: from an event type and a request body to the
//! notification to send, if any.

use vstd::prelude::*;
use vstd::string::*;

use jid::BareJid;
use serde_json::Value;

use crate::services::xmpp_service::RoomId;
use crate::templates::{rendered_event, Templates};
use crate::text::same_text;
use crate::webhook::payload::{
    json_of, member_text, nested_text, nested_unsigned, parse_object, parsed_value, Json,
};
use crate::webhook::workflow_runs_store::{
    has_failure, lemma_success_after_failure, lemma_success_without_failure, recorded_failure,
    recorded_success, RunKey, WorkflowRunsStore,
};
use crate::webhook::RepoMapping;

verus! {

/// Why a webhook request is refused.
#[derive(Debug)]
pub enum WebhookError {
    MissingEventType,
    MissingRepo,
    DeserializationError(serde_json::Error),
    RenderingError(minijinja::Error),
}

/// What a webhook request that is not refused comes to.
#[derive(Debug)]
pub enum WebhookResponse {
    /// No destination is configured for the repository.
    UnknownRepo,
    /// A workflow run succeeded of which no failure was on record.
    Suppressed,
    /// No template of that name exists for the event.
    NoTemplate { template: String },
    /// A notification is to be sent.
    MessageSent { to: RoomId, message: String },
}

/// What the router makes of a decoded event, before any template is looked at.
pub enum Decision {
    /// The event names no repository.
    MissingRepo,
    /// No destination is configured for the repository.
    UnknownRepo,
    /// The event is a success of a run without a failure on record.
    Suppressed,
    /// The event is to be rendered from a template and sent to a room.
    Render { to: BareJid, template: Seq<char> },
}

/// A decision as the router holds it.
pub enum Route {
    UnknownRepo,
    Suppressed,
    Render { to: BareJid, template: String },
}

impl View for Route {
    type V = Decision;

    open spec fn view(&self) -> Decision {
        match *self {
            Route::UnknownRepo => Decision::UnknownRepo,
            Route::Suppressed => Decision::Suppressed,
            Route::Render { to, template } => Decision::Render { to, template: template@ },
        }
    }
}

/// The full name of the repository that an event is about.
pub open spec fn event_repository(event: Json) -> Option<Seq<char>> {
    event.nested_text("repository"@, "full_name"@)
}

/// The action that an event reports, if it reports one.
pub open spec fn event_action(event: Json) -> Option<Seq<char>> {
    event.member_text("action"@)
}

/// The run that a workflow event is about. A workflow that the event does not
/// give counts as zero, a branch that it does not give as the empty name.
pub open spec fn event_run(event: Json) -> RunKey {
    RunKey {
        workflow_id: match event.nested_unsigned("workflow_run"@, "workflow_id"@) {
            Some(workflow_id) => workflow_id,
            None => 0,
        },
        head_branch: match event.nested_text("workflow_run"@, "head_branch"@) {
            Some(head_branch) => head_branch,
            None => Seq::empty(),
        },
    }
}

/// How the run of a workflow event ended; empty where the event does not say.
pub open spec fn event_conclusion(event: Json) -> Seq<char> {
    match event.nested_text("workflow_run"@, "conclusion"@) {
        Some(conclusion) => conclusion,
        None => Seq::empty(),
    }
}

/// Whether an event reports that a workflow run ended in the given way.
pub open spec fn run_concluded(event_type: Seq<char>, event: Json, conclusion: Seq<char>) -> bool {
    event_type == "workflow_run"@ && event_conclusion(event) == conclusion
}

/// The name of the template of an event: the event type, then two
/// underscores and the action where the event reports one, then `.md`.
pub open spec fn template_name(event_type: Seq<char>, action: Option<Seq<char>>) -> Seq<char> {
    match action {
        Some(action) => event_type + "__"@ + action + ".md"@,
        None => event_type + ".md"@,
    }
}

/// What the router decides for an event, given where repositories go and
/// which runs are on record as failed.
pub open spec fn decide(
    event_type: Seq<char>,
    event: Json,
    mapping: Map<Seq<char>, BareJid>,
    runs: Map<Seq<char>, Seq<RunKey>>,
) -> Decision {
    match event_repository(event) {
        None => Decision::MissingRepo,
        Some(repo) => if !mapping.dom().contains(repo) {
            Decision::UnknownRepo
        } else if run_concluded(event_type, event, "success"@) && !has_failure(runs, repo, event_run(event)) {
            Decision::Suppressed
        } else {
            Decision::Render { to: mapping[repo], template: template_name(event_type, event_action(event)) }
        },
    }
}

/// The runs on record once the router has seen an event: a success of a
/// mapped repository takes its run off the record, a failure puts it on, and
/// every other event leaves the record as it is.
pub open spec fn runs_after(
    event_type: Seq<char>,
    event: Json,
    mapping: Map<Seq<char>, BareJid>,
    runs: Map<Seq<char>, Seq<RunKey>>,
) -> Map<Seq<char>, Seq<RunKey>> {
    match event_repository(event) {
        None => runs,
        Some(repo) => if !mapping.dom().contains(repo) {
            runs
        } else if run_concluded(event_type, event, "success"@) {
            recorded_success(runs, repo, event_run(event))
        } else if run_concluded(event_type, event, "failure"@) {
            recorded_failure(runs, repo, event_run(event))
        } else {
            runs
        },
    }
}

/// What the router answers once the template of an event was looked up and,
/// where there is one, rendered.
pub open spec fn answered(
    to: BareJid,
    template: String,
    rendered: Option<Result<String, minijinja::Error>>,
) -> Result<WebhookResponse, WebhookError> {
    match rendered {
        None => Ok(WebhookResponse::NoTemplate { template }),
        Some(Ok(message)) => Ok(WebhookResponse::MessageSent { to: RoomId::Room(to), message }),
        Some(Err(error)) => Err(WebhookError::RenderingError(error)),
    }
}

/// An event of a repository that has no destination is answered as unknown:
/// it is not an error, nothing is sent for it, and the record of failed runs
/// stays as it is.
pub proof fn lemma_unknown_repository(
    event_type: Seq<char>,
    event: Json,
    mapping: Map<Seq<char>, BareJid>,
    runs: Map<Seq<char>, Seq<RunKey>>,
)
    requires
        event_repository(event) is Some,
        !mapping.dom().contains(event_repository(event).unwrap()),
    ensures
        decide(event_type, event, mapping, runs) == Decision::UnknownRepo,
        runs_after(event_type, event, mapping, runs) == runs,
{
}

/// A workflow run that succeeds without a failure of the same repository,
/// workflow and branch on record is not announced, and the record stays as it
/// is.
pub proof fn lemma_success_is_suppressed(
    event: Json,
    mapping: Map<Seq<char>, BareJid>,
    runs: Map<Seq<char>, Seq<RunKey>>,
)
    requires
        event_repository(event) is Some,
        mapping.dom().contains(event_repository(event).unwrap()),
        event_conclusion(event) == "success"@,
        !has_failure(runs, event_repository(event).unwrap(), event_run(event)),
    ensures
        decide("workflow_run"@, event, mapping, runs) == Decision::Suppressed,
        runs_after("workflow_run"@, event, mapping, runs) == runs,
{
    lemma_success_without_failure(runs, event_repository(event).unwrap(), event_run(event));
}

/// A failure is always announced and goes on record. The success of the same
/// repository, workflow and branch that follows it is announced too and takes
/// the run off the record, so that a second such success is not announced.
pub proof fn lemma_recovery_is_announced(
    failure: Json,
    success: Json,
    mapping: Map<Seq<char>, BareJid>,
    runs: Map<Seq<char>, Seq<RunKey>>,
)
    requires
        event_repository(failure) is Some,
        event_repository(success) == event_repository(failure),
        mapping.dom().contains(event_repository(failure).unwrap()),
        event_run(success) == event_run(failure),
        event_conclusion(failure) == "failure"@,
        event_conclusion(success) == "success"@,
    ensures
        ({
            let repo = event_repository(failure).unwrap();
            let run = event_run(failure);
            let failed = runs_after("workflow_run"@, failure, mapping, runs);
            let recovered = runs_after("workflow_run"@, success, mapping, failed);
            &&& decide("workflow_run"@, failure, mapping, runs) == Decision::Render {
                to: mapping[repo],
                template: template_name("workflow_run"@, event_action(failure)),
            }
            &&& has_failure(failed, repo, run)
            &&& decide("workflow_run"@, success, mapping, failed) == Decision::Render {
                to: mapping[repo],
                template: template_name("workflow_run"@, event_action(success)),
            }
            &&& !has_failure(recovered, repo, run)
            &&& decide("workflow_run"@, success, mapping, recovered) == Decision::Suppressed
            &&& runs_after("workflow_run"@, success, mapping, recovered) == recovered
        }),
{
    let repo = event_repository(failure).unwrap();
    let run = event_run(failure);
    reveal_strlit("success");
    reveal_strlit("failure");
    assert("success"@ != "failure"@) by {
        assert("success"@[0] != "failure"@[0]);
    }
    lemma_success_after_failure(runs, repo, run);
}

impl WebhookError {
    /// The HTTP status that reports the error: 400 for what the sender got
    /// wrong, 500 for a template that did not render.
    pub open spec fn status(self) -> u16 {
        match self {
            WebhookError::MissingEventType => 400,
            WebhookError::MissingRepo => 400,
            WebhookError::DeserializationError(_) => 400,
            WebhookError::RenderingError(_) => 500,
        }
    }

    pub fn status_code(&self) -> (status: u16)
        ensures
            status == self.status(),
    {
        match self {
            WebhookError::MissingEventType => 400,
            WebhookError::MissingRepo => 400,
            WebhookError::DeserializationError(_) => 400,
            WebhookError::RenderingError(_) => 500,
        }
    }

    /// The text that reports the error to the sender. The two errors that
    /// come from `serde_json` and `minijinja` speak for themselves.
    pub open spec fn text(self) -> Seq<char> {
        match self {
            WebhookError::MissingEventType => "Missing event type"@,
            WebhookError::MissingRepo => "Missing repo"@,
            WebhookError::DeserializationError(error) => json_error_message(error),
            WebhookError::RenderingError(error) => template_error_message(error),
        }
    }

    pub fn message(&self) -> (message: String)
        ensures
            message@ == self.text(),
    {
        match self {
            WebhookError::MissingEventType => "Missing event type".to_owned(),
            WebhookError::MissingRepo => "Missing repo".to_owned(),
            WebhookError::DeserializationError(error) => json_error_text(error),
            WebhookError::RenderingError(error) => template_error_text(error),
        }
    }
}

/// What a `serde_json::Error` shows of itself.
pub uninterp spec fn json_error_message(error: serde_json::Error) -> Seq<char>;

/// What a `minijinja::Error` shows of itself.
pub uninterp spec fn template_error_message(error: minijinja::Error) -> Seq<char>;

/// `Display` of `serde_json::Error`, through `to_string`: the text is a
/// function of the error alone.
#[verifier::external_body]
fn json_error_text(error: &serde_json::Error) -> (text: String)
    ensures
        text@ == json_error_message(*error),
{
    error.to_string()
}

/// `Display` of `minijinja::Error`, through `to_string`: the text is a
/// function of the error alone.
#[verifier::external_body]
fn template_error_text(error: &minijinja::Error) -> (text: String)
    ensures
        text@ == template_error_message(*error),
{
    error.to_string()
}

impl WebhookResponse {
    /// The short text that acknowledges the request.
    pub open spec fn acknowledgement(self) -> Seq<char> {
        match self {
            WebhookResponse::UnknownRepo => "unknown repo"@,
            WebhookResponse::Suppressed => "ok"@,
            WebhookResponse::NoTemplate { .. } => "ok"@,
            WebhookResponse::MessageSent { .. } => "message sent"@,
        }
    }

    /// The HTTP status of every answer that is no error.
    pub fn status_code(&self) -> (status: u16)
        ensures
            status == 200,
    {
        200
    }

    pub fn body(&self) -> (body: &'static str)
        ensures
            body@ == self.acknowledgement(),
    {
        match self {
            WebhookResponse::UnknownRepo => "unknown repo",
            WebhookResponse::Suppressed => "ok",
            WebhookResponse::NoTemplate { .. } => "ok",
            WebhookResponse::MessageSent { .. } => "message sent",
        }
    }
}

/// Builds the name of an event's template.
pub fn template_name_for(event_type: &str, action: Option<&str>) -> (name: String)
    ensures
        name@ == template_name(
            event_type@,
            match action {
                Some(action) => Some(action@),
                None => None,
            },
        ),
{
    let mut name = event_type.to_owned();
    match action {
        Some(action) => {
            name.append("__");
            name.append(action);
        },
        None => {},
    }
    name.append(".md");
    name
}

/// Decides what a decoded event comes to, and brings the record of failed
/// runs up to date.
pub fn route(
    event_type: &str,
    event: &Value,
    mapping: &RepoMapping,
    workflow_runs: &mut WorkflowRunsStore,
) -> (routed: Result<Route, WebhookError>)
    ensures
        final(workflow_runs)@ == runs_after(event_type@, json_of(*event), mapping@, old(workflow_runs)@),
        match decide(event_type@, json_of(*event), mapping@, old(workflow_runs)@) {
            Decision::MissingRepo => routed == Err::<Route, WebhookError>(WebhookError::MissingRepo),
            decision => routed is Ok && routed.unwrap()@ == decision,
        },
{
    let Some(repo) = nested_text(event, "repository", "full_name") else {
        return Err(WebhookError::MissingRepo);
    };
    let Some(address) = mapping.get(repo) else {
        return Ok(Route::UnknownRepo);
    };
    if same_text(event_type, "workflow_run") {
        // A message goes out for each failed run. For a run that succeeded it
        // goes out only where the same run had failed before.
        let workflow_id = match nested_unsigned(event, "workflow_run", "workflow_id") {
            Some(workflow_id) => workflow_id,
            None => 0,
        };
        let head_branch = match nested_text(event, "workflow_run", "head_branch") {
            Some(head_branch) => head_branch,
            None => {
                proof {
                    reveal_strlit("");
                }
                assert(""@ =~= Seq::<char>::empty());
                ""
            },
        };
        let conclusion = match nested_text(event, "workflow_run", "conclusion") {
            Some(conclusion) => conclusion,
            None => {
                proof {
                    reveal_strlit("");
                }
                assert(""@ =~= Seq::<char>::empty());
                ""
            },
        };
        proof {
            reveal_strlit("success");
            reveal_strlit("failure");
            assert("success"@ != "failure"@) by {
                assert("success"@[0] != "failure"@[0]);
            }
        }
        if same_text(conclusion, "success") {
            if !workflow_runs.workflow_succeeded(repo, workflow_id, head_branch) {
                return Ok(Route::Suppressed);
            }
        } else if same_text(conclusion, "failure") {
            workflow_runs.workflow_failed(repo, workflow_id, head_branch);
        }
    }
    let template = template_name_for(event_type, member_text(event, "action"));
    Ok(Route::Render { to: address.clone(), template })
}

/// Turns what the template lookup and the rendering gave into the answer.
pub fn answer(to: BareJid, template: String, rendered: Option<Result<String, minijinja::Error>>) -> (answer:
    Result<WebhookResponse, WebhookError>)
    ensures
        answer == answered(to, template, rendered),
{
    match rendered {
        None => Ok(WebhookResponse::NoTemplate { template }),
        Some(Ok(message)) => Ok(WebhookResponse::MessageSent { to: RoomId::Room(to), message }),
        Some(Err(error)) => Err(WebhookError::RenderingError(error)),
    }
}

/// Handles one webhook request: `event_type` is the value of the
/// `X-GitHub-Event` header, if the request has one, and `body` the request
/// body. The answer says whether a notification is to be sent, and which.
pub fn webhook(
    event_type: Option<&str>,
    body: &[u8],
    mapping: &RepoMapping,
    workflow_runs: &mut WorkflowRunsStore,
    environment: &Templates,
) -> (response: Result<WebhookResponse, WebhookError>)
    ensures
        match event_type {
            None => {
                &&& response == Err::<WebhookResponse, WebhookError>(WebhookError::MissingEventType)
                &&& final(workflow_runs)@ == old(workflow_runs)@
            },
            Some(event_type) => match parsed_value(body@) {
                None => {
                    &&& response matches Err(WebhookError::DeserializationError(_))
                    &&& final(workflow_runs)@ == old(workflow_runs)@
                },
                Some(value) => {
                    &&& final(workflow_runs)@ == runs_after(
                        event_type@,
                        json_of(value),
                        mapping@,
                        old(workflow_runs)@,
                    )
                    &&& match decide(event_type@, json_of(value), mapping@, old(workflow_runs)@) {
                        Decision::MissingRepo => response == Err::<WebhookResponse, WebhookError>(
                            WebhookError::MissingRepo,
                        ),
                        Decision::UnknownRepo => response == Ok::<WebhookResponse, WebhookError>(
                            WebhookResponse::UnknownRepo,
                        ),
                        Decision::Suppressed => response == Ok::<WebhookResponse, WebhookError>(
                            WebhookResponse::Suppressed,
                        ),
                        Decision::Render { to, template } => match rendered_event(
                            environment@,
                            template,
                            value,
                        ) {
                            None => response matches Ok(WebhookResponse::NoTemplate { template: name })
                                && name@ == template,
                            Some(Some(text)) => response matches Ok(
                                WebhookResponse::MessageSent { to: target, message },
                            ) && target == RoomId::Room(to) && message@ == text,
                            Some(None) => response matches Err(WebhookError::RenderingError(_)),
                        },
                    }
                },
            },
        },
{
    let Some(event_type) = event_type else {
        return Err(WebhookError::MissingEventType);
    };
    let event = match parse_object(body) {
        Ok(event) => event,
        Err(error) => {
            return Err(WebhookError::DeserializationError(error));
        },
    };
    match route(event_type, &event, mapping, workflow_runs)? {
        Route::UnknownRepo => Ok(WebhookResponse::UnknownRepo),
        Route::Suppressed => Ok(WebhookResponse::Suppressed),
        Route::Render { to, template } => {
            let rendered = environment.render(template.as_str(), &event);
            answer(to, template, rendered)
        },
    }
}

} // verus!
