//! The commit hook route: a digest of the commits of a push, for the
//! operator.

use vstd::prelude::*;

use crate::routes::webhook::WebhookError;
use crate::text::same_text;
use crate::webhook::format::{commit_digest_text, format_commit_digest};
use crate::webhook::types::PushEvent;

verus! {

/// Whether the commit hook reads the body of a request: it does for a push
/// and for no other event. A request without an event type is refused.
pub fn accepts(event_type: Option<&str>) -> (wanted: Result<bool, WebhookError>)
    ensures
        match event_type {
            None => wanted == Err::<bool, WebhookError>(WebhookError::MissingEventType),
            Some(event_type) => wanted == Ok::<bool, WebhookError>(event_type@ == "push"@),
        },
{
    match event_type {
        None => Err(WebhookError::MissingEventType),
        Some(event_type) => Ok(same_text(event_type, "push")),
    }
}

/// The message that the commit hook sends for the body of a push: the digest
/// of its commits. A body that was refused when it was decoded is an error of
/// the sender.
pub fn commit_hook(payload: Result<PushEvent, serde_json::Error>) -> (message: Result<String, WebhookError>)
    ensures
        match payload {
            Ok(event) => message is Ok && message.unwrap()@ == commit_digest_text(event),
            Err(error) => message == Err::<String, WebhookError>(WebhookError::DeserializationError(error)),
        },
{
    match payload {
        Ok(event) => Ok(format_commit_digest(&event)),
        Err(error) => Err(WebhookError::DeserializationError(error)),
    }
}

} // verus!
