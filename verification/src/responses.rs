//! The answers that go back to the client for a chat and for a save. Each is a
//! JSON object whose `status` says how the request went.
use vstd::prelude::*;
use crate::gateway::UpstreamError;
use crate::json::{empty_object, json_view, member, null_value, set_member, spec_member, text_value, Json};
use crate::model::project::{uuid_text, ProjectId};

verus! {

/// Why a project was not saved.
#[derive(Debug, Clone, Copy, PartialEq, Eq, Structural)]
pub enum PersistenceError {
    /// The project could not be written in its stored form.
    Encoding,
    /// The store refused or failed.
    Store,
}

/// The answer to a chat: the reply with the status `success`, or the word
/// `Error` with the status `error`.
pub open spec fn spec_chat_response(outcome: Result<Seq<char>, UpstreamError>) -> Json {
    let (reply, status) = match outcome {
        Ok(reply) => (reply, "success"@),
        Err(_) => ("Error"@, "error"@),
    };
    Json::Object(
        Map::empty().insert("reply"@, Json::Text(reply)).insert("status"@, Json::Text(status)),
    )
}

/// The answer to a save: on success the identity of the project, the status
/// `success` and a message; on failure the status `error` and a message.
pub open spec fn spec_save_response(id: ProjectId, outcome: Result<(), PersistenceError>) -> Json {
    match outcome {
        Ok(_) => Json::Object(
            Map::empty().insert("id"@, Json::Text(uuid_text(id.0))).insert(
                "status"@,
                Json::Text("success"@),
            ).insert("message"@, Json::Text("Project saved successfully via DDD"@)),
        ),
        Err(_) => Json::Object(
            Map::empty().insert("status"@, Json::Text("error"@)).insert(
                "message"@,
                Json::Text("Failed to save"@),
            ),
        ),
    }
}

/// The answer to a save where nothing is stored: the status `success`, a
/// message, and the `id` of the payload, which is null where it has none.
pub open spec fn spec_mock_save_response(payload: Json) -> Json {
    let id = match spec_member(payload, "id"@) {
        Some(id) => id,
        None => Json::Null,
    };
    Json::Object(
        Map::empty().insert("status"@, Json::Text("success"@)).insert("id"@, id).insert(
            "message"@,
            Json::Text("Saved to session (mock)"@),
        ),
    )
}

/// Gives the answer to a chat request from the outcome of the exchange with
/// the model.
pub fn chat_response(outcome: &Result<String, UpstreamError>) -> (doc: serde_json::Value)
    ensures
        json_view(doc) == spec_chat_response(
            match *outcome {
                Ok(reply) => Ok(reply@),
                Err(e) => Err(e),
            },
        ),
{
    let mut doc = empty_object();
    match outcome {
        Ok(reply) => {
            set_member(&mut doc, "reply", text_value(reply.as_str()));
            set_member(&mut doc, "status", text_value("success"));
        },
        Err(_) => {
            set_member(&mut doc, "reply", text_value("Error"));
            set_member(&mut doc, "status", text_value("error"));
        },
    }
    doc
}

/// Gives the answer to a save request from the outcome of the save.
pub fn save_response(id: &ProjectId, outcome: &Result<(), PersistenceError>) -> (doc:
    serde_json::Value)
    ensures
        json_view(doc) == spec_save_response(*id, *outcome),
{
    let mut doc = empty_object();
    match outcome {
        Ok(_) => {
            set_member(&mut doc, "id", text_value(id.to_text().as_str()));
            set_member(&mut doc, "status", text_value("success"));
            set_member(&mut doc, "message", text_value("Project saved successfully via DDD"));
        },
        Err(_) => {
            set_member(&mut doc, "status", text_value("error"));
            set_member(&mut doc, "message", text_value("Failed to save"));
        },
    }
    doc
}

/// Gives the answer to a save request where nothing is stored.
pub fn mock_save_response(payload: &serde_json::Value) -> (doc: serde_json::Value)
    ensures
        json_view(doc) == spec_mock_save_response(json_view(*payload)),
{
    let id = match member(payload, "id") {
        Some(id) => id.clone(),
        None => null_value(),
    };
    let mut doc = empty_object();
    set_member(&mut doc, "status", text_value("success"));
    set_member(&mut doc, "id", id);
    set_member(&mut doc, "message", text_value("Saved to session (mock)"));
    doc
}

} // verus!
