use design_interview::gateway::UpstreamError;
use design_interview::model::project::ProjectId;
use design_interview::responses::{chat_response, mock_save_response, save_response, PersistenceError};
use serde_json::Value;

fn json(text: &str) -> Value {
    serde_json::from_str(text).expect("valid JSON in the test")
}

#[test]
fn chat_reply_is_answered_with_success() {
    assert_eq!(
        chat_response(&Ok("安くしてよ".to_string())),
        json(r#"{"reply":"安くしてよ","status":"success"}"#)
    );
    assert_eq!(chat_response(&Ok(String::new())), json(r#"{"reply":"","status":"success"}"#));
}

#[test]
fn chat_failure_is_answered_with_error() {
    let expected = json(r#"{"reply":"Error","status":"error"}"#);
    assert_eq!(chat_response(&Err(UpstreamError::Status(500))), expected);
    assert_eq!(chat_response(&Err(UpstreamError::Transport)), expected);
    assert_eq!(chat_response(&Err(UpstreamError::NoReply)), expected);
    assert_eq!(chat_response(&Err(UpstreamError::Malformed)), expected);
}

#[test]
fn saved_project_is_answered_with_its_id() {
    let id = ProjectId(uuid::Uuid::from_u128(0x67e5_5044_10b1_426f_9247_bb68_0e5f_e0c8));
    assert_eq!(id.to_text(), "67e55044-10b1-426f-9247-bb680e5fe0c8");
    assert_eq!(
        save_response(&id, &Ok(())),
        json(
            r#"{"id":"67e55044-10b1-426f-9247-bb680e5fe0c8","status":"success","message":"Project saved successfully via DDD"}"#
        )
    );
}

#[test]
fn failed_save_is_answered_with_error() {
    let id = ProjectId(uuid::Uuid::from_u128(7));
    let expected = json(r#"{"status":"error","message":"Failed to save"}"#);
    assert_eq!(save_response(&id, &Err(PersistenceError::Store)), expected);
    assert_eq!(save_response(&id, &Err(PersistenceError::Encoding)), expected);
}

#[test]
fn session_save_echoes_the_id_of_the_payload() {
    assert_eq!(
        mock_save_response(&json(r#"{"id":"p-1","title":"t"}"#)),
        json(r#"{"status":"success","id":"p-1","message":"Saved to session (mock)"}"#)
    );
    assert_eq!(
        mock_save_response(&json(r#"{"id":{"n":[1,2]}}"#)),
        json(r#"{"status":"success","id":{"n":[1,2]},"message":"Saved to session (mock)"}"#)
    );
}

#[test]
fn session_save_without_an_id_answers_null() {
    let expected = json(r#"{"status":"success","id":null,"message":"Saved to session (mock)"}"#);
    assert_eq!(mock_save_response(&json(r#"{"title":"t"}"#)), expected);
    assert_eq!(mock_save_response(&json(r#"[1]"#)), expected);
    assert_eq!(mock_save_response(&json(r#"null"#)), expected);
}
