use ai_critics::chatter_json::{
    ChatterJSON, CompletionReason, ProcessingOutcome, StreamChunk, MAX_CONSECUTIVE_BLANKS,
};
use ai_critics::errors::AiCriticError;
use ai_critics::json::JsonValue;
use ai_critics::progress_bar::DoublingProgressBar;

fn create_chunk(msg: &str, finish_reason: Option<CompletionReason>) -> StreamChunk {
    StreamChunk { content: Some(msg.to_string()), finish_reason }
}

fn obj(pairs: Vec<(&str, JsonValue)>) -> JsonValue {
    JsonValue::Object(pairs.into_iter().map(|(k, v)| (k.to_string(), v)).collect())
}

fn s(text: &str) -> JsonValue {
    JsonValue::Str(text.to_string())
}

#[test]
fn test_check_for_excessive_blanks() {
    let mut blanks: usize = 0;

    assert!(!ChatterJSON::check_for_excessive_blanks(&mut blanks, ""));
    assert_eq!(blanks, 1);

    assert!(!ChatterJSON::check_for_excessive_blanks(&mut blanks, "a"));
    assert_eq!(blanks, 0);

    blanks = MAX_CONSECUTIVE_BLANKS;
    assert!(ChatterJSON::check_for_excessive_blanks(&mut blanks, "\n"));
    assert_eq!(blanks, MAX_CONSECUTIVE_BLANKS + 1);
}

#[test]
fn test_process_stop_with_code() {
    let json_str = r#"{"code": "print('Hello, World!')"}"#.to_string();
    let result = ChatterJSON::process_stop(json_str).unwrap();
    assert_eq!(
        result,
        ProcessingOutcome::Done(obj(vec![("code", s("print('Hello, World!')"))]))
    );
}

#[test]
fn test_process_stop_with_invalid_json() {
    let json_str = r#"{"code": "print('Hello, World!')"#.to_string();
    let result = ChatterJSON::process_stop(json_str);
    assert!(result.is_err());
    assert_eq!(
        result.unwrap_err().message(),
        "failed to parse JSON: EOF while parsing a string at line 1 column 32"
    );
}

#[test]
fn test_process_stop_with_object_value() {
    let json_str = r#"{"key": "value"}"#.to_string();
    let result = ChatterJSON::process_stop(json_str).unwrap();
    assert_eq!(result, ProcessingOutcome::Done(obj(vec![("key", s("value"))])));
}

#[test]
fn test_process_stop_with_unexpected_json_structure() {
    let json_str = r#"["an", "array"]"#.to_string();
    let result = ChatterJSON::process_stop(json_str);
    assert!(result.is_err());

    let error = result.unwrap_err();
    assert!(matches!(error, AiCriticError::UnexpectedJsonStructure { json: _ }));
}

#[test]
fn test_process_api_result_with_stop() {
    let mut pb = DoublingProgressBar::new("test_progress_bar").unwrap();
    let json_str = r#"{"code": "print('Hello, World!')"}"#.to_string();
    let finish_reason = Some(CompletionReason::Stop);
    let cj = ChatterJSON::new();
    let result = cj.process_api_result(&mut pb, json_str, finish_reason).unwrap();
    assert_eq!(
        result,
        ProcessingOutcome::Done(obj(vec![("code", s("print('Hello, World!')"))]))
    );
}

#[test]
fn test_process_api_result_with_length() {
    let mut pb = DoublingProgressBar::new("test_progress_bar").unwrap();
    let json_str = r#"{"message": "Hello, World!"}"#.to_string();
    let finish_reason = Some(CompletionReason::LengthExceeded);
    let cj = ChatterJSON::new();
    let result = cj.process_api_result(&mut pb, json_str, finish_reason).unwrap();
    assert_eq!(result, ProcessingOutcome::Retry);
}

#[test]
fn test_process_api_result_with_unexpected_reason() {
    let mut pb = DoublingProgressBar::new("test_progress_bar").unwrap();
    let json_str = r#"{"message": "Hello, World!"}"#.to_string();
    let finish_reason = None;
    let cj = ChatterJSON::new();
    let result = cj.process_api_result(&mut pb, json_str, finish_reason).unwrap();
    assert_eq!(result, ProcessingOutcome::Retry);
}

#[test]
fn test_process_api_result_without_reason() {
    let mut pb = DoublingProgressBar::new("test_progress_bar").unwrap();
    let json_str = r#"{"message": "Hello, World!"}"#.to_string();
    let finish_reason = None;
    let cj = ChatterJSON::new();
    let result = cj.process_api_result(&mut pb, json_str, finish_reason).unwrap();
    assert_eq!(result, ProcessingOutcome::Retry);
}

#[test]
fn test_process_chunk() {
    let mut pb = DoublingProgressBar::new("test_progress_bar").unwrap();
    let mut chunks = Vec::new();
    let mut consecutive_blanks: usize = 0;
    let mut last_finish_reason = None;

    let response_chunk = create_chunk("Hello", Some(CompletionReason::Stop));
    let retry = ChatterJSON::process_chunk(
        &mut pb,
        &response_chunk,
        &mut chunks,
        &mut consecutive_blanks,
        &mut last_finish_reason,
    );
    assert!(!retry);
    assert_eq!(chunks, vec!["Hello"]);
}

#[test]
fn test_process_chunk_consecutive_blanks() {
    let mut pb = DoublingProgressBar::new("test_progress_bar").unwrap();
    let mut chunks = Vec::new();
    let mut consecutive_blanks: usize = 0;
    let mut last_finish_reason = None;

    let chunk = create_chunk("", None);
    let retry = ChatterJSON::process_chunk(
        &mut pb,
        &chunk,
        &mut chunks,
        &mut consecutive_blanks,
        &mut last_finish_reason,
    );
    assert!(!retry);
    assert_eq!(consecutive_blanks, 1);

    let chunk = create_chunk(" ", None);
    let retry = ChatterJSON::process_chunk(
        &mut pb,
        &chunk,
        &mut chunks,
        &mut consecutive_blanks,
        &mut last_finish_reason,
    );
    assert!(!retry);
    assert_eq!(consecutive_blanks, 2);

    let chunk = create_chunk(" \n   ", Some(CompletionReason::Stop));
    let retry = ChatterJSON::process_chunk(
        &mut pb,
        &chunk,
        &mut chunks,
        &mut consecutive_blanks,
        &mut last_finish_reason,
    );
    assert!(!retry);
    assert_eq!(consecutive_blanks, 3);

    let chunk = create_chunk("a", None);
    let retry = ChatterJSON::process_chunk(
        &mut pb,
        &chunk,
        &mut chunks,
        &mut consecutive_blanks,
        &mut last_finish_reason,
    );
    assert!(!retry);
    assert_eq!(consecutive_blanks, 0);

    consecutive_blanks = MAX_CONSECUTIVE_BLANKS;
    let chunk = create_chunk(" ", Some(CompletionReason::Stop));
    let retry = ChatterJSON::process_chunk(
        &mut pb,
        &chunk,
        &mut chunks,
        &mut consecutive_blanks,
        &mut last_finish_reason,
    );
    assert!(retry);
    assert_eq!(consecutive_blanks, MAX_CONSECUTIVE_BLANKS + 1);
}

#[test]
fn test_process_chunk_finish_reason() {
    let mut pb = DoublingProgressBar::new("test_progress_bar").unwrap();
    let mut chunks = Vec::new();
    let mut consecutive_blanks: usize = 0;
    let mut last_finish_reason = None;

    let chunk = create_chunk("foo", Some(CompletionReason::Stop));
    let retry = ChatterJSON::process_chunk(
        &mut pb,
        &chunk,
        &mut chunks,
        &mut consecutive_blanks,
        &mut last_finish_reason,
    );
    assert!(!retry);
    assert_eq!(last_finish_reason, Some(CompletionReason::Stop));
}

#[test]
fn test_validate_fields_valid() {
    let fields = vec!["field1", "field2"];
    let value = obj(vec![("field1", s("value1")), ("field2", s("value2"))]);

    let fields = ChatterJSON::validate_fields(&value, fields).unwrap();
    assert!(fields.is_empty());
}

#[test]
fn test_validate_fields_extra() {
    let fields = vec!["field1", "field2"];
    let value = obj(vec![
        ("field1", s("value1")),
        ("field2", s("value2")),
        ("field3", s("value3")),
    ]);

    let extra_fields = ChatterJSON::validate_fields(&value, fields).unwrap();
    assert_eq!(extra_fields, vec!["field3"]);
}

#[test]
fn test_validate_fields_missing() {
    let fields = vec!["field1", "field2"];
    let value = obj(vec![("field1", s("value1"))]);

    match ChatterJSON::validate_fields(&value, fields) {
        Ok(_) => panic!("Expected an error for missing fields, but got Ok"),
        Err(AiCriticError::MissingJsonFields { fields }) => {
            assert_eq!(fields, vec!["field2"], "Unexpected missing fields");
        }
        Err(_) => panic!("Expected MissingJsonFields error, got different error"),
    }
}

#[test]
fn test_validate_fields_not_json_object() {
    let value = s("This is not a JSON object");

    let fields = vec!["field1", "field2"];

    match ChatterJSON::validate_fields(&value, fields) {
        Ok(_) => panic!("Expected an error for non-object JSON, but got Ok"),
        Err(AiCriticError::NotJsonObject) => {}
        Err(_) => panic!("Expected NotJsonObject error, got different error"),
    }
}
