use ai_critics::chatter_json::{join_chunks, ChatterJSON, ProcessingOutcome, MAX_CONSECUTIVE_BLANKS};
use ai_critics::coder::{parse_code_response, CoderAgent};
use ai_critics::compiler::CompilerAgent;
use ai_critics::errors::AiCriticError;
use ai_critics::fixer::{FixerAgent, ReviewNeeded, ReviewType};
use ai_critics::json::{parse_json, JsonValue};
use ai_critics::progress_bar::DoublingProgressBar;
use ai_critics::tester::{TesterAgent, TesterResult, MAX_COMPILER_OUTPUT};

fn obj(pairs: Vec<(&str, JsonValue)>) -> JsonValue {
    JsonValue::Object(pairs.into_iter().map(|(k, v)| (k.to_string(), v)).collect())
}

fn s(text: &str) -> JsonValue {
    JsonValue::Str(text.to_string())
}

// At the threshold, one more all-whitespace chunk forces a retry while one
// more chunk with real text does not.
#[test]
fn test_blank_streak_threshold_boundary() {
    let mut blanks: usize = MAX_CONSECUTIVE_BLANKS;
    assert!(ChatterJSON::check_for_excessive_blanks(&mut blanks, " \t"));
    assert_eq!(blanks, MAX_CONSECUTIVE_BLANKS + 1);

    let mut blanks: usize = MAX_CONSECUTIVE_BLANKS;
    assert!(!ChatterJSON::check_for_excessive_blanks(&mut blanks, "text"));
    assert_eq!(blanks, 0);
}

// A chunk is blank exactly when trimming leaves nothing, so Unicode
// whitespace beyond the ASCII set counts too.
#[test]
fn test_blank_streak_unicode_whitespace() {
    assert_eq!("\u{000B}".trim(), "");
    let mut blanks: usize = 0;
    assert!(!ChatterJSON::check_for_excessive_blanks(&mut blanks, "\u{000B}"));
    assert_eq!(blanks, 1);

    assert_eq!("\u{00A0}\u{2003}\u{3000}".trim(), "");
    assert!(!ChatterJSON::check_for_excessive_blanks(&mut blanks, "\u{00A0}\u{2003}\u{3000}"));
    assert_eq!(blanks, 2);

    assert!(!ChatterJSON::check_for_excessive_blanks(&mut blanks, "\u{2028}x\u{2029}"));
    assert_eq!(blanks, 0);
}

#[test]
fn test_runner_agent_names() {
    assert_eq!(TesterAgent::new(1).name, "Tester_1");
    let compiler = CompilerAgent::new(7);
    assert_eq!(compiler.name, "Compiler_7");
    assert!(!compiler.print);
}

// The documented service quirk: a `code` member holding a single-key object
// is recovered by taking the key as the payload.
#[test]
fn test_normalize_singleton_object_code() {
    let json_str = r#"{"code": {"x": "y"}}"#.to_string();
    let result = ChatterJSON::process_stop(json_str).unwrap();
    assert_eq!(result, ProcessingOutcome::Done(obj(vec![("code", s("x"))])));
}

// A `code` member holding an object with several keys is too ambiguous to
// recover: the request is retried.
#[test]
fn test_normalize_ambiguous_object_code() {
    let json_str = r#"{"code": {"x": "y", "z": "w"}}"#.to_string();
    let result = ChatterJSON::process_stop(json_str).unwrap();
    assert_eq!(result, ProcessingOutcome::Retry);
}

// A `code` member of any other type is retried as well.
#[test]
fn test_normalize_non_string_code() {
    let json_str = r#"{"code": 42}"#.to_string();
    let result = ChatterJSON::process_stop(json_str).unwrap();
    assert_eq!(result, ProcessingOutcome::Retry);
}

// The field-validation examples with number payloads.
#[test]
fn test_validate_fields_spec_examples() {
    let ab = obj(vec![
        ("a", JsonValue::Number("1".to_string())),
        ("b", JsonValue::Number("2".to_string())),
    ]);
    let extra = ChatterJSON::validate_fields(&ab, vec!["a", "b"]).unwrap();
    assert!(extra.is_empty());

    let a = obj(vec![("a", JsonValue::Number("1".to_string()))]);
    match ChatterJSON::validate_fields(&a, vec!["a", "b"]) {
        Err(AiCriticError::MissingJsonFields { fields }) => assert_eq!(fields, vec!["b"]),
        other => panic!("expected MissingJsonFields, got {:?}", other),
    }

    let ac = obj(vec![
        ("a", JsonValue::Number("1".to_string())),
        ("c", JsonValue::Number("3".to_string())),
    ]);
    let extra = ChatterJSON::validate_fields(&ac, vec!["a"]).unwrap();
    assert_eq!(extra, vec!["c"]);
}

// Parsing goes through the real JSON parser: nesting, numbers, and escapes
// all round through the crate's own tree.
#[test]
fn test_parse_json_builds_the_tree() {
    let v = parse_json(r#"{"a": [1, true, null, "x\n"]}"#).unwrap();
    assert_eq!(
        v,
        obj(vec![(
            "a",
            JsonValue::Array(vec![
                JsonValue::Number("1".to_string()),
                JsonValue::Bool(true),
                JsonValue::Null,
                s("x\n"),
            ])
        )])
    );
    assert!(parse_json("not json").is_err());
}

#[test]
fn test_coder_agent_and_parse() {
    let coder = CoderAgent::new(1).unwrap();
    assert_eq!(coder.name, "Coder_1");

    let reply = obj(vec![("code", s("fn main() {}"))]);
    let code = coder.parse_response(&reply).unwrap();
    assert_eq!(code.code, "fn main() {}");

    let bad = obj(vec![("code", JsonValue::Bool(true))]);
    match parse_code_response(&bad) {
        Err(AiCriticError::JsonParse { message }) => {
            assert_eq!(message, "invalid type for the `code` field");
        }
        other => panic!("expected JsonParse, got {:?}", other),
    }
}

#[test]
fn test_fixer_compose_message() {
    let fixer = FixerAgent::new(1).unwrap();
    assert_eq!(fixer.name, "Fixer_1");
    let review = ReviewNeeded {
        review_type: ReviewType::CodeReview,
        comments: vec!["one".to_string(), "two".to_string()],
    };
    let msg = fixer.compose_message("let x = 1;", &review);
    assert!(msg.starts_with("\n    Specifically address these code review issues:\n"));
    assert!(msg.contains("\u{2022} one\n\u{2022} two"));
    assert!(msg.ends_with("\n\nlet x = 1;"));
}

#[test]
fn test_tester_remove_stacktrace() {
    let with_trace = "test failed: assert_id 0xabc\nstack backtrace:\n  0: rust_begin_unwind";
    assert_eq!(
        TesterAgent::remove_stacktrace(with_trace),
        "test failed: assert_id 0xabc\n"
    );
    let without = "all good";
    assert_eq!(TesterAgent::remove_stacktrace(without), "all good");
}

#[test]
fn test_tester_classify_compile_output() {
    let tester = TesterAgent::new(1);

    let ok = tester
        .classify_compile_output(Some(0), "built".to_string(), String::new(), "/tmp/t".to_string())
        .unwrap();
    match ok {
        TesterResult::Success { stdout, exec_path } => {
            assert_eq!(stdout, "built");
            assert_eq!(exec_path, "/tmp/t");
        }
        other => panic!("expected Success, got {:?}", other),
    }

    let long_diag = "e".repeat(MAX_COMPILER_OUTPUT + 100);
    let failed = tester
        .classify_compile_output(Some(1), String::new(), long_diag.clone(), String::new())
        .unwrap();
    match failed {
        TesterResult::Failure { output, review } => {
            assert_eq!(output.len(), MAX_COMPILER_OUTPUT);
            assert_eq!(review.review_type, ReviewType::CompilerFix);
            assert_eq!(review.comments, vec![long_diag]);
        }
        other => panic!("expected Failure, got {:?}", other),
    }

    match tester.classify_compile_output(None, String::new(), String::new(), String::new()) {
        Err(AiCriticError::ProcessTerminated) => {}
        other => panic!("expected ProcessTerminated, got {:?}", other),
    }
}

#[test]
fn test_tester_classify_test_output() {
    let tester = TesterAgent::new(1);

    let ok = tester.classify_test_output(Some(0), "ran 3 tests".to_string()).unwrap();
    assert!(matches!(ok, TesterResult::Success { .. }));

    let failing = "assertion failed\nstack backtrace:\n 0: foo".to_string();
    let failed = tester.classify_test_output(Some(101), failing).unwrap();
    match failed {
        TesterResult::Failure { output, review } => {
            assert_eq!(output, "assertion failed\n");
            assert_eq!(review.review_type, ReviewType::TestFix);
            assert_eq!(review.comments, vec!["assertion failed\n"]);
        }
        other => panic!("expected Failure, got {:?}", other),
    }

    match tester.classify_test_output(Some(7), String::new()) {
        Err(AiCriticError::TestingFailed { code }) => assert_eq!(code, 7),
        other => panic!("expected TestingFailed, got {:?}", other),
    }

    match tester.classify_test_output(None, String::new()) {
        Err(AiCriticError::ProcessTerminated) => {}
        other => panic!("expected ProcessTerminated, got {:?}", other),
    }
}

#[test]
fn test_compiler_classify_exit_status() {
    let compiler = CompilerAgent::new(1);
    assert!(compiler.classify_exit_status(Some(0)).is_ok());
    match compiler.classify_exit_status(Some(2)) {
        Err(AiCriticError::CompilationFailed { code }) => assert_eq!(code, 2),
        other => panic!("expected CompilationFailed, got {:?}", other),
    }
    match compiler.classify_exit_status(None) {
        Err(AiCriticError::ProcessTerminated) => {}
        other => panic!("expected ProcessTerminated, got {:?}", other),
    }
}

#[test]
fn test_error_messages() {
    assert_eq!(
        AiCriticError::MaxRetriesExceeded { retries: 5 }.message(),
        "too many retries: 5"
    );
    assert_eq!(
        AiCriticError::TestingFailed { code: -9 }.message(),
        "the test exited with code -9"
    );
    assert_eq!(
        AiCriticError::MissingJsonFields { fields: vec!["a".to_string(), "b".to_string()] }
            .message(),
        "the returned JSON is missing fields `[\"a\", \"b\"]`"
    );
    assert_eq!(
        AiCriticError::NotJsonObject.message(),
        "the returned JSON is not an object"
    );
}

#[test]
fn test_doubling_progress_bar() {
    let mut pb = DoublingProgressBar::new("bar").unwrap();
    assert_eq!(pb.current_progress, 0);
    assert_eq!(pb.max_value, 50);

    for _ in 0..50 {
        pb.inc();
    }
    assert_eq!(pb.current_progress, 50);
    assert_eq!(pb.max_value, 100);

    pb.inc();
    assert_eq!(pb.current_progress, 51);
    assert_eq!(pb.max_value, 100);

    pb.dec();
    assert_eq!(pb.current_progress, 50);
    assert_eq!(pb.max_value, 50);

    pb.dec();
    assert_eq!(pb.current_progress, 49);
    assert_eq!(pb.max_value, 50);

    pb.reset_to_zero();
    assert_eq!(pb.current_progress, 0);
    assert_eq!(pb.max_value, 50);

    // Stepping back at zero changes nothing.
    pb.dec();
    assert_eq!(pb.current_progress, 0);
    assert_eq!(pb.max_value, 50);
}

#[test]
fn test_join_chunks() {
    let chunks = vec!["{\"message".to_string(), "\": \"Hello".to_string(), ", World!\"}".to_string()];
    assert_eq!(join_chunks(&chunks), "{\"message\": \"Hello, World!\"}");
    assert_eq!(join_chunks(&Vec::new()), "");
}
