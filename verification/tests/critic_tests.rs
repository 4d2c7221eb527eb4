use ai_critics::critic::{deserialize_corrections, CriticAgent, CriticType};
use ai_critics::errors::AiCriticError;
use ai_critics::json::JsonValue;

fn obj(pairs: Vec<(&str, JsonValue)>) -> JsonValue {
    JsonValue::Object(pairs.into_iter().map(|(k, v)| (k.to_string(), v)).collect())
}

fn s(text: &str) -> JsonValue {
    JsonValue::Str(text.to_string())
}

#[test]
fn test_deserialize_corrections() {
    // Empty array.
    let input1 = JsonValue::Array(vec![]);
    let result1 = deserialize_corrections(&input1).unwrap();
    assert!(result1.is_empty());

    // Array with strings.
    let input2 = JsonValue::Array(vec![s("error1"), s("error2")]);
    let result2 = deserialize_corrections(&input2).unwrap();
    assert_eq!(result2, vec!["error1", "error2"]);

    // Null stands for the empty list.
    let input3 = JsonValue::Null;
    let result3 = deserialize_corrections(&input3).unwrap();
    assert!(result3.is_empty());

    // Neither an array nor null.
    let input4 = JsonValue::Bool(true);
    let result4 = deserialize_corrections(&input4);
    assert!(result4.is_err());
}

#[test]
fn test_critic_agent_names_and_prompts() {
    let general = CriticAgent::new(CriticType::General, 2).unwrap();
    assert_eq!(general.name, "General Critic 2");

    let design = CriticAgent::new(CriticType::Design, 1).unwrap();
    assert_eq!(design.name, "Design Critic 1");
    assert!(design.system_msg.contains("_design_"));

    let correctness = CriticAgent::new(CriticType::Correctness, 3).unwrap();
    assert_eq!(correctness.name, "Correctness Critic 3");

    let syntax = CriticAgent::new(CriticType::Syntax, 10).unwrap();
    assert_eq!(syntax.name, "Syntax Critic 10");
}

#[test]
fn test_critic_parse_response_pass() {
    let agent = CriticAgent::new(CriticType::General, 1).unwrap();
    let reply = obj(vec![("passed", JsonValue::Bool(true)), ("corrections", JsonValue::Null)]);
    let verdict = agent.parse_response(&reply).unwrap();
    assert_eq!(verdict.name, "General Critic 1");
    assert!(verdict.passed);
    assert!(verdict.corrections.is_empty());
}

#[test]
fn test_critic_parse_response_dissent() {
    let agent = CriticAgent::new(CriticType::Syntax, 1).unwrap();
    let reply = obj(vec![
        ("passed", JsonValue::Bool(false)),
        ("corrections", JsonValue::Array(vec![s("missing semicolon"), s("bad lifetime")])),
    ]);
    let verdict = agent.parse_response(&reply).unwrap();
    assert!(!verdict.passed);
    assert_eq!(verdict.corrections, vec!["missing semicolon", "bad lifetime"]);
}

#[test]
fn test_critic_parse_response_missing_field() {
    let agent = CriticAgent::new(CriticType::General, 1).unwrap();
    let reply = obj(vec![("passed", JsonValue::Bool(true))]);
    match agent.parse_response(&reply) {
        Err(AiCriticError::MissingJsonFields { fields }) => {
            assert_eq!(fields, vec!["corrections"]);
        }
        other => panic!("expected MissingJsonFields, got {:?}", other),
    }
}

#[test]
fn test_critic_parse_response_bad_passed_type() {
    let agent = CriticAgent::new(CriticType::General, 1).unwrap();
    let reply = obj(vec![("passed", s("yes")), ("corrections", JsonValue::Null)]);
    match agent.parse_response(&reply) {
        Err(AiCriticError::JsonParse { message }) => {
            assert_eq!(message, "Expected boolean");
        }
        other => panic!("expected JsonParse, got {:?}", other),
    }
}
