use ai_critics::chatter_json::{ChatSession, ChatStep, ProcessingOutcome};
use ai_critics::coder::Code;
use ai_critics::critic::{Correction, CriticType};
use ai_critics::errors::AiCriticError;
use ai_critics::fixer::{ReviewNeeded, ReviewType};
use ai_critics::orchestrator::{
    aggregate_corrections, assemble_problem_text, collect_comments, create_critics,
    exit_code_for_run, interpret_exit_code, review_message, ExitInterpretation, OrchPhase,
    Orchestrator, MAX_PROPOSALS,
};

fn verdict(name: &str, passed: bool, issues: Vec<&str>) -> Correction {
    Correction {
        name: name.to_string(),
        passed,
        corrections: issues.into_iter().map(|s| s.to_string()).collect(),
    }
}

fn dissent_review(comments: Vec<&str>) -> ReviewNeeded {
    ReviewNeeded {
        review_type: ReviewType::CodeReview,
        comments: comments.into_iter().map(|s| s.to_string()).collect(),
    }
}

// The aggregation scenario: two dissenters with overlapping issues and one
// passing critic produce exactly the set {x, y, z}, order-independent.
#[test]
fn test_aggregate_corrections_set_union() {
    let verdicts = vec![
        verdict("a", false, vec!["x", "y"]),
        verdict("b", false, vec!["y", "z"]),
        verdict("c", true, vec![]),
    ];
    let review = aggregate_corrections(&verdicts).unwrap();
    assert_eq!(review.review_type, ReviewType::CodeReview);
    let mut got = review.comments.clone();
    got.sort();
    assert_eq!(got, vec!["x", "y", "z"]);
}

#[test]
fn test_aggregate_corrections_all_pass() {
    let verdicts = vec![verdict("a", true, vec![]), verdict("b", true, vec![])];
    assert!(aggregate_corrections(&verdicts).is_none());
}

// A declared pass with leftover issue text is informational: it contributes
// nothing to the aggregate.
#[test]
fn test_aggregate_corrections_pass_with_issues_ignored() {
    let verdicts = vec![verdict("a", true, vec!["stale note"]), verdict("b", false, vec!["x"])];
    let review = aggregate_corrections(&verdicts).unwrap();
    assert_eq!(review.comments, vec!["x"]);
}

#[test]
fn test_collect_comments_all_ok() {
    let results = vec![Ok(verdict("a", true, vec![])), Ok(verdict("b", false, vec!["x"]))];
    let collected = collect_comments(results).unwrap();
    assert_eq!(collected.len(), 2);
    assert_eq!(collected[1].corrections, vec!["x"]);
}

#[test]
fn test_collect_comments_first_error_wins() {
    let results = vec![
        Ok(verdict("a", true, vec![])),
        Err(AiCriticError::NotJsonObject),
        Err(AiCriticError::ProcessTerminated),
    ];
    match collect_comments(results) {
        Err(AiCriticError::NotJsonObject) => {}
        other => panic!("expected the first error, got {:?}", other),
    }
}

#[test]
fn test_create_critics_specialized() {
    let critics = create_critics(2, false).unwrap();
    assert_eq!(critics.len(), 6);
    assert_eq!(critics[0].critic_type, CriticType::Design);
    assert_eq!(critics[1].name, "Design Critic 2");
    assert_eq!(critics[2].critic_type, CriticType::Correctness);
    assert_eq!(critics[4].critic_type, CriticType::Syntax);
    assert_eq!(critics[5].name, "Syntax Critic 2");
}

#[test]
fn test_create_critics_general_only() {
    let critics = create_critics(3, true).unwrap();
    assert_eq!(critics.len(), 3);
    assert!(critics.iter().all(|c| c.critic_type == CriticType::General));
    assert_eq!(critics[2].name, "General Critic 3");
}

#[test]
fn test_review_message_layout() {
    let code = Code { code: "fn main() {}".to_string() };
    let msg = review_message("solve it", &code);
    assert_eq!(msg, "solve it\n\n------\n\nfn main() {}");
}

#[test]
fn test_assemble_problem_text_skips_comment_lines() {
    let lines = vec![
        "# a comment".to_string(),
        "first".to_string(),
        "".to_string(),
        "# another".to_string(),
        "second".to_string(),
    ];
    assert_eq!(assemble_problem_text(&lines), "first\n\nsecond\n");
}

// The clean end-to-end run: the generator answers, every critic passes,
// and verification succeeds — the loop converges after exactly one proposal.
#[test]
fn test_orchestrator_converges_first_proposal() {
    let mut orch = Orchestrator::new(MAX_PROPOSALS);
    orch.on_generated(Code { code: "fn main() {}".to_string() });
    orch.on_reviewed(None);
    orch.on_tested(None);
    assert_eq!(orch.phase, OrchPhase::Converged);
    assert_eq!(orch.result().unwrap(), 1);
}

// Critics that never pass and tests that never succeed exhaust a budget of
// three proposals: the loop reports the exhaustion and never runs a fourth
// generator or fixer round.
#[test]
fn test_orchestrator_exhausts_budget() {
    let mut orch = Orchestrator::new(3);
    let mut rounds: usize = 0;
    orch.on_generated(Code { code: "fn main() {}".to_string() });
    loop {
        assert_eq!(orch.phase, OrchPhase::Reviewing);
        rounds += 1;
        orch.on_reviewed(Some(dissent_review(vec!["wrong"])));
        orch.on_fixed(Code { code: "fn main() { }".to_string() });
        orch.on_tested(Some(dissent_review(vec!["test failed"])));
        orch.on_fixed(Code { code: "fn main() {  }".to_string() });
        if orch.phase == OrchPhase::Exhausted {
            break;
        }
    }
    assert_eq!(rounds, 3);
    assert!(orch.proposal_count <= 3);
    match orch.result() {
        Err(AiCriticError::MaxProposalsExceeded { proposals }) => assert_eq!(proposals, 3),
        other => panic!("expected MaxProposalsExceeded, got {:?}", other),
    }
}

// A review fix still runs within the same proposal: dissent, fix, then a
// passing verification converge on proposal one.
#[test]
fn test_orchestrator_review_fix_same_proposal() {
    let mut orch = Orchestrator::new(5);
    orch.on_generated(Code { code: "a".to_string() });
    orch.on_reviewed(Some(dissent_review(vec!["x"])));
    orch.on_fixed(Code { code: "b".to_string() });
    orch.on_tested(None);
    assert_eq!(orch.result().unwrap(), 1);
}

// A transport that never yields a usable completion costs exactly the whole
// attempt budget before the retries-exceeded error.
#[test]
fn test_chat_session_retry_exhaustion() {
    let max_retries: usize = 5;
    let mut session = ChatSession::new(max_retries);
    let mut attempts: usize = 0;
    loop {
        attempts += 1;
        match session.on_outcome(ProcessingOutcome::Retry) {
            ChatStep::RetryRequest => continue,
            ChatStep::GiveUp => break,
            ChatStep::Finished(_) => panic!("a retry outcome can never finish the session"),
        }
    }
    assert_eq!(attempts, max_retries);
    match session.exhausted_error() {
        AiCriticError::MaxRetriesExceeded { retries } => assert_eq!(retries, max_retries),
        other => panic!("expected MaxRetriesExceeded, got {:?}", other),
    }
}

#[test]
fn test_chat_session_finishes_on_done() {
    let mut session = ChatSession::new(5);
    let step = session.on_outcome(ProcessingOutcome::Done(
        ai_critics::json::JsonValue::Bool(true),
    ));
    assert!(matches!(step, ChatStep::Finished(_)));
    assert_eq!(session.attempts, 1);
}

#[test]
fn test_exit_code_round_trip() {
    assert_eq!(exit_code_for_run(&Ok(5)), 5);
    assert_eq!(
        interpret_exit_code(exit_code_for_run(&Ok(5))),
        Some(ExitInterpretation::Solved(5))
    );

    let diverged: Result<usize, AiCriticError> =
        Err(AiCriticError::MaxProposalsExceeded { proposals: 20 });
    assert_eq!(exit_code_for_run(&diverged), 255);
    assert_eq!(
        interpret_exit_code(exit_code_for_run(&diverged)),
        Some(ExitInterpretation::Diverged)
    );

    let failed: Result<usize, AiCriticError> = Err(AiCriticError::NotJsonObject);
    assert_eq!(exit_code_for_run(&failed), 0);
    assert_eq!(
        interpret_exit_code(exit_code_for_run(&failed)),
        Some(ExitInterpretation::Retry)
    );
}

#[test]
fn test_interpret_exit_code_out_of_range() {
    assert_eq!(interpret_exit_code(-1), None);
    assert_eq!(interpret_exit_code(256), None);
    assert_eq!(interpret_exit_code(255), Some(ExitInterpretation::Diverged));
    assert_eq!(interpret_exit_code(0), Some(ExitInterpretation::Retry));
}
