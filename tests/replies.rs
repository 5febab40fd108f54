use codeprobs::{
    answer_error_lines, answer_lines, delete_outcome, int_text, post_outcome, sign_up_outcome,
    Answer, AnswerError, DeleteOutcome, PostOutcome, SignUpOutcome, User,
};

#[test]
fn int_text_writes_decimal() {
    assert_eq!(int_text(0), "0");
    assert_eq!(int_text(42), "42");
    assert_eq!(int_text(-7), "-7");
    assert_eq!(int_text(1000), "1000");
    assert_eq!(int_text(i32::MAX), "2147483647");
    assert_eq!(int_text(i32::MIN), "-2147483648");
}

#[test]
fn sign_up_created_and_accepted_differ() {
    assert_eq!(sign_up_outcome(201), SignUpOutcome::Created);
    assert_eq!(sign_up_outcome(200), SignUpOutcome::Accepted);
    let created = sign_up_outcome(201).message("ignored");
    let accepted = sign_up_outcome(200).message("ignored");
    assert_eq!(created, "User created successfully");
    assert_eq!(accepted, "User accepted but not created");
    assert_ne!(created, accepted);
    assert_eq!(sign_up_outcome(201).message("other"), created);
    assert!(!sign_up_outcome(201).shows_reason());
    assert!(!sign_up_outcome(200).shows_reason());
}

#[test]
fn sign_up_rejection_echoes_body() {
    for status in [400u16, 409, 422, 500, 204] {
        let outcome = sign_up_outcome(status);
        assert_eq!(outcome, SignUpOutcome::Rejected);
        assert!(outcome.shows_reason());
        let body = "Username already taken\n  {\"x\": 1}";
        assert_eq!(outcome.message(body), format!("User NOT created! Reason:\n{}", body));
    }
    assert_eq!(sign_up_outcome(409).message(""), "User NOT created! Reason:\n");
}

#[test]
fn post_outcomes_by_status() {
    assert_eq!(post_outcome(201), PostOutcome::Created);
    assert_eq!(post_outcome(200), PostOutcome::Accepted);
    assert_eq!(post_outcome(422), PostOutcome::Invalid);
    assert_eq!(post_outcome(401), PostOutcome::Rejected);
    assert_eq!(post_outcome(201).message("x"), "Answer created successfully");
    assert_eq!(post_outcome(200).message("x"), "Answer accepted but not created");
    assert_eq!(post_outcome(500).message("boom"), "Answer NOT created! Reason:\nboom");
    assert!(post_outcome(500).shows_reason());
    assert!(!post_outcome(422).shows_reason());
}

#[test]
fn refused_answer_without_stdout() {
    let e = AnswerError {
        reason: "Compile error".to_string(),
        stdout: None,
        stderr: Some("line 1: syntax error".to_string()),
    };
    let lines = answer_error_lines(&e);
    assert_eq!(
        lines,
        vec![
            "Answer NOT created! Reason: Compile error".to_string(),
            "Stderr:\nline 1: syntax error".to_string(),
        ]
    );
    assert!(lines.iter().all(|l| !l.starts_with("Stdout:")));
}

#[test]
fn refused_answer_with_both_streams() {
    let e = AnswerError {
        reason: "Wrong answer".to_string(),
        stdout: Some("3\n".to_string()),
        stderr: Some("".to_string()),
    };
    assert_eq!(
        answer_error_lines(&e),
        vec![
            "Answer NOT created! Reason: Wrong answer".to_string(),
            "Stdout:\n3\n".to_string(),
            "Stderr:\n".to_string(),
        ]
    );
    let bare = AnswerError { reason: "r".to_string(), stdout: None, stderr: None };
    assert_eq!(answer_error_lines(&bare), vec!["Answer NOT created! Reason: r".to_string()]);
}

#[test]
fn delete_messages_by_status() {
    assert_eq!(delete_outcome(204), DeleteOutcome::Deleted);
    assert_eq!(delete_outcome(403), DeleteOutcome::Forbidden);
    assert_eq!(delete_outcome(404), DeleteOutcome::NotFound);
    assert_eq!(delete_outcome(401), DeleteOutcome::Unauthorized);
    assert_eq!(delete_outcome(500), DeleteOutcome::Unrecognized);
    assert_eq!(delete_outcome(204).message(), "Answer deleted successfully");
    assert_eq!(delete_outcome(403).message(), "Permission for deleting this answer not met!");
    assert_eq!(delete_outcome(404).message(), "Answer with this ID not found!");
    assert_eq!(delete_outcome(401).message(), "Answer NOT deleted! Invalid credentials.");
    assert_eq!(delete_outcome(418).message(), "Answer NOT deleted! Unrecognized reason.");
    let known = [403u16, 404, 401];
    for a in known {
        for b in known {
            if a != b {
                assert_ne!(delete_outcome(a).message(), delete_outcome(b).message());
            }
        }
    }
}

fn answer(id: i32, name: &str, content: &str, up: i32, down: i32) -> Answer {
    Answer {
        id,
        user: User { username: name.to_string(), points: 0 },
        language: "js".to_string(),
        content: content.to_string(),
        upvote_count: up,
        downvote_count: down,
    }
}

#[test]
fn answers_listed_with_separators() {
    let answers = vec![answer(3, "ann", "let x = 1;", 5, 0), answer(-1, "bob", "a\nb", 0, 12)];
    assert_eq!(
        answer_lines(&answers),
        vec![
            "Answer ID: 3, Username: ann, Upvotes: 5, Downvotes: 0".to_string(),
            "let x = 1;".to_string(),
            "------".to_string(),
            "Answer ID: -1, Username: bob, Upvotes: 0, Downvotes: 12".to_string(),
            "a\nb".to_string(),
            "------".to_string(),
        ]
    );
    assert!(answer_lines(&Vec::new()).is_empty());
}
