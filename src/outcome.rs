use vstd::prelude::*;

use crate::model::AnswerError;
use crate::text::views;

verus! {

/// How the server answered a sign-up.
#[derive(Clone, Copy, Debug, PartialEq, Eq, Structural)]
pub enum SignUpOutcome {
    /// 201: the user was created.
    Created,
    /// 200: the request was accepted but no user was created.
    Accepted,
    /// Any other status: the response text gives the reason.
    Rejected,
}

/// How the server answered the posting of an answer.
#[derive(Clone, Copy, Debug, PartialEq, Eq, Structural)]
pub enum PostOutcome {
    /// 201: the answer was created.
    Created,
    /// 200: the request was accepted but no answer was created.
    Accepted,
    /// 422: the answer was checked and refused; the body is an `AnswerError`.
    Invalid,
    /// Any other status: the response text gives the reason.
    Rejected,
}

/// How the server answered the deletion of an answer.
#[derive(Clone, Copy, Debug, PartialEq, Eq, Structural)]
pub enum DeleteOutcome {
    /// 204
    Deleted,
    /// 403
    Forbidden,
    /// 404
    NotFound,
    /// 401
    Unauthorized,
    /// Any other status.
    Unrecognized,
}

pub open spec fn sign_up_outcome_of(status: u16) -> SignUpOutcome {
    if status == 201 {
        SignUpOutcome::Created
    } else if status == 200 {
        SignUpOutcome::Accepted
    } else {
        SignUpOutcome::Rejected
    }
}

pub open spec fn post_outcome_of(status: u16) -> PostOutcome {
    if status == 201 {
        PostOutcome::Created
    } else if status == 200 {
        PostOutcome::Accepted
    } else if status == 422 {
        PostOutcome::Invalid
    } else {
        PostOutcome::Rejected
    }
}

pub open spec fn delete_outcome_of(status: u16) -> DeleteOutcome {
    if status == 204 {
        DeleteOutcome::Deleted
    } else if status == 403 {
        DeleteOutcome::Forbidden
    } else if status == 404 {
        DeleteOutcome::NotFound
    } else if status == 401 {
        DeleteOutcome::Unauthorized
    } else {
        DeleteOutcome::Unrecognized
    }
}

/// The message shown for a sign-up; `reason` is the response text, which
/// only a rejection shows.
pub open spec fn sign_up_text(outcome: SignUpOutcome, reason: Seq<char>) -> Seq<char> {
    match outcome {
        SignUpOutcome::Created => "User created successfully"@,
        SignUpOutcome::Accepted => "User accepted but not created"@,
        SignUpOutcome::Rejected => "User NOT created! Reason:\n"@ + reason,
    }
}

/// The message shown for a posted answer other than a refused one (422);
/// `reason` is the response text, which only a rejection shows.
pub open spec fn post_text(outcome: PostOutcome, reason: Seq<char>) -> Seq<char> {
    match outcome {
        PostOutcome::Created => "Answer created successfully"@,
        PostOutcome::Accepted => "Answer accepted but not created"@,
        _ => "Answer NOT created! Reason:\n"@ + reason,
    }
}

/// The message shown for a deletion.
pub open spec fn delete_text(outcome: DeleteOutcome) -> Seq<char> {
    match outcome {
        DeleteOutcome::Deleted => "Answer deleted successfully"@,
        DeleteOutcome::Forbidden => "Permission for deleting this answer not met!"@,
        DeleteOutcome::NotFound => "Answer with this ID not found!"@,
        DeleteOutcome::Unauthorized => "Answer NOT deleted! Invalid credentials."@,
        DeleteOutcome::Unrecognized => "Answer NOT deleted! Unrecognized reason."@,
    }
}

/// The lines shown for a refused answer: the reason, then the program's
/// standard output and standard error, each only where the server sent one.
pub open spec fn answer_error_text(e: AnswerError) -> Seq<Seq<char>> {
    let head = seq!["Answer NOT created! Reason: "@ + e.reason@];
    let with_out = match e.stdout {
        Some(out) => head.push("Stdout:\n"@ + out@),
        None => head,
    };
    match e.stderr {
        Some(err) => with_out.push("Stderr:\n"@ + err@),
        None => with_out,
    }
}

/// Classifies the status of a sign-up response.
pub fn sign_up_outcome(status: u16) -> (r: SignUpOutcome)
    ensures
        r == sign_up_outcome_of(status),
{
    match status {
        201 => SignUpOutcome::Created,
        200 => SignUpOutcome::Accepted,
        _ => SignUpOutcome::Rejected,
    }
}

/// Classifies the status of a response to posting an answer.
pub fn post_outcome(status: u16) -> (r: PostOutcome)
    ensures
        r == post_outcome_of(status),
{
    match status {
        201 => PostOutcome::Created,
        200 => PostOutcome::Accepted,
        422 => PostOutcome::Invalid,
        _ => PostOutcome::Rejected,
    }
}

/// Classifies the status of a response to deleting an answer.
pub fn delete_outcome(status: u16) -> (r: DeleteOutcome)
    ensures
        r == delete_outcome_of(status),
{
    match status {
        204 => DeleteOutcome::Deleted,
        403 => DeleteOutcome::Forbidden,
        404 => DeleteOutcome::NotFound,
        401 => DeleteOutcome::Unauthorized,
        _ => DeleteOutcome::Unrecognized,
    }
}

fn prefixed(prefix: &str, rest: &str) -> (r: String)
    ensures
        r@ == prefix@ + rest@,
{
    let mut s = String::from_str(prefix);
    s.append(rest);
    s
}

impl SignUpOutcome {
    /// Whether the message shows the response text, which must then be read.
    pub fn shows_reason(&self) -> (r: bool)
        ensures
            r == (*self == SignUpOutcome::Rejected),
    {
        match self {
            SignUpOutcome::Rejected => true,
            _ => false,
        }
    }

    /// The message for this outcome; `reason` is the response text, shown
    /// unchanged after a rejection and ignored otherwise.
    pub fn message(&self, reason: &str) -> (r: String)
        ensures
            r@ == sign_up_text(*self, reason@),
    {
        match self {
            SignUpOutcome::Created => String::from_str("User created successfully"),
            SignUpOutcome::Accepted => String::from_str("User accepted but not created"),
            SignUpOutcome::Rejected => prefixed("User NOT created! Reason:\n", reason),
        }
    }
}

impl PostOutcome {
    /// Whether the message shows the response text, which must then be read.
    pub fn shows_reason(&self) -> (r: bool)
        ensures
            r == (*self == PostOutcome::Rejected),
    {
        match self {
            PostOutcome::Rejected => true,
            _ => false,
        }
    }

    /// The message for this outcome; `reason` is the response text, shown
    /// unchanged after a rejection and ignored otherwise. A refusal (422) is
    /// told by `answer_error_lines` instead.
    pub fn message(&self, reason: &str) -> (r: String)
        requires
            *self != PostOutcome::Invalid,
        ensures
            r@ == post_text(*self, reason@),
    {
        match self {
            PostOutcome::Created => String::from_str("Answer created successfully"),
            PostOutcome::Accepted => String::from_str("Answer accepted but not created"),
            _ => prefixed("Answer NOT created! Reason:\n", reason),
        }
    }
}

impl DeleteOutcome {
    /// The message for this outcome.
    pub fn message(&self) -> (r: String)
        ensures
            r@ == delete_text(*self),
    {
        match self {
            DeleteOutcome::Deleted => String::from_str("Answer deleted successfully"),
            DeleteOutcome::Forbidden => String::from_str(
                "Permission for deleting this answer not met!",
            ),
            DeleteOutcome::NotFound => String::from_str("Answer with this ID not found!"),
            DeleteOutcome::Unauthorized => String::from_str(
                "Answer NOT deleted! Invalid credentials.",
            ),
            DeleteOutcome::Unrecognized => String::from_str(
                "Answer NOT deleted! Unrecognized reason.",
            ),
        }
    }
}

/// The lines shown when the server refused an answer (status 422).
pub fn answer_error_lines(e: &AnswerError) -> (r: Vec<String>)
    ensures
        views(r@) == answer_error_text(*e),
{
    let mut lines: Vec<String> = Vec::new();
    lines.push(prefixed("Answer NOT created! Reason: ", e.reason.as_str()));
    match &e.stdout {
        Some(out) => lines.push(prefixed("Stdout:\n", out.as_str())),
        None => {},
    }
    match &e.stderr {
        Some(err) => lines.push(prefixed("Stderr:\n", err.as_str())),
        None => {},
    }
    assert(views(lines@) =~= answer_error_text(*e));
    lines
}

/// Sign-up replies: 201 and 200 give two different messages that do not
/// depend on the response text; any other status gives the response text,
/// unchanged, as the reason.
pub proof fn lemma_sign_up_messages(status: u16, reason: Seq<char>, other: Seq<char>)
    ensures
        sign_up_text(sign_up_outcome_of(201), reason) != sign_up_text(sign_up_outcome_of(200), other),
        status == 201 || status == 200 ==> sign_up_text(sign_up_outcome_of(status), reason)
            == sign_up_text(sign_up_outcome_of(status), other),
        status != 201 && status != 200 ==> sign_up_text(sign_up_outcome_of(status), reason)
            == "User NOT created! Reason:\n"@ + reason,
{
    reveal_strlit("User created successfully");
    reveal_strlit("User accepted but not created");
    assert(sign_up_text(sign_up_outcome_of(201), reason)[5] != sign_up_text(sign_up_outcome_of(200), other)[5]);
}

/// Deletion replies: 403, 404 and 401 each give their own message, and no two
/// of these statuses give the same one.
pub proof fn lemma_delete_messages_distinct(a: u16, b: u16)
    requires
        a == 401 || a == 403 || a == 404,
        b == 401 || b == 403 || b == 404,
        a != b,
    ensures
        delete_text(delete_outcome_of(a)) != delete_text(delete_outcome_of(b)),
        a == 403 ==> delete_text(delete_outcome_of(a)) == "Permission for deleting this answer not met!"@,
        a == 404 ==> delete_text(delete_outcome_of(a)) == "Answer with this ID not found!"@,
        a == 401 ==> delete_text(delete_outcome_of(a)) == "Answer NOT deleted! Invalid credentials."@,
{
    reveal_strlit("Permission for deleting this answer not met!");
    reveal_strlit("Answer with this ID not found!");
    reveal_strlit("Answer NOT deleted! Invalid credentials.");
    let ta = delete_text(delete_outcome_of(a));
    let tb = delete_text(delete_outcome_of(b));
    assert(ta[0] != tb[0] || ta.len() != tb.len());
}

} // verus!
