use vstd::prelude::*;

verus! {

/// A user as the server lists it on the leaderboard.
#[derive(Clone, Debug, PartialEq, Eq)]
pub struct User {
    pub username: String,
    pub points: i32,
}

/// An answer that the server holds for a problem.
#[derive(Clone, Debug, PartialEq, Eq)]
pub struct Answer {
    pub id: i32,
    pub user: User,
    pub language: String,
    pub content: String,
    pub upvote_count: i32,
    pub downvote_count: i32,
}

/// Why the server refused an answer that it could not accept (status 422).
#[derive(Clone, Debug, PartialEq, Eq)]
pub struct AnswerError {
    pub reason: String,
    pub stdout: Option<String>,
    pub stderr: Option<String>,
}

/// A user's name and password, sent in a body or as basic authentication.
#[derive(Clone, Debug, PartialEq, Eq)]
pub struct Credentials {
    pub name: String,
    pub password: String,
}

} // verus!
