//! Companion client logic for a coding-problem practice site: which request
//! each command makes, and how each reply is turned into text for the user.

pub mod leaderboard;
pub mod listing;
pub mod marker;
pub mod model;
pub mod outcome;
pub mod request;
pub mod text;

pub use leaderboard::users_table;
pub use listing::answer_lines;
pub use marker::{resolve_problem_id, MarkerError, ProblemMarker};
pub use model::{Answer, AnswerError, Credentials, User};
pub use outcome::{
    answer_error_lines, delete_outcome, post_outcome, sign_up_outcome, DeleteOutcome,
    PostOutcome, SignUpOutcome,
};
pub use request::{
    answer_delete_request, answer_list_request, answer_post_request, instructions, next_step,
    sign_up_request, user_list_request, Command, Exchange, Method, Request, Step,
};
pub use text::int_text;
