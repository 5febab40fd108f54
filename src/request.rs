use vstd::prelude::*;

use crate::model::Credentials;
use crate::text::{decimal, int_text, views};

verus! {

/// A command given on the command line.
#[derive(Clone, Debug, PartialEq, Eq)]
pub enum Command {
    /// List the users as a leaderboard.
    UserGet,
    /// Sign up a user.
    UserPost { name: String, password: String },
    /// Tell how to obtain the problems.
    ProblemInstructions,
    /// List the answers to the problem in the current directory.
    AnswerGet,
    /// Post the text of a file as an answer to the problem in the current directory.
    AnswerPost { filename: String, username: String, password: String },
    /// Delete an answer by its id.
    AnswerDelete { id: i32, username: String, password: String },
}

#[derive(Clone, Copy, Debug, PartialEq, Eq, Structural)]
pub enum Method {
    Get,
    Post,
    Delete,
}

/// Which exchange a request starts, and so how its response is read.
#[derive(Clone, Copy, Debug, PartialEq, Eq, Structural)]
pub enum Exchange {
    UserList,
    SignUp,
    AnswerList,
    AnswerPost,
    AnswerDelete,
}

/// One HTTP request to the server.
#[derive(Clone, Debug, PartialEq, Eq)]
pub struct Request {
    pub exchange: Exchange,
    pub method: Method,
    pub url: String,
    /// Sent as basic authentication.
    pub auth: Option<Credentials>,
    /// The fields of a JSON object of strings, sent as the body.
    pub body: Option<Vec<(String, String)>>,
}

pub struct RequestView {
    pub exchange: Exchange,
    pub method: Method,
    pub url: Seq<char>,
    pub auth: Option<(Seq<char>, Seq<char>)>,
    pub body: Option<Seq<(Seq<char>, Seq<char>)>>,
}

pub open spec fn fields_view(fields: Seq<(String, String)>) -> Seq<(Seq<char>, Seq<char>)> {
    fields.map_values(|f: (String, String)| (f.0@, f.1@))
}

impl View for Request {
    type V = RequestView;

    open spec fn view(&self) -> RequestView {
        RequestView {
            exchange: self.exchange,
            method: self.method,
            url: self.url@,
            auth: match self.auth {
                Some(c) => Some((c.name@, c.password@)),
                None => None,
            },
            body: match self.body {
                Some(b) => Some(fields_view(b@)),
                None => None,
            },
        }
    }
}

/// What to do next for a command.
#[derive(Clone, Debug, PartialEq, Eq)]
pub enum Step {
    /// Resolve the current problem's id, then ask again with the result.
    ReadMarker,
    /// Read the file at this path, then ask again with the result.
    ReadAnswerFile(String),
    /// Send this request, then read its response by its exchange.
    Send(Request),
    /// Print these lines; nothing is sent.
    Print(Vec<String>),
    /// Stop with this error; nothing is sent.
    Fail(String),
}

pub enum StepView {
    ReadMarker,
    ReadAnswerFile(Seq<char>),
    Send(RequestView),
    Print(Seq<Seq<char>>),
    Fail(Seq<char>),
}

impl View for Step {
    type V = StepView;

    open spec fn view(&self) -> StepView {
        match self {
            Step::ReadMarker => StepView::ReadMarker,
            Step::ReadAnswerFile(p) => StepView::ReadAnswerFile(p@),
            Step::Send(r) => StepView::Send(r@),
            Step::Print(lines) => StepView::Print(views(lines@)),
            Step::Fail(e) => StepView::Fail(e@),
        }
    }
}

pub open spec fn user_list_request_of(server: Seq<char>) -> RequestView {
    RequestView {
        exchange: Exchange::UserList,
        method: Method::Get,
        url: server + "user"@,
        auth: None,
        body: None,
    }
}

pub open spec fn sign_up_request_of(server: Seq<char>, name: Seq<char>, password: Seq<char>) -> RequestView {
    RequestView {
        exchange: Exchange::SignUp,
        method: Method::Post,
        url: server + "user"@,
        auth: None,
        body: Some(seq![("username"@, name), ("password"@, password)]),
    }
}

pub open spec fn answer_url(server: Seq<char>, id: i32) -> Seq<char> {
    server + "answer/"@ + decimal(id as int)
}

pub open spec fn answer_list_request_of(server: Seq<char>, problem_id: i32) -> RequestView {
    RequestView {
        exchange: Exchange::AnswerList,
        method: Method::Get,
        url: answer_url(server, problem_id),
        auth: None,
        body: None,
    }
}

pub open spec fn answer_post_request_of(
    server: Seq<char>,
    problem_id: i32,
    content: Seq<char>,
    name: Seq<char>,
    password: Seq<char>,
) -> RequestView {
    RequestView {
        exchange: Exchange::AnswerPost,
        method: Method::Post,
        url: answer_url(server, problem_id),
        auth: Some((name, password)),
        body: Some(seq![("language"@, "js"@), ("content"@, content)]),
    }
}

pub open spec fn answer_delete_request_of(
    server: Seq<char>,
    id: i32,
    name: Seq<char>,
    password: Seq<char>,
) -> RequestView {
    RequestView {
        exchange: Exchange::AnswerDelete,
        method: Method::Delete,
        url: answer_url(server, id),
        auth: Some((name, password)),
        body: None,
    }
}

/// The guidance printed for the problem instructions.
pub open spec fn instruction_lines() -> Seq<Seq<char>> {
    seq![
        "Clone the repository at https://github.com/PixelSam123/codeprobs using your favorite Git client."@,
        "Copy a folder of the problem you want to do to your desired location."@,
        "Submission instructions are located in the README.md of a problem."@,
    ]
}

pub open spec fn file_error_text(why: Seq<char>) -> Seq<char> {
    "Cannot read the specified file! Reason:\n"@ + why
}

/// The next step of a command, given what is known so far: the outcome of
/// resolving the current problem's id and of reading the answer file, each
/// `None` until it was asked for.
pub open spec fn step_of(
    command: Command,
    server: Seq<char>,
    problem_id: Option<Result<i32, String>>,
    answer_file: Option<Result<String, String>>,
) -> StepView {
    match command {
        Command::UserGet => StepView::Send(user_list_request_of(server)),
        Command::UserPost { name, password } => StepView::Send(
            sign_up_request_of(server, name@, password@),
        ),
        Command::ProblemInstructions => StepView::Print(instruction_lines()),
        Command::AnswerGet => match problem_id {
            None => StepView::ReadMarker,
            Some(Err(e)) => StepView::Fail(e@),
            Some(Ok(id)) => StepView::Send(answer_list_request_of(server, id)),
        },
        Command::AnswerPost { filename, username, password } => match problem_id {
            None => StepView::ReadMarker,
            Some(Err(e)) => StepView::Fail(e@),
            Some(Ok(id)) => match answer_file {
                None => StepView::ReadAnswerFile(filename@),
                Some(Err(e)) => StepView::Fail(file_error_text(e@)),
                Some(Ok(content)) => StepView::Send(
                    answer_post_request_of(server, id, content@, username@, password@),
                ),
            },
        },
        Command::AnswerDelete { id, username, password } => StepView::Send(
            answer_delete_request_of(server, id, username@, password@),
        ),
    }
}

fn joined(a: &str, b: &str) -> (r: String)
    ensures
        r@ == a@ + b@,
{
    let mut s = String::from_str(a);
    s.append(b);
    s
}

fn answer_url_text(server: &str, id: i32) -> (r: String)
    ensures
        r@ == answer_url(server@, id),
{
    let mut url = joined(server, "answer/");
    let n = int_text(id);
    url.append(n.as_str());
    url
}

/// The request that lists the users.
pub fn user_list_request(server: &str) -> (r: Request)
    ensures
        r@ == user_list_request_of(server@),
{
    Request {
        exchange: Exchange::UserList,
        method: Method::Get,
        url: joined(server, "user"),
        auth: None,
        body: None,
    }
}

/// The request that signs up a user, with the name and password in the body.
pub fn sign_up_request(server: &str, name: &str, password: &str) -> (r: Request)
    ensures
        r@ == sign_up_request_of(server@, name@, password@),
{
    let mut body: Vec<(String, String)> = Vec::new();
    body.push((String::from_str("username"), String::from_str(name)));
    body.push((String::from_str("password"), String::from_str(password)));
    let r = Request {
        exchange: Exchange::SignUp,
        method: Method::Post,
        url: joined(server, "user"),
        auth: None,
        body: Some(body),
    };
    assert(fields_view(body@) =~= seq![("username"@, name@), ("password"@, password@)]);
    r
}

/// The request that lists the answers to a problem.
pub fn answer_list_request(server: &str, problem_id: i32) -> (r: Request)
    ensures
        r@ == answer_list_request_of(server@, problem_id),
{
    Request {
        exchange: Exchange::AnswerList,
        method: Method::Get,
        url: answer_url_text(server, problem_id),
        auth: None,
        body: None,
    }
}

/// The request that posts an answer, written in JavaScript, to a problem.
pub fn answer_post_request(
    server: &str,
    problem_id: i32,
    content: &str,
    name: &str,
    password: &str,
) -> (r: Request)
    ensures
        r@ == answer_post_request_of(server@, problem_id, content@, name@, password@),
{
    let mut body: Vec<(String, String)> = Vec::new();
    body.push((String::from_str("language"), String::from_str("js")));
    body.push((String::from_str("content"), String::from_str(content)));
    let r = Request {
        exchange: Exchange::AnswerPost,
        method: Method::Post,
        url: answer_url_text(server, problem_id),
        auth: Some(Credentials { name: String::from_str(name), password: String::from_str(password) }),
        body: Some(body),
    };
    assert(fields_view(body@) =~= seq![("language"@, "js"@), ("content"@, content@)]);
    r
}

/// The request that deletes an answer by its id.
pub fn answer_delete_request(server: &str, id: i32, name: &str, password: &str) -> (r: Request)
    ensures
        r@ == answer_delete_request_of(server@, id, name@, password@),
{
    Request {
        exchange: Exchange::AnswerDelete,
        method: Method::Delete,
        url: answer_url_text(server, id),
        auth: Some(Credentials { name: String::from_str(name), password: String::from_str(password) }),
        body: None,
    }
}

/// The guidance for obtaining the problems, one line each.
pub fn instructions() -> (r: Vec<String>)
    ensures
        views(r@) == instruction_lines(),
{
    let mut lines: Vec<String> = Vec::new();
    lines.push(String::from_str(
        "Clone the repository at https://github.com/PixelSam123/codeprobs using your favorite Git client.",
    ));
    lines.push(String::from_str(
        "Copy a folder of the problem you want to do to your desired location.",
    ));
    lines.push(String::from_str(
        "Submission instructions are located in the README.md of a problem.",
    ));
    assert(views(lines@) =~= instruction_lines());
    lines
}

/// Decides the next step of a command from what is known so far (see `step_of`).
pub fn next_step(
    command: &Command,
    server: &str,
    problem_id: &Option<Result<i32, String>>,
    answer_file: &Option<Result<String, String>>,
) -> (r: Step)
    ensures
        r@ == step_of(*command, server@, *problem_id, *answer_file),
{
    match command {
        Command::UserGet => Step::Send(user_list_request(server)),
        Command::UserPost { name, password } => Step::Send(
            sign_up_request(server, name.as_str(), password.as_str()),
        ),
        Command::ProblemInstructions => Step::Print(instructions()),
        Command::AnswerGet => match problem_id {
            None => Step::ReadMarker,
            Some(Err(e)) => Step::Fail(e.clone()),
            Some(Ok(id)) => Step::Send(answer_list_request(server, *id)),
        },
        Command::AnswerPost { filename, username, password } => match problem_id {
            None => Step::ReadMarker,
            Some(Err(e)) => Step::Fail(e.clone()),
            Some(Ok(id)) => match answer_file {
                None => Step::ReadAnswerFile(filename.clone()),
                Some(Err(e)) => Step::Fail(joined("Cannot read the specified file! Reason:\n", e.as_str())),
                Some(Ok(content)) => Step::Send(
                    answer_post_request(
                        server,
                        *id,
                        content.as_str(),
                        username.as_str(),
                        password.as_str(),
                    ),
                ),
            },
        },
        Command::AnswerDelete { id, username, password } => Step::Send(
            answer_delete_request(server, *id, username.as_str(), password.as_str()),
        ),
    }
}

/// The problem instructions are the same fixed lines whatever else is known,
/// however often they are asked for, and they never lead to a request.
pub proof fn lemma_instructions_local(
    server: Seq<char>,
    problem_id: Option<Result<i32, String>>,
    answer_file: Option<Result<String, String>>,
    other_server: Seq<char>,
    other_problem_id: Option<Result<i32, String>>,
    other_answer_file: Option<Result<String, String>>,
)
    ensures
        step_of(Command::ProblemInstructions, server, problem_id, answer_file)
            == StepView::Print(instruction_lines()),
        step_of(Command::ProblemInstructions, server, problem_id, answer_file)
            == step_of(Command::ProblemInstructions, other_server, other_problem_id, other_answer_file),
        !(step_of(Command::ProblemInstructions, server, problem_id, answer_file) is Send),
{
}

/// A command on the current problem sends nothing before the problem's id is
/// resolved: it first asks for the id, stops with the resolution's own error
/// when there is none, and only with an id sends a request to that problem.
pub proof fn lemma_problem_id_first(
    command: Command,
    server: Seq<char>,
    answer_file: Option<Result<String, String>>,
    e: String,
    id: i32,
)
    requires
        command is AnswerGet || command is AnswerPost,
    ensures
        step_of(command, server, None, answer_file) == StepView::ReadMarker,
        step_of(command, server, Some(Err(e)), answer_file) == StepView::Fail(e@),
        step_of(command, server, Some(Ok(id)), answer_file) is Send ==> step_of(
            command,
            server,
            Some(Ok(id)),
            answer_file,
        )->Send_0.url == answer_url(server, id),
{
}

} // verus!
