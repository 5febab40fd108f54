use codeprobs::{
    answer_delete_request, answer_list_request, answer_post_request, sign_up_request,
    user_list_request, instructions, next_step, resolve_problem_id, users_table, Command, Credentials, Exchange,
    MarkerError, Method, ProblemMarker, Request, Step, User,
};

const SERVER: &str = "http://localhost:5200/api/v1/";

fn creds(name: &str, password: &str) -> Option<Credentials> {
    Some(Credentials { name: name.to_string(), password: password.to_string() })
}

fn fields(pairs: &[(&str, &str)]) -> Option<Vec<(String, String)>> {
    Some(pairs.iter().map(|(k, v)| (k.to_string(), v.to_string())).collect())
}

#[test]
fn marker_id_resolves_exactly() {
    assert_eq!(resolve_problem_id(Ok(ProblemMarker { id: 42 })), Ok(42));
    assert_eq!(resolve_problem_id(Ok(ProblemMarker { id: -3 })), Ok(-3));
}

#[test]
fn missing_marker_is_fatal_and_sends_nothing() {
    let r = resolve_problem_id(Err(MarkerError::Unreadable("No such file or directory".to_string())));
    let msg = r.clone().unwrap_err();
    assert_eq!(
        msg,
        "Cannot read .codeprob_info.json from this directory! Are you in the right folder? Reason:\nNo such file or directory"
    );
    for command in [
        Command::AnswerGet,
        Command::AnswerPost {
            filename: "a.js".to_string(),
            username: "u".to_string(),
            password: "p".to_string(),
        },
    ] {
        assert_eq!(next_step(&command, SERVER, &None, &None), Step::ReadMarker);
        assert_eq!(next_step(&command, SERVER, &Some(r.clone()), &None), Step::Fail(msg.clone()));
    }
}

#[test]
fn malformed_marker_message() {
    let r = resolve_problem_id(Err(MarkerError::Malformed("missing field `id`".to_string())));
    assert_eq!(
        r,
        Err("Invalid structure of the contents of .codeprob_info.json! Reason:\nmissing field `id`"
            .to_string())
    );
}

#[test]
fn answer_list_goes_to_problem() {
    let step = next_step(&Command::AnswerGet, SERVER, &Some(Ok(42)), &None);
    assert_eq!(
        step,
        Step::Send(Request {
            exchange: Exchange::AnswerList,
            method: Method::Get,
            url: "http://localhost:5200/api/v1/answer/42".to_string(),
            auth: None,
            body: None,
        })
    );
}

#[test]
fn answer_post_reads_file_then_sends() {
    let command = Command::AnswerPost {
        filename: "sol.js".to_string(),
        username: "sam".to_string(),
        password: "pw".to_string(),
    };
    let id = Some(Ok(7));
    assert_eq!(next_step(&command, SERVER, &id, &None), Step::ReadAnswerFile("sol.js".to_string()));
    assert_eq!(
        next_step(&command, SERVER, &id, &Some(Err("permission denied".to_string()))),
        Step::Fail("Cannot read the specified file! Reason:\npermission denied".to_string())
    );
    assert_eq!(
        next_step(&command, SERVER, &id, &Some(Ok("console.log(1)".to_string()))),
        Step::Send(Request {
            exchange: Exchange::AnswerPost,
            method: Method::Post,
            url: "http://localhost:5200/api/v1/answer/7".to_string(),
            auth: creds("sam", "pw"),
            body: fields(&[("language", "js"), ("content", "console.log(1)")]),
        })
    );
}

#[test]
fn user_requests() {
    assert_eq!(
        next_step(&Command::UserGet, SERVER, &None, &None),
        Step::Send(Request {
            exchange: Exchange::UserList,
            method: Method::Get,
            url: "http://localhost:5200/api/v1/user".to_string(),
            auth: None,
            body: None,
        })
    );
    let command = Command::UserPost { name: "ann".to_string(), password: "secret".to_string() };
    assert_eq!(
        next_step(&command, SERVER, &None, &None),
        Step::Send(Request {
            exchange: Exchange::SignUp,
            method: Method::Post,
            url: "http://localhost:5200/api/v1/user".to_string(),
            auth: None,
            body: fields(&[("username", "ann"), ("password", "secret")]),
        })
    );
}

#[test]
fn delete_request_needs_no_marker() {
    let command = Command::AnswerDelete {
        id: -12,
        username: "sam".to_string(),
        password: "pw".to_string(),
    };
    assert_eq!(
        next_step(&command, SERVER, &None, &None),
        Step::Send(Request {
            exchange: Exchange::AnswerDelete,
            method: Method::Delete,
            url: "http://localhost:5200/api/v1/answer/-12".to_string(),
            auth: creds("sam", "pw"),
            body: None,
        })
    );
}

#[test]
fn instructions_are_fixed_and_local() {
    let first = instructions();
    assert_eq!(first.len(), 3);
    assert_eq!(
        first[0],
        "Clone the repository at https://github.com/PixelSam123/codeprobs using your favorite Git client."
    );
    for _ in 0..5 {
        assert_eq!(instructions(), first);
        assert_eq!(
            next_step(&Command::ProblemInstructions, SERVER, &Some(Ok(1)), &None),
            Step::Print(first.clone())
        );
    }
    assert_eq!(
        next_step(&Command::ProblemInstructions, "", &None, &Some(Ok("x".to_string()))),
        Step::Print(first)
    );
}

#[test]
fn leaderboard_has_header_and_one_row_per_user() {
    let users = vec![
        User { username: "ann".to_string(), points: 30 },
        User { username: "bob".to_string(), points: -2 },
        User { username: "cy".to_string(), points: 0 },
    ];
    let table = users_table(&users);
    let header: Vec<String> =
        table.header().expect("header").cell_iter().map(|c| c.content()).collect();
    assert_eq!(header, vec!["Username".to_string(), "Points".to_string()]);
    let rows: Vec<Vec<String>> =
        table.row_iter().map(|r| r.cell_iter().map(|c| c.content()).collect()).collect();
    assert_eq!(
        rows,
        vec![
            vec!["ann".to_string(), "30".to_string()],
            vec!["bob".to_string(), "-2".to_string()],
            vec!["cy".to_string(), "0".to_string()],
        ]
    );
    let text = table.to_string();
    assert!(text.contains("Username") && text.contains("bob") && text.contains("-2"));
}

#[test]
fn empty_leaderboard_has_only_header() {
    let table = users_table(&Vec::new());
    assert_eq!(table.row_iter().count(), 0);
    assert!(table.header().is_some());
}

#[test]
fn request_builders_match_steps() {
    assert_eq!(user_list_request("s/").url, "s/user");
    assert_eq!(sign_up_request("s/", "a", "b").body, fields(&[("username", "a"), ("password", "b")]));
    assert_eq!(answer_list_request("s/", 0).url, "s/answer/0");
    let post = answer_post_request("s/", 5, "x", "n", "p");
    assert_eq!(post.url, "s/answer/5");
    assert_eq!(post.auth, creds("n", "p"));
    let delete = answer_delete_request("s/", 9, "n", "p");
    assert_eq!(delete.method, Method::Delete);
    assert_eq!(delete.url, "s/answer/9");
}
