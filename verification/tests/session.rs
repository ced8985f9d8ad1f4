use github_activity::error::ProgramErrors;
use github_activity::session::{advance, Session, Signal, Turn, BANNER, FAREWELL, PROMPT, SPACER};

fn fetching(username: &str) -> Session {
    Session::Fetching {
        username: username.to_string(),
        url: format!("https://api.github.com/users/{}/events", username),
    }
}

fn refusal(e: ProgramErrors) -> Turn {
    Turn { session: Session::Prompting, lines: vec![], error: Some(e) }
}

#[test]
fn empty_line_is_refused_without_a_request() {
    for line in ["", "\n", "   \n"] {
        let turn = advance(Session::Prompting, Signal::Line(line.to_string()));
        assert_eq!(turn, refusal(ProgramErrors::NoArguments));
    }
}

#[test]
fn quit_closes_the_session_without_a_request() {
    for line in ["q", "QUIT", "  Quit \n", "Q\n"] {
        let turn = advance(Session::Prompting, Signal::Line(line.to_string()));
        assert_eq!(
            turn,
            Turn {
                session: Session::Closed,
                lines: vec!["\nProgram has been closed successfully.".to_string()],
                error: None,
            }
        );
    }
}

#[test]
fn user_line_asks_for_that_users_events() {
    let turn = advance(Session::Prompting, Signal::Line("octocat extra\n".to_string()));
    assert_eq!(
        turn,
        Turn {
            session: Session::Fetching {
                username: "octocat".to_string(),
                url: "https://api.github.com/users/octocat/events".to_string(),
            },
            lines: vec!["\n".to_string()],
            error: None,
        }
    );
}

#[test]
fn console_failure_is_reported() {
    let failure = ProgramErrors::StdError("broken pipe".to_string());
    let turn = advance(Session::Prompting, Signal::Failed(failure.clone()));
    assert_eq!(turn, refusal(failure));
}

#[test]
fn transport_failure_is_reported() {
    let failure = ProgramErrors::FetchError("dns".to_string());
    let turn = advance(fetching("octocat"), Signal::Failed(failure.clone()));
    assert_eq!(turn, refusal(failure));
}

#[test]
fn response_is_narrated_and_closed_by_a_spacer() {
    let body = r#"[{"type":"WatchEvent","actor":{"display_login":"alice"},"repo":{"name":"acme/widgets"}}]"#;
    let turn = advance(fetching("alice"), Signal::Body(body.to_string()));
    assert_eq!(
        turn,
        Turn {
            session: Session::Prompting,
            lines: vec!["alice is watching acme/widgets".to_string(), "\n".to_string()],
            error: None,
        }
    );
}

#[test]
fn response_that_stops_early_keeps_what_was_narrated() {
    let body = r#"[{"type":"WatchEvent","actor":{"display_login":"alice"},"repo":{"name":"acme/widgets"}},{"type":"DeployEvent"}]"#;
    let turn = advance(fetching("alice"), Signal::Body(body.to_string()));
    assert_eq!(
        turn,
        Turn {
            session: Session::Prompting,
            lines: vec!["alice is watching acme/widgets".to_string()],
            error: Some(ProgramErrors::UncheckedEventType),
        }
    );
}

#[test]
fn refused_responses_show_their_condition() {
    let turn = advance(fetching("ghost"), Signal::Body(r#"{"message": "Not Found"}"#.to_string()));
    assert_eq!(turn, refusal(ProgramErrors::NoUserFound));
    let turn = advance(fetching("quiet"), Signal::Body("[]".to_string()));
    assert_eq!(turn, refusal(ProgramErrors::NoEvents("quiet".to_string())));
    let turn = advance(fetching("u"), Signal::Body(r#"{"message": "slow down"}"#.to_string()));
    assert_eq!(turn, refusal(ProgramErrors::TypeMismatch));
    let turn = advance(fetching("u"), Signal::Body("<html>".to_string()));
    assert_eq!(turn.session, Session::Prompting);
    assert_eq!(turn.lines, Vec::<String>::new());
    assert!(matches!(turn.error, Some(ProgramErrors::JsonParsingError(_))));
}

#[test]
fn signals_out_of_turn_change_nothing() {
    let pairs = [
        (Session::Prompting, Signal::Body("[]".to_string())),
        (fetching("u"), Signal::Line("q".to_string())),
        (Session::Closed, Signal::Line("octocat".to_string())),
        (Session::Closed, Signal::Body("[]".to_string())),
        (Session::Closed, Signal::Failed(ProgramErrors::NoUserFound)),
    ];
    for (session, signal) in pairs {
        let turn = advance(session.clone(), signal);
        assert_eq!(turn, Turn { session, lines: vec![], error: None });
    }
}

#[test]
fn fixed_texts() {
    assert_eq!(
        BANNER,
        "\nFetch events of a user by providing their username. Enter q to close program."
    );
    assert_eq!(PROMPT, "\nGithub-Activity > ");
    assert_eq!(FAREWELL, "\nProgram has been closed successfully.");
    assert_eq!(SPACER, "\n");
}

#[test]
fn conditions_have_their_sentences() {
    assert_eq!(ProgramErrors::FetchError("timed out".to_string()).message(), "Fetch Error: timed out");
    assert_eq!(
        ProgramErrors::JsonParsingError("expected value".to_string()).message(),
        "Serde Json Error: expected value"
    );
    assert_eq!(ProgramErrors::NoArguments.message(), "No arguments provided.");
    assert_eq!(
        ProgramErrors::NoEvents("octocat".to_string()).message(),
        "No recent events were found for octocat."
    );
    assert_eq!(ProgramErrors::NoUserFound.message(), "No User Found.");
    assert_eq!(ProgramErrors::StdError("closed".to_string()).message(), "STD Error: closed");
    assert_eq!(ProgramErrors::UncheckedEventType.message(), "Event type was not accounted for");
    assert_eq!(
        ProgramErrors::TypeMismatch.message(),
        "Event data did not have the expected shape"
    );
}
