use github_activity::error::ProgramErrors;
use github_activity::event::{process_event, process_event_type, process_events, EventType};
use github_activity::json::Json;
use github_activity::response::process_user_data;

fn text(s: &str) -> Json {
    Json::Text(s.to_string())
}

fn object(entries: Vec<(&str, Json)>) -> Json {
    Json::Object(entries.into_iter().map(|(k, v)| (k.to_string(), v)).collect())
}

fn event(kind: &str, actor: &str, repo: &str, payload: Json) -> Json {
    object(vec![
        ("type", text(kind)),
        ("actor", object(vec![("display_login", text(actor))])),
        ("repo", object(vec![("name", text(repo))])),
        ("payload", payload),
    ])
}

fn decoded(data: &str) -> Vec<Json> {
    process_user_data(data, "someone").unwrap()
}

#[test]
fn watch_event_is_one_sentence() {
    let events = decoded(
        r#"[{"type":"WatchEvent","actor":{"display_login":"alice"},"repo":{"name":"acme/widgets"}}]"#,
    );
    let told = process_events(&events);
    assert_eq!(told.lines, vec!["alice is watching acme/widgets".to_string()]);
    assert_eq!(told.failure, None);
}

#[test]
fn push_event_is_a_sentence_per_commit_and_a_closing_one() {
    let events = decoded(
        r#"[{"type":"PushEvent","actor":{"display_login":"bob"},"repo":{"name":"acme/widgets"},"payload":{"commits":[{"message":"fix bug"},{"message":"add test"}]}}]"#,
    );
    let told = process_events(&events);
    assert_eq!(
        told.lines,
        vec![
            "bob pushed new content to acme/widgets with the message fix bug".to_string(),
            "bob pushed new content to acme/widgets with the message add test".to_string(),
            "bob made acme/widgets public".to_string(),
        ]
    );
    assert_eq!(told.failure, None);
}

#[test]
fn push_event_without_commits_is_only_the_closing_sentence() {
    let e = event("PushEvent", "bob", "acme/widgets", object(vec![("commits", Json::Array(vec![]))]));
    assert_eq!(
        process_event_type("PushEvent", &e),
        Ok(vec!["bob made acme/widgets public".to_string()])
    );
}

#[test]
fn unknown_type_stops_the_batch() {
    let events = decoded(
        r#"[
            {"type":"WatchEvent","actor":{"display_login":"alice"},"repo":{"name":"acme/widgets"}},
            {"type":"DeployEvent","actor":{"display_login":"alice"},"repo":{"name":"acme/widgets"}},
            {"type":"WatchEvent","actor":{"display_login":"carol"},"repo":{"name":"acme/widgets"}}
        ]"#,
    );
    let told = process_events(&events);
    assert_eq!(told.lines, vec!["alice is watching acme/widgets".to_string()]);
    assert_eq!(told.failure, Some(ProgramErrors::UncheckedEventType));
}

#[test]
fn unknown_type_is_refused_whatever_the_event_holds() {
    assert_eq!(
        process_event_type("DeployEvent", &Json::Null),
        Err(ProgramErrors::UncheckedEventType)
    );
    let e = event("DeployEvent", "alice", "acme/widgets", Json::Null);
    assert_eq!(process_event(&e), Err(ProgramErrors::UncheckedEventType));
}

#[test]
fn every_known_type_narrates_a_complete_event() {
    let payload = || object(vec![
        ("ref_type", text("branch")),
        ("ref", text("main")),
        ("forkee", object(vec![("full_name", text("dave/widgets"))])),
        ("issue", object(vec![("title", text("It breaks"))])),
        ("pull_request", object(vec![("title", text("Mend it"))])),
        ("commits", Json::Array(vec![object(vec![("message", text("first"))])])),
    ]);
    let cases = [
        ("CreateEvent", vec!["dave created a new branch named main in acme/widgets"]),
        ("ForkEvent", vec!["dave forked from acme/widgets to dave/widgets"]),
        (
            "IssueCommentEvent",
            vec!["dave commented an issue in the repo dave/widgets with the title It breaks"],
        ),
        ("IssuesEvent", vec!["dave opened an issue in acme/widgets with the title It breaks"]),
        ("PublicEvent", vec!["dave made acme/widgets public"]),
        (
            "PullRequestEvent",
            vec!["dave opened a pull request in acme/widgets with the title Mend it"],
        ),
        (
            "PushEvent",
            vec![
                "dave pushed new content to acme/widgets with the message first",
                "dave made acme/widgets public",
            ],
        ),
        ("WatchEvent", vec!["dave is watching acme/widgets"]),
    ];
    for (kind, expected) in cases {
        let e = event(kind, "dave", "acme/widgets", payload());
        let expected: Vec<String> = expected.into_iter().map(|s| s.to_string()).collect();
        assert_eq!(process_event_type(kind, &e), Ok(expected.clone()));
        assert_eq!(process_event(&e), Ok(expected));
    }
}

#[test]
fn create_event_of_a_repository() {
    let e = event("CreateEvent", "erin", "erin/new", object(vec![("ref_type", text("repository"))]));
    assert_eq!(
        process_event_type("CreateEvent", &e),
        Ok(vec!["erin created a new repository named erin/new".to_string()])
    );
}

#[test]
fn create_event_of_a_branch_needs_its_name() {
    let e = event("CreateEvent", "erin", "erin/new", object(vec![("ref_type", text("branch"))]));
    assert_eq!(process_event_type("CreateEvent", &e), Err(ProgramErrors::TypeMismatch));
    let e = event(
        "CreateEvent",
        "erin",
        "erin/new",
        object(vec![("ref_type", text("branch")), ("ref", Json::Null)]),
    );
    assert_eq!(process_event_type("CreateEvent", &e), Err(ProgramErrors::TypeMismatch));
}

#[test]
fn create_event_of_another_thing_falls_back() {
    let e = event("CreateEvent", "erin", "erin/new", object(vec![("ref_type", text("tag"))]));
    assert_eq!(
        process_event_type("CreateEvent", &e),
        Ok(vec!["JUSTIN THIS IS A NEW CREATE EVENT YOU NEED TO ADD: tag".to_string()])
    );
}

#[test]
fn issue_comment_reads_the_forkee_and_not_the_repository() {
    let payload = object(vec![("issue", object(vec![("title", text("It breaks"))]))]);
    let e = event("IssueCommentEvent", "dave", "acme/widgets", payload);
    assert_eq!(process_event_type("IssueCommentEvent", &e), Err(ProgramErrors::TypeMismatch));
    let payload = object(vec![
        ("issue", object(vec![("title", text("It breaks"))])),
        ("forkee", object(vec![("full_name", text("x/y"))])),
    ]);
    let e = object(vec![
        ("actor", object(vec![("display_login", text("dave"))])),
        ("payload", payload),
    ]);
    assert_eq!(
        process_event_type("IssueCommentEvent", &e),
        Ok(vec!["dave commented an issue in the repo x/y with the title It breaks".to_string()])
    );
}

#[test]
fn missing_or_misshapen_fields_are_refused() {
    let no_actor = object(vec![("repo", object(vec![("name", text("acme/widgets"))]))]);
    assert_eq!(process_event_type("WatchEvent", &no_actor), Err(ProgramErrors::TypeMismatch));
    let no_repo = object(vec![("actor", object(vec![("display_login", text("dave"))]))]);
    assert_eq!(process_event_type("PublicEvent", &no_repo), Err(ProgramErrors::TypeMismatch));
    let numbered = object(vec![
        ("actor", object(vec![("display_login", Json::Number("7".to_string()))])),
        ("repo", object(vec![("name", text("acme/widgets"))])),
    ]);
    assert_eq!(process_event_type("WatchEvent", &numbered), Err(ProgramErrors::TypeMismatch));
    assert_eq!(process_event_type("ForkEvent", &Json::Array(vec![])), Err(ProgramErrors::TypeMismatch));
}

#[test]
fn push_event_with_a_commit_without_message_gives_no_sentence() {
    let commits = Json::Array(vec![
        object(vec![("message", text("first"))]),
        object(vec![("sha", text("abc"))]),
    ]);
    let e = event("PushEvent", "bob", "acme/widgets", object(vec![("commits", commits)]));
    assert_eq!(process_event_type("PushEvent", &e), Err(ProgramErrors::TypeMismatch));
    let e = event("PushEvent", "bob", "acme/widgets", object(vec![("commits", text("none"))]));
    assert_eq!(process_event_type("PushEvent", &e), Err(ProgramErrors::TypeMismatch));
}

#[test]
fn event_without_a_text_type_is_refused() {
    let e = object(vec![("type", Json::Bool(true))]);
    assert_eq!(process_event(&e), Err(ProgramErrors::TypeMismatch));
    assert_eq!(process_event(&Json::Null), Err(ProgramErrors::TypeMismatch));
    let told = process_events(&vec![Json::Null, event("WatchEvent", "a", "b", Json::Null)]);
    assert_eq!(told.lines, Vec::<String>::new());
    assert_eq!(told.failure, Some(ProgramErrors::TypeMismatch));
}

#[test]
fn the_tag_given_decides_and_not_the_one_in_the_event() {
    let e = event("WatchEvent", "alice", "acme/widgets", Json::Null);
    assert_eq!(
        process_event_type("PublicEvent", &e),
        Ok(vec!["alice made acme/widgets public".to_string()])
    );
}

#[test]
fn empty_batch_narrates_nothing() {
    let told = process_events(&vec![]);
    assert_eq!(told.lines, Vec::<String>::new());
    assert_eq!(told.failure, None);
}

#[test]
fn batch_keeps_the_order_of_its_events() {
    let events = vec![
        event("WatchEvent", "a", "r1", Json::Null),
        event(
            "PushEvent",
            "b",
            "r2",
            object(vec![("commits", Json::Array(vec![object(vec![("message", text("m"))])]))]),
        ),
        event("PublicEvent", "c", "r3", Json::Null),
    ];
    let told = process_events(&events);
    assert_eq!(
        told.lines,
        vec![
            "a is watching r1".to_string(),
            "b pushed new content to r2 with the message m".to_string(),
            "b made r2 public".to_string(),
            "c made r3 public".to_string(),
        ]
    );
    assert_eq!(told.failure, None);
}

#[test]
fn tags_are_read_exactly() {
    assert_eq!(EventType::from_name("CreateEvent"), Some(EventType::CreateEvent));
    assert_eq!(EventType::from_name("ForkEvent"), Some(EventType::ForkEvent));
    assert_eq!(EventType::from_name("IssueCommentEvent"), Some(EventType::IssueCommentEvent));
    assert_eq!(EventType::from_name("IssuesEvent"), Some(EventType::IssuesEvent));
    assert_eq!(EventType::from_name("PublicEvent"), Some(EventType::PublicEvent));
    assert_eq!(EventType::from_name("PullRequestEvent"), Some(EventType::PullRequestEvent));
    assert_eq!(EventType::from_name("PushEvent"), Some(EventType::PushEvent));
    assert_eq!(EventType::from_name("WatchEvent"), Some(EventType::WatchEvent));
    assert_eq!(EventType::from_name("watchevent"), None);
    assert_eq!(EventType::from_name("WatchEvent "), None);
    assert_eq!(EventType::from_name(""), None);
}
