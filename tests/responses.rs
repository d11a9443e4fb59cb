use rapi_chat::completion::{interpret_completion, ProviderReply};
use rapi_chat::error::AppError;
use rapi_chat::flow::require_session;
use rapi_chat::recall::{recalled_turns, RecalledPoint};
use rapi_chat::turn::Role;

#[test]
fn first_choice_is_the_reply() {
    let r = interpret_completion(ProviderReply::Choices(vec!["hi there".to_string(), "b".to_string()]));
    assert_eq!(r.unwrap().reply, "hi there");
    let none = interpret_completion(ProviderReply::Choices(vec![]));
    assert_eq!(none.unwrap().reply, "No response");
}

#[test]
fn provider_errors_are_distinct() {
    let e = interpret_completion(ProviderReply::ErrorEnvelope("bad key".to_string())).unwrap_err();
    assert_eq!(e, AppError::ProviderError("bad key".to_string()));
    assert_eq!(e.message(), "OpenAI error: bad key");
    assert_eq!(e.status_code(), 502);
    let m = interpret_completion(ProviderReply::Unparseable).unwrap_err();
    assert_eq!(m, AppError::MalformedResponse);
    assert_eq!(m.message(), "Unknown response format");
    assert_ne!(e, m);
}

#[test]
fn error_statuses_and_messages() {
    let cases = vec![
        (AppError::InternalError("i".to_string()), 500, "i"),
        (AppError::NotFound("n".to_string()), 404, "n"),
        (AppError::BadRequest("b".to_string()), 400, "b"),
        (AppError::QdrantError("q".to_string()), 502, "q"),
        (AppError::UpstreamError("u".to_string()), 502, "u"),
        (AppError::StorageError("s".to_string()), 500, "s"),
    ];
    for (e, status, message) in cases {
        assert_eq!(e.status_code(), status);
        assert_eq!(e.message(), message);
    }
}

#[test]
fn missing_session_is_a_bad_request() {
    assert_eq!(require_session(Some("s1".to_string())), Ok("s1".to_string()));
    assert_eq!(
        require_session(None),
        Err(AppError::BadRequest("Missing session_id".to_string()))
    );
}

#[test]
fn role_names_round_trip() {
    for role in [Role::System, Role::User, Role::Assistant, Role::Summary] {
        assert_eq!(Role::from_name(role.name()), Some(role));
    }
    assert_eq!(Role::from_name("admin"), None);
    assert_eq!(Role::from_name("User"), None);
}

fn point(role: Option<&str>, content: Option<&str>, ts: Option<i64>) -> RecalledPoint {
    RecalledPoint {
        role: role.map(|s| s.to_string()),
        content: content.map(|s| s.to_string()),
        timestamp: ts,
    }
}

#[test]
fn recalled_points_become_turns() {
    let points = vec![
        point(Some("user"), Some("one"), Some(3)),
        point(None, Some("no role"), Some(4)),
        point(Some("assistant"), None, Some(5)),
        point(Some("robot"), Some("unknown role"), Some(6)),
        point(Some("summary"), Some("two"), None),
        point(Some("assistant"), Some("three"), Some(9)),
    ];
    let turns = recalled_turns("s", &points, 5);
    assert_eq!(turns.len(), 3);
    assert_eq!((turns[0].role, turns[0].content.as_str(), turns[0].timestamp), (Role::User, "one", 3));
    assert_eq!((turns[1].role, turns[1].content.as_str(), turns[1].timestamp), (Role::Summary, "two", 0));
    assert_eq!(turns[2].content, "three");
    assert!(turns.iter().all(|t| t.session_id == "s"));
    let capped = recalled_turns("s", &points, 2);
    assert_eq!(capped.len(), 2);
    assert_eq!(capped[1].content, "two");
}
