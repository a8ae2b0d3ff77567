use lcu_cli::cli::{RequestArgs, RequestMethod, SubscribeArgs};
use lcu_cli::error::Error;
use lcu_cli::locator::{classify, Protocol};
use lcu_cli::text::{normalize_path, split_str, str_contains, str_eq};
use lcu_cli::ws::EventKind;

fn request(path: &str, method: RequestMethod, json: Option<&str>) -> RequestArgs {
    RequestArgs { path: path.to_string(), request: method, json: json.map(|s| s.to_string()) }
}

#[test]
fn classify_plain_path_is_rest() {
    let r = classify("lol-summoner/v1/current-summoner").unwrap();
    match r {
        Protocol::RestCall { path } => assert_eq!(path, "lol-summoner/v1/current-summoner"),
        _ => panic!("expected a REST call"),
    }
}

#[test]
fn classify_double_slash_path_is_rest() {
    let r = classify("//lol-summoner/v1/current-summoner").unwrap();
    match r {
        Protocol::RestCall { path } => assert_eq!(path, "lol-summoner/v1/current-summoner"),
        _ => panic!("expected a REST call"),
    }
}

#[test]
fn classify_takes_last_segment() {
    let r = classify("https://host//lol-chat/v1/me").unwrap();
    match r {
        Protocol::RestCall { path } => assert_eq!(path, "lol-chat/v1/me"),
        _ => panic!("expected a REST call"),
    }
}

#[test]
fn classify_wss_is_subscription() {
    let r = classify("wss://OnJsonApiEvent").unwrap();
    match r {
        Protocol::EventSubscription { event_name } => assert_eq!(event_name, "OnJsonApiEvent"),
        _ => panic!("expected an event subscription"),
    }
}

#[test]
fn classify_empty_locator_is_malformed() {
    let r = classify("");
    assert!(matches!(r, Err(Error::MalformedLocator { .. })));
}

#[test]
fn path_parts_splits_on_double_slash() {
    let args = request("a//b//c", RequestMethod::Get, None);
    let parts = args.path_parts();
    assert_eq!(parts, vec!["a".to_string(), "b".to_string(), "c".to_string()]);
}

#[test]
fn split_str_keeps_empty_segments() {
    assert_eq!(split_str("////", "//"), vec!["", "", ""]);
    assert_eq!(split_str("", "//"), vec![""]);
    assert_eq!(split_str("a///b", "//"), vec!["a", "/b"]);
}

#[test]
fn build_normalizes_bare_path() {
    let args = request("foo/bar", RequestMethod::Get, None);
    let d = args.build().unwrap();
    assert_eq!(d.path, "/foo/bar");
}

#[test]
fn build_keeps_normalized_path_unchanged() {
    let args = request("/foo/bar", RequestMethod::Get, None);
    let d = args.build().unwrap();
    assert_eq!(d.path, "/foo/bar");
    let again = request("/foo/bar", RequestMethod::Get, None).build().unwrap();
    assert_eq!(again.path, d.path);
}

#[test]
fn normalize_path_is_idempotent() {
    let once = normalize_path("foo/bar");
    let twice = normalize_path(&once);
    assert_eq!(once, "/foo/bar");
    assert_eq!(twice, once);
}

#[test]
fn build_empty_path_fails() {
    let args = request("", RequestMethod::Get, None);
    let e = args.build().unwrap_err();
    assert!(matches!(e, Error::EmptyPath));
    assert_eq!(e.message(), "when processing rest path: empty path");
}

#[test]
fn build_rejects_bad_json_body() {
    let args = request("/x", RequestMethod::Post, Some("{not json"));
    let e = args.build().unwrap_err();
    match e {
        Error::InvalidJson { ref text } => assert_eq!(text, "{not json"),
        _ => panic!("expected InvalidJson"),
    }
    assert_eq!(e.message(), "when serializing body: Bad JSON input");
}

#[test]
fn build_accepts_json_body_verbatim() {
    let args = request("/x", RequestMethod::Post, Some("{\"a\":1}"));
    let d = args.build().unwrap();
    let expected: serde_json::Value = serde_json::from_str("{\"a\":1}").unwrap();
    assert_eq!(d.body, Some(expected));
    assert_eq!(serde_json::to_string(d.body.as_ref().unwrap()).unwrap(), "{\"a\":1}");
}

#[test]
fn build_keeps_body_on_bodyless_verb() {
    let args = request("/x", RequestMethod::Get, Some("{\"a\":1}"));
    let d = args.build().unwrap();
    assert!(d.body.is_some());
    assert!(!d.method.accepts_body());
}

#[test]
fn body_verbs_accept_a_body() {
    assert!(RequestMethod::Post.accepts_body());
    assert!(RequestMethod::Put.accepts_body());
    assert!(RequestMethod::Patch.accepts_body());
    assert!(!RequestMethod::Get.accepts_body());
    assert!(!RequestMethod::Delete.accepts_body());
    assert!(!RequestMethod::Head.accepts_body());
}

#[test]
fn str_contains_is_case_sensitive_substring() {
    assert!(str_contains("/lol-chat/v1/me", "chat"));
    assert!(!str_contains("/lol-chat/v1/me", "Chat"));
    assert!(str_contains("abc", ""));
    assert!(!str_contains("ab", "abc"));
}

#[test]
fn str_eq_compares_characters() {
    assert!(str_eq("wss:", "wss:"));
    assert!(!str_eq("wss:", "wss"));
    assert!(!str_eq("a", "b"));
}

#[test]
fn unknown_event_category_fails_before_any_connection() {
    let args = SubscribeArgs { event: "OnFooEvent".to_string(), filter: None, verbose: false };
    let e = args.event_kind().unwrap_err();
    match e {
        Error::UnknownEventType { ref name } => assert_eq!(name, "OnFooEvent"),
        _ => panic!("expected UnknownEventType"),
    }
    assert_eq!(e.message(), "when processing websocket event: OnFooEvent");
}

#[test]
fn known_event_categories_parse() {
    let json_api = SubscribeArgs { event: "OnJsonApiEvent".to_string(), filter: None, verbose: false };
    assert_eq!(json_api.event_kind().unwrap(), EventKind::OnJsonApiEvent);
    let lcd = SubscribeArgs { event: "OnLcdEvent".to_string(), filter: None, verbose: false };
    assert_eq!(lcd.event_kind().unwrap(), EventKind::OnLcdEvent);
}

#[test]
fn error_messages_carry_their_context() {
    assert_eq!(
        Error::MalformedLocator { locator: "".to_string() }.message(),
        "when processing path: "
    );
    assert_eq!(
        Error::Connection { message: "refused".to_string() }.message(),
        "when connecting to the LCU: refused"
    );
    assert_eq!(
        Error::Transport { message: "timeout".to_string() }.message(),
        "when processing LCU request: timeout"
    );
    assert_eq!(
        Error::MalformedFrame.message(),
        "when processing websocket: malformed event frame"
    );
    assert_eq!(
        Error::StreamTransport { message: "closed".to_string() }.message(),
        "when processing websocket: closed"
    );
    assert_eq!(
        Error::Render { message: "oops".to_string() }.message(),
        "when pretty printing JSON: oops"
    );
}
