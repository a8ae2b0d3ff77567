use lcu_cli::cli::{Cli, Commands, SubscribeArgs};
use lcu_cli::error::Error;
use lcu_cli::rest::{render_rest_response, response_value, ClientInfo};
use lcu_cli::ws::{MinimalMessage, VerboseMessage, WebSocketMessage};

fn sample_frame() -> serde_json::Value {
    serde_json::from_str(
        "[8, \"OnJsonApiEvent\", {\"data\":{}, \"uri\":\"/lol-summoner/v1/x\", \"eventType\":\"Update\"}]",
    )
    .unwrap()
}

fn subscribe(filter: Option<&str>, verbose: bool) -> SubscribeArgs {
    SubscribeArgs {
        event: "OnJsonApiEvent".to_string(),
        filter: filter.map(|s| s.to_string()),
        verbose,
    }
}

#[test]
fn decode_frame_reads_all_fields() {
    let v = sample_frame();
    let m = WebSocketMessage::decode_frame(&v, 123).unwrap();
    assert_eq!(m.opcode, 8);
    assert_eq!(m.event, "OnJsonApiEvent");
    assert_eq!(m.uri, "/lol-summoner/v1/x");
    assert_eq!(m.event_type, "Update");
    assert_eq!(m.timestamp, 123);
    assert_eq!(m.data, serde_json::from_str::<serde_json::Value>("{}").unwrap());
}

#[test]
fn decode_frame_rejects_wrong_arity() {
    let short: serde_json::Value = serde_json::from_str("[8, \"OnJsonApiEvent\"]").unwrap();
    assert!(matches!(
        WebSocketMessage::decode_frame(&short, 0),
        Err(Error::MalformedFrame)
    ));
    let long: serde_json::Value =
        serde_json::from_str("[8, \"x\", {\"data\":{}, \"uri\":\"u\", \"eventType\":\"t\"}, 9]")
            .unwrap();
    assert!(matches!(WebSocketMessage::decode_frame(&long, 0), Err(Error::MalformedFrame)));
}

#[test]
fn decode_frame_rejects_wrong_field_types() {
    let not_array: serde_json::Value = serde_json::from_str("{\"a\":1}").unwrap();
    assert!(matches!(WebSocketMessage::decode_frame(&not_array, 0), Err(Error::MalformedFrame)));
    let bad_opcode: serde_json::Value = serde_json::from_str(
        "[\"8\", \"e\", {\"data\":{}, \"uri\":\"u\", \"eventType\":\"t\"}]",
    )
    .unwrap();
    assert!(matches!(WebSocketMessage::decode_frame(&bad_opcode, 0), Err(Error::MalformedFrame)));
    let bad_uri: serde_json::Value =
        serde_json::from_str("[8, \"e\", {\"data\":{}, \"uri\":5, \"eventType\":\"t\"}]").unwrap();
    assert!(matches!(WebSocketMessage::decode_frame(&bad_uri, 0), Err(Error::MalformedFrame)));
    let missing: serde_json::Value =
        serde_json::from_str("[8, \"e\", {\"uri\":\"u\", \"eventType\":\"t\"}]").unwrap();
    assert!(matches!(WebSocketMessage::decode_frame(&missing, 0), Err(Error::MalformedFrame)));
}

#[test]
fn minimal_line_shows_event_type_and_uri() {
    let v = sample_frame();
    let m = WebSocketMessage::decode_frame(&v, 0).unwrap();
    let line = MinimalMessage::from_message(m).render_with_clock("12:00:00.000");
    assert!(line.contains("Update"));
    assert!(line.contains("/lol-summoner/v1/x"));
    assert_eq!(
        line,
        "\u{1b}[90m12:00:00.000\u{1b}[39m (Update, /lol-summoner/v1/x)"
    );
}

#[test]
fn minimal_mode_emits_when_no_filter() {
    let args = subscribe(None, false);
    let line = args.handle_frame(&sample_frame(), 0).unwrap().expect("event must be emitted");
    assert!(line.contains("Update"));
    assert!(line.contains("/lol-summoner/v1/x"));
}

#[test]
fn non_matching_filter_suppresses_event() {
    let args = subscribe(Some("chat"), false);
    assert!(args.handle_frame(&sample_frame(), 0).unwrap().is_none());
    let verbose = subscribe(Some("chat"), true);
    assert!(verbose.handle_frame(&sample_frame(), 0).unwrap().is_none());
}

#[test]
fn matching_filter_emits_event() {
    let args = subscribe(Some("summoner"), false);
    let line = args.handle_frame(&sample_frame(), 0).unwrap().expect("event must be emitted");
    assert!(line.contains("/lol-summoner/v1/x"));
}

#[test]
fn verbose_mode_dumps_whole_envelope() {
    let args = subscribe(None, true);
    let dump = args.handle_frame(&sample_frame(), 42).unwrap().expect("event must be emitted");
    assert!(dump.contains("\"opcode\""));
    assert!(dump.contains("8"));
    assert!(dump.contains("\"uri\""));
    assert!(dump.contains("/lol-summoner/v1/x"));
    assert!(dump.contains("\"eventType\""));
    assert!(dump.contains("Update"));
    assert!(dump.contains("\"timestamp\""));
    assert!(dump.contains("42"));
}

#[test]
fn verbose_render_keeps_envelope_fields() {
    let m = WebSocketMessage::decode_frame(&sample_frame(), 7).unwrap();
    let dump = VerboseMessage::from_message(m).render().unwrap();
    assert!(dump.contains("OnJsonApiEvent"));
    assert!(dump.contains("\"data\""));
}

#[test]
fn to_line_stamps_a_clock_and_keeps_the_fields() {
    let m = WebSocketMessage::decode_frame(&sample_frame(), 0).unwrap();
    let line = MinimalMessage::from_message(m).to_line();
    assert!(line.starts_with("\u{1b}[90m"));
    assert!(line.ends_with(" (Update, /lol-summoner/v1/x)"));
}

#[test]
fn commands_carry_their_arguments() {
    let cli = Cli { command: Commands::Subscribe(subscribe(Some("chat"), true)) };
    match cli.command {
        Commands::Subscribe(args) => {
            assert_eq!(args.filter.as_deref(), Some("chat"));
            assert!(args.verbose);
        },
        _ => panic!("expected the subscribe command"),
    }
    let info = Cli { command: Commands::Info };
    assert!(matches!(info.command, Commands::Info));
}

#[test]
fn to_line_clock_has_time_shape() {
    let m = WebSocketMessage::decode_frame(&sample_frame(), 0).unwrap();
    let line = MinimalMessage::from_message(m).to_line();
    let chars: Vec<char> = line.chars().collect();
    let clock = &chars[5..17];
    assert_eq!(clock[2], ':');
    assert_eq!(clock[5], ':');
    assert_eq!(clock[8], '.');
    for (i, c) in clock.iter().enumerate() {
        if i != 2 && i != 5 && i != 8 {
            assert!(c.is_ascii_digit());
        }
    }
}

#[test]
fn response_value_keeps_the_value_and_makes_the_sentinel() {
    let v: serde_json::Value = serde_json::from_str("{\"a\":1}").unwrap();
    assert_eq!(response_value(Some(&v)), v);
    let sentinel = response_value(None);
    assert_eq!(sentinel, serde_json::Value::String("undefined".to_string()));
    assert_ne!(sentinel, serde_json::Value::Null);
}

#[test]
fn no_content_renders_undefined_and_null_renders_null() {
    let undefined = render_rest_response(None).unwrap();
    assert_eq!(undefined, "\"undefined\"");
    let null = render_rest_response(Some(&serde_json::Value::Null)).unwrap();
    assert_eq!(null, "null");
    assert_ne!(undefined, null);
}

#[test]
fn rest_response_value_passes_through() {
    let v: serde_json::Value = serde_json::from_str("{\"a\":1}").unwrap();
    let text = render_rest_response(Some(&v)).unwrap();
    let back: serde_json::Value = serde_json::from_str(&text).unwrap();
    assert_eq!(back, v);
}

#[test]
fn client_info_decodes_basic_credential() {
    let info = ClientInfo::new(
        "https://127.0.0.1:54321".to_string(),
        "Basic cmlvdDpzZWNyZXQ=".to_string(),
    );
    assert_eq!(info.decoded_auth().unwrap(), "riot:secret");
}

#[test]
fn client_info_decodes_bare_credential() {
    let info = ClientInfo::new("h".to_string(), "cmlvdDpzZWNyZXQ=".to_string());
    assert_eq!(info.decoded_auth().unwrap(), "riot:secret");
}

#[test]
fn client_info_rejects_bad_base64() {
    let info = ClientInfo::new("h".to_string(), "Basic !!!".to_string());
    let e = info.decoded_auth().unwrap_err();
    assert!(matches!(e, Error::Render { .. }));
}

#[test]
fn client_info_renders_three_labeled_lines() {
    let info = ClientInfo::new(
        "https://127.0.0.1:54321".to_string(),
        "Basic cmlvdDpzZWNyZXQ=".to_string(),
    );
    let text = info.render().unwrap();
    assert_eq!(text.lines().count(), 3);
    assert!(text.contains("\u{1b}[95mhost\u{1b}[39m: https://127.0.0.1:54321"));
    assert!(text.contains("\u{1b}[95mauthorization\u{1b}[39m: Basic cmlvdDpzZWNyZXQ="));
    assert!(text.contains(
        "\u{1b}[95mauthorization (decoded)\u{1b}[39m: Basic \u{1b}[93mriot:secret\u{1b}[39m"
    ));
}
