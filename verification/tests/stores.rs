use sanctuary_player::json::JsonNode;
use sanctuary_player::session::{
    parse_session, read_session, session_text, SessionState, SessionStore,
};
use sanctuary_player::settings::{
    parse_settings, read_settings, settings_text, Settings, SettingsStore,
};
use sanctuary_player::time::Duration;
use sanctuary_player::video::{VideoPlatform, VideoSource};

#[test]
fn missing_session_is_none_and_state_round_trips() {
    let store = SessionStore::new("session.json".to_owned());
    assert_eq!(store.load(Ok(None)).unwrap(), None);

    let expected = SessionState {
        source: VideoSource::parse("2386400830").unwrap(),
        position: Duration::from_millis(3_721_917),
    };
    let written = session_text(&expected);
    assert!(written.ends_with("}\n"));
    assert_eq!(store.load(Ok(Some(&written))).unwrap(), Some(expected));
}

#[test]
fn restored_source_carries_saved_time() {
    let state = SessionState {
        source: VideoSource::parse("2386400830").unwrap(),
        position: Duration::from_millis(12_345),
    };
    assert_eq!(state.restore_source().start_time, Some(Duration::from_millis(12_345)));
    let at_start = SessionState { position: Duration::zero(), ..state };
    assert_eq!(at_start.restore_source().start_time, None);
}

#[test]
fn rejects_unknown_version_and_platform_mismatch() {
    assert!(parse_session(
        r#"{"version":2,"platform":"twitch","video_id":"2386400830","position_ms":1}"#
    )
    .is_err());
    assert!(parse_session(
        r#"{"version":1,"platform":"youtube","video_id":"2386400830","position_ms":1}"#
    )
    .is_err());
}

#[test]
fn session_errors_say_what_is_wrong() {
    let cases = [
        ("[]", "session root was not an object"),
        ("{}", "session version was missing or invalid"),
        (r#"{"version":-1}"#, "session version was missing or invalid"),
        (r#"{"version":7}"#, "unsupported session version 7"),
        (r#"{"version":1}"#, "session platform was missing or invalid"),
        (r#"{"version":1,"platform":"vimeo"}"#, "unknown session platform \"vimeo\""),
        (r#"{"version":1,"platform":"twitch"}"#, "session video_id was missing or invalid"),
        (
            r#"{"version":1,"platform":"twitch","video_id":""}"#,
            "session video_id was missing or invalid",
        ),
        (
            r#"{"version":1,"platform":"twitch","video_id":"a b"}"#,
            "invalid session video_id \"a b\": unrecognised video",
        ),
        (
            r#"{"version":1,"platform":"youtube","video_id":"2386400830"}"#,
            "session platform did not match video_id",
        ),
        (
            r#"{"version":1,"platform":"twitch","video_id":"2386400830"}"#,
            "session position_ms was missing or invalid",
        ),
    ];
    for (document, expected) in cases {
        assert_eq!(parse_session(document).unwrap_err(), expected, "{document}");
    }
    let store = SessionStore::new("/tmp/session.json".to_owned());
    assert!(store
        .load(Ok(Some("{")))
        .unwrap_err()
        .starts_with("parse session /tmp/session.json: EOF while parsing"));
}

#[test]
fn session_is_made_up_from_the_values_of_a_document() {
    let text = |text: &str| Some(JsonNode::Text(text.to_owned()));
    let number = |n: u64| Some(JsonNode::Number(Some(n), Some(n as i64)));
    let session = read_session(
        Some(JsonNode::Object),
        number(1),
        text("youtube"),
        text("3fgD9k8Hkbc"),
        number(1500),
    )
    .unwrap();
    assert_eq!(session.source.platform, VideoPlatform::YouTube);
    assert_eq!(session.source.id, "3fgD9k8Hkbc");
    assert_eq!(session.position, Duration::from_millis(1500));
}

#[test]
fn missing_file_loads_defaults_then_round_trips_settings() {
    let store = SettingsStore::new("settings.json".to_owned());
    assert_eq!(store.load(Ok(None)).unwrap(), Settings::default());

    let expected = Settings {
        user_id: Some("test-user".into()),
        device_id: Some("test-device".into()),
        favourite_qualities: "1080p60,720p60".into(),
    };
    assert_eq!(store.load(Ok(Some(&settings_text(&expected)))).unwrap(), expected);
}

#[test]
fn partial_account_is_rejected_instead_of_silently_signing_in() {
    let error = parse_settings(r#"{"user_id":"test-user"}"#).unwrap_err();
    assert!(error.contains("user_id and device_id"));
}

#[test]
fn settings_errors_say_what_is_wrong() {
    let cases = [
        ("3", "settings root was not an object"),
        (r#"{"user_id":"  "}"#, "user_id was empty"),
        (r#"{"user_id":4}"#, "user_id was not a string"),
        (r#"{"user_id":"a","device_id":[]}"#, "device_id was not a string"),
        (r#"{"favourite_qualities":true}"#, "favourite_qualities was not a string"),
        (
            r#"{"device_id":"b"}"#,
            "user_id and device_id must either both be present or both be absent",
        ),
    ];
    for (document, expected) in cases {
        assert_eq!(parse_settings(document).unwrap_err(), expected, "{document}");
    }
    assert_eq!(
        parse_settings(r#"{"user_id":null,"favourite_qualities":null}"#).unwrap(),
        Settings::default()
    );
    let store = SettingsStore::new("settings.json".to_owned());
    assert_eq!(
        store.load(Ok(Some("[]"))).unwrap_err(),
        "parse settings settings.json: settings root was not an object"
    );
}

#[test]
fn settings_are_made_up_from_the_values_of_a_document() {
    let text = |text: &str| Some(JsonNode::Text(text.to_owned()));
    assert_eq!(
        read_settings(Some(JsonNode::Object), text("u"), text("d"), Some(JsonNode::Null)).unwrap(),
        Settings {
            user_id: Some("u".into()),
            device_id: Some("d".into()),
            favourite_qualities: String::new(),
        }
    );
    assert_eq!(
        read_settings(Some(JsonNode::Array(2)), None, None, None).unwrap_err(),
        "settings root was not an object"
    );
}

#[test]
fn unreadable_files_are_said_to_be() {
    let settings = SettingsStore::new("settings.json".to_owned());
    assert_eq!(
        settings.load(Err("permission denied")).unwrap_err(),
        "read settings settings.json: permission denied"
    );
    let session = SessionStore::new("session.json".to_owned());
    assert_eq!(
        session.load(Err("permission denied")).unwrap_err(),
        "read session session.json: permission denied"
    );
}
