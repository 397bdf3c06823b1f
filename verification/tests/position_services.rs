use sanctuary_player::services::dummy::{DummyMetadataService, DummyPositionService};
use sanctuary_player::services::remote::{
    age_from_rfc3339, age_since, parse_position, parse_positions, RemotePositionService,
};
use sanctuary_player::services::{MetadataService, PositionService};
use sanctuary_player::time::Duration;
use sanctuary_player::video::VideoSource;
use std::collections::HashMap;
use std::time::{SystemTime, UNIX_EPOCH};
use url::Url;

fn now() -> Option<Duration> {
    let now = SystemTime::now().duration_since(UNIX_EPOCH).unwrap();
    Some(Duration { nanos: now.as_nanos() })
}

#[test]
fn dummy_metadata_contains_deliberate_spoilers_for_ui_filter_testing() {
    let service = DummyMetadataService;
    let metadata = service.metadata_for(&VideoSource::parse("2386400830").unwrap());
    assert!(metadata.title.contains("Game 5"));
    assert!(metadata.title.contains("VS"));
}

#[test]
fn dummy_positions_can_be_updated_per_device_and_video() {
    let mut service = DummyPositionService::new();
    let source = VideoSource::parse("2386400830").unwrap();
    service
        .save_position("test-user", "Phone", &source, Duration::from_secs(7000))
        .unwrap();
    let phone = service
        .positions("test-user")
        .unwrap()
        .into_iter()
        .find(|entry| entry.device_id == "Phone" && entry.source.id == source.id)
        .unwrap();
    assert_eq!(phone.position, Duration::from_secs(7000));
    assert_eq!(phone.modified_age, Duration::zero());
}

#[test]
fn dummy_positions_of_new_devices_come_first() {
    let mut service = DummyPositionService::default();
    let source = VideoSource::parse("2386400830").unwrap();
    service
        .save_position("test-user", "Tablet", &source, Duration::from_secs(5))
        .unwrap();
    let positions = service.positions("anyone").unwrap();
    assert_eq!(positions.len(), 4);
    assert_eq!(positions[0].device_id, "Tablet");
    assert_eq!(positions[0].title, None);
    assert_eq!(positions[1].device_id, "Phone");
    assert_eq!(positions[1].position, Duration::from_secs(6485));
}

#[test]
fn parses_server_rows_and_skips_unusable_video_ids() {
    let body = r#"[
        {"user_id":"test-user","device_id":"Phone","video_id":"2386400830","position":6485,"modified_time":"2025-01-01T00:00:00+00:00","video_title":"HLE vs CFO","video_release_date":"2025-01-01T00:00:00+00:00"},
        {"user_id":"test-user","device_id":"Old","video_id":"definitely-not-a-video-id","position":10,"modified_time":"2025-01-01T00:00:00+00:00"}
    ]"#;
    let parsed = parse_positions(body, now()).unwrap();
    let positions = parsed.positions;
    assert_eq!(positions.len(), 1);
    assert_eq!(positions[0].source.id, "2386400830");
    assert_eq!(positions[0].device_id, "Phone");
    assert_eq!(positions[0].position, Duration::from_secs(6485));
    assert_eq!(positions[0].title.as_deref(), Some("HLE vs CFO"));
    assert!(positions[0].modified_age.nanos > Duration::from_secs(24 * 3600).nanos);
    assert!(positions[0].release_age.unwrap().nanos > Duration::from_secs(24 * 3600).nanos);
    assert_eq!(
        parsed.skipped,
        vec![(
            1,
            "invalid video_id \"definitely-not-a-video-id\": unrecognised video".to_owned()
        )]
    );
}

#[test]
fn fetch_uses_web_server_query_shape() {
    let service = RemotePositionService::with_base_url("http://127.0.0.1:4321/".to_owned());
    let url = Url::parse(&service.positions_url("test user").unwrap()).unwrap();
    assert_eq!(url.port(), Some(4321));
    assert_eq!(url.path(), "/get-saved-positions");
    let params: HashMap<_, _> = url.query_pairs().into_owned().collect();
    assert_eq!(params.get("user_id").map(String::as_str), Some("test user"));
    assert!(parse_positions("[]", now()).unwrap().positions.is_empty());
}

#[test]
fn save_uses_web_server_query_shape_and_whole_seconds() {
    let service = RemotePositionService::with_base_url("http://127.0.0.1:4321/".to_owned());
    let address = service
        .save_url(
            "test user",
            "test-device/Desktop",
            &VideoSource::parse("2386400830").unwrap(),
            Duration::from_millis(12_600),
        )
        .unwrap();
    let url = Url::parse(&address).unwrap();
    assert_eq!(url.path(), "/save-position");
    let params: HashMap<_, _> = url.query_pairs().into_owned().collect();
    assert_eq!(params.get("user_id").map(String::as_str), Some("test user"));
    assert_eq!(params.get("device_id").map(String::as_str), Some("test-device/Desktop"));
    assert_eq!(params.get("video_id").map(String::as_str), Some("2386400830"));
    assert_eq!(params.get("position").map(String::as_str), Some("13"));
}

#[test]
fn default_server_is_addressed() {
    assert_eq!(
        RemotePositionService::new().positions_url("a&b").unwrap(),
        "https://sanctuaryplayer.robdh.uk/get-saved-positions?user_id=a%26b"
    );
    let broken = RemotePositionService::with_base_url("not an address".to_owned());
    assert_eq!(
        broken.positions_url("a").unwrap_err(),
        "build saved-position server URL: relative URL without a base"
    );
}

#[test]
fn ages_are_counted_from_the_point_in_time() {
    let now = Some(Duration::from_secs(1_000));
    assert_eq!(
        age_from_rfc3339("1970-01-01T00:10:00Z", now),
        Some(Duration::from_secs(400))
    );
    assert_eq!(
        age_from_rfc3339("1970-01-01T01:10:00+01:00", now),
        Some(Duration::from_secs(400))
    );
    assert_eq!(age_from_rfc3339("2970-01-01T00:10:00Z", now), Some(Duration::zero()));
    assert_eq!(age_from_rfc3339("yesterday", now), None);
    assert_eq!(age_since(Some(-5), Some(Duration::zero())), Some(Duration::from_millis(5)));
    assert_eq!(age_since(Some(5), None), None);
}

#[test]
fn rows_that_hold_no_position_say_why() {
    let now = Some(Duration::from_secs(1_000));
    let cases = [
        ("5", "row was not an object"),
        ("{}", "video_id was missing or empty"),
        (r#"{"video_id":"12"}"#, "device_id was missing or empty"),
        (r#"{"video_id":"12","device_id":"d"}"#, "position was not an integer"),
        (
            r#"{"video_id":"12","device_id":"d","position":1.5}"#,
            "position was not an integer",
        ),
        (r#"{"video_id":"12","device_id":"d","position":-1}"#, "position was negative"),
        (
            r#"{"video_id":"12","device_id":"d","position":1}"#,
            "modified_time was missing or empty",
        ),
        (
            r#"{"video_id":"12","device_id":"d","position":1,"modified_time":"x"}"#,
            "modified_time was not RFC3339",
        ),
    ];
    for (row, expected) in cases {
        assert_eq!(parse_position(row, now).unwrap_err(), expected, "{row}");
    }
    assert_eq!(
        parse_positions("{}", now).unwrap_err(),
        "saved-position response was not an array"
    );
    assert!(parse_positions("[", now)
        .unwrap_err()
        .starts_with("parse saved-position response: EOF"));
}
