use sanctuary_player::time::Duration;
use sanctuary_player::time_format::{
    format_age, format_colon_time, format_friendly_time, format_relative_position,
    parse_friendly_time,
};

#[test]
fn parses_web_player_time_forms() {
    let cases = [
        ("1234", 1234),
        ("1.45", 105),
        ("4567s", 4567),
        ("1m2s", 62),
        ("2h1m40s", 7300),
        ("2m", 120),
        ("8h20", 8 * 3600 + 20 * 60),
        ("2:34:57", 9297),
        ("3:45", 225),
        (":40", 40),
        ("1:", 60),
    ];
    for (input, expected) in cases {
        assert_eq!(parse_friendly_time(input).unwrap().as_secs(), expected, "{input}");
    }
}

#[test]
fn rejects_invalid_time_forms() {
    for input in ["", "abc", "1::2::3", "1x30"] {
        assert!(parse_friendly_time(input).is_none(), "{input}");
    }
}

#[test]
fn formats_times_and_relative_offsets() {
    let value = Duration::from_secs(3601);
    assert_eq!(format_friendly_time(value), "1h00m01s");
    assert_eq!(format_colon_time(value), "1:00:01");
    assert_eq!(
        format_relative_position(Duration::from_secs(3660), Duration::from_secs(3600)),
        "+1 minute"
    );
    assert_eq!(
        format_relative_position(Duration::from_secs(3598), Duration::from_secs(3600)),
        "-2 seconds"
    );
}

#[test]
fn formats_relative_age() {
    assert_eq!(format_age(Duration::from_secs(20)), "Just now");
    assert_eq!(format_age(Duration::from_secs(60)), "1 minute ago");
    assert_eq!(format_age(Duration::from_secs(2 * 86400)), "2 days ago");
}

#[test]
fn written_times_are_read_back() {
    for seconds in [0, 1, 59, 60, 61, 3599, 3600, 3661, 86_399, 360_000] {
        let time = Duration::from_secs(seconds);
        assert_eq!(parse_friendly_time(&format_friendly_time(time)), Some(time));
        assert_eq!(parse_friendly_time(&format_colon_time(time)), Some(time));
    }
}
