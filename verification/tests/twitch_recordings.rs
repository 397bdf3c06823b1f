use sanctuary_player::json::JsonNode;
use sanctuary_player::twitch::{
    build_vod_m3u8_url, parse_playback_access_token, read_access, resolve_vod_m3u8, token_request,
    PlaybackAccessToken, TwitchVodResolveError,
};
use std::collections::HashMap;
use url::Url;

#[test]
fn rejects_non_numeric_vod_ids_without_network_access() {
    assert!(matches!(
        token_request("not-a-vod"),
        Err(TwitchVodResolveError::InvalidVideoId(_))
    ));
    assert!(matches!(
        resolve_vod_m3u8("not-a-vod", "{}"),
        Err(TwitchVodResolveError::InvalidVideoId(_))
    ));
    assert!(matches!(
        token_request(""),
        Err(TwitchVodResolveError::InvalidVideoId(_))
    ));
}

#[test]
fn parses_playback_access_token_response() {
    let response = r#"{
        "data": {
            "videoPlaybackAccessToken": {
                "value": "{\"expires\":123}",
                "signature": "0123456789abcdef"
            }
        }
    }"#;

    assert_eq!(
        parse_playback_access_token(response).unwrap(),
        PlaybackAccessToken {
            value: "{\"expires\":123}".into(),
            signature: "0123456789abcdef".into(),
        }
    );
}

#[test]
fn reports_graphql_errors() {
    let response = r#"{
        "data": { "videoPlaybackAccessToken": null },
        "errors": [{ "message": "video unavailable" }]
    }"#;

    assert_eq!(
        parse_playback_access_token(response),
        Err(TwitchVodResolveError::GraphQl("video unavailable".into()))
    );
}

#[test]
fn builds_encoded_h264_master_playlist_url() {
    let address = build_vod_m3u8_url(
        "2845804307",
        &PlaybackAccessToken {
            value: "{\"foo\":\"a b&c\"}".into(),
            signature: "sig+/=".into(),
        },
    );
    let url = Url::parse(&address).unwrap();

    assert_eq!(url.scheme(), "https");
    assert_eq!(url.host_str(), Some("usher.ttvnw.net"));
    assert_eq!(url.path(), "/vod/2845804307.m3u8");

    let query: HashMap<_, _> = url.query_pairs().into_owned().collect();
    assert_eq!(query.get("supported_codecs").map(String::as_str), Some("h264"));
    assert_eq!(query.get("sig").map(String::as_str), Some("sig+/="));
    assert_eq!(query.get("token").map(String::as_str), Some("{\"foo\":\"a b&c\"}"));
    assert_eq!(query.len(), 8);
}

#[test]
fn token_request_asks_for_the_recording() {
    assert_eq!(
        token_request("12").unwrap(),
        r#"{"query":"{ videoPlaybackAccessToken(id: \"12\", params: { platform: \"web\", playerBackend: \"mediaplayer\", playerType: \"site\" }) { value signature } }"}"#
    );
}

#[test]
fn recording_is_resolved_once_the_response_is_there() {
    let response =
        r#"{"data":{"videoPlaybackAccessToken":{"value":"v","signature":"s"}}}"#;
    assert_eq!(
        resolve_vod_m3u8("7", response).unwrap(),
        "https://usher.ttvnw.net/vod/7.m3u8?allow_source=true&allow_audio_only=true&platform=web\
         &player=twitchweb&supported_codecs=h264&playlist_include_framerate=true&sig=s&token=v"
    );
}

#[test]
fn incomplete_responses_are_invalid() {
    let missing = |what: &str| {
        TwitchVodResolveError::InvalidResponse(format!(
            "Twitch playback-token response is missing {what}"
        ))
    };
    assert_eq!(
        parse_playback_access_token(r#"{"data":{"videoPlaybackAccessToken":{"signature":"s"}}}"#),
        Err(missing("value"))
    );
    assert_eq!(
        parse_playback_access_token(
            r#"{"data":{"videoPlaybackAccessToken":{"value":"v","signature":""}}}"#
        ),
        Err(missing("signature"))
    );
    assert_eq!(
        parse_playback_access_token(r#"{"errors":{"0":{"message":"no array"}}}"#),
        Err(TwitchVodResolveError::GraphQl(
            "Twitch did not return a VOD playback token".into()
        ))
    );
    assert!(matches!(
        parse_playback_access_token("nonsense"),
        Err(TwitchVodResolveError::InvalidResponse(_))
    ));
    assert_eq!(
        read_access(Some(JsonNode::Object), None, None, None, None),
        Err(missing("value"))
    );
}

#[test]
fn resolve_errors_are_put_into_words() {
    let cases = [
        (TwitchVodResolveError::InvalidVideoId("x".into()), "invalid Twitch VOD ID: x"),
        (
            TwitchVodResolveError::Request("x".into()),
            "Twitch playback-token request failed: x",
        ),
        (
            TwitchVodResolveError::ResponseRead("x".into()),
            "failed to read Twitch playback-token response: x",
        ),
        (
            TwitchVodResolveError::InvalidResponse("x".into()),
            "invalid Twitch playback-token response: x",
        ),
        (
            TwitchVodResolveError::GraphQl("x".into()),
            "Twitch rejected playback-token request: x",
        ),
    ];
    for (error, expected) in cases {
        assert_eq!(error.message(), expected);
    }
}
