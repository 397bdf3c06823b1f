//! Where a Twitch recording can be played from.
//!
//! Twitch hands out the address of a recording's playlist in two steps: a short-lived
//! token is asked for, and the playlist service is addressed with that token.

use crate::address;
use crate::json;
use crate::json::{JsonNode, JsonView};
use crate::text;
use vstd::prelude::*;
use vstd::string::*;

verus! {

pub const TWITCH_GQL_URL: &'static str = "https://gql.twitch.tv/gql";

pub const TWITCH_USHER_BASE: &'static str = "https://usher.ttvnw.net";

/// The public identifier of the web player. It is no secret.
pub const TWITCH_CLIENT_ID: &'static str = "ue6666qo983tsx6so1t0vnawi233wa";

pub const MAX_GQL_RESPONSE_BYTES: u64 = 65_536;

/// How many digits an identifier may have for its address to be written.
pub const MAX_VIDEO_ID: usize = 0x800_0000;

/// The permission to play a recording.
#[derive(Debug, PartialEq, Eq)]
pub struct PlaybackAccessToken {
    pub value: String,
    pub signature: String,
}

/// A permission as values.
pub struct Access {
    pub value: Seq<char>,
    pub signature: Seq<char>,
}

impl View for PlaybackAccessToken {
    type V = Access;

    open spec fn view(&self) -> Access {
        Access { value: self.value@, signature: self.signature@ }
    }
}

/// Why a recording cannot be played.
#[derive(Debug, PartialEq, Eq)]
pub enum TwitchVodResolveError {
    InvalidVideoId(String),
    Request(String),
    ResponseRead(String),
    InvalidResponse(String),
    GraphQl(String),
}

/// Such a reason as values.
pub enum ResolveFailure {
    InvalidVideoId(Seq<char>),
    Request(Seq<char>),
    ResponseRead(Seq<char>),
    InvalidResponse(Seq<char>),
    GraphQl(Seq<char>),
}

impl View for TwitchVodResolveError {
    type V = ResolveFailure;

    open spec fn view(&self) -> ResolveFailure {
        match self {
            TwitchVodResolveError::InvalidVideoId(id) => ResolveFailure::InvalidVideoId(id@),
            TwitchVodResolveError::Request(error) => ResolveFailure::Request(error@),
            TwitchVodResolveError::ResponseRead(error) => ResolveFailure::ResponseRead(error@),
            TwitchVodResolveError::InvalidResponse(error) => ResolveFailure::InvalidResponse(
                error@,
            ),
            TwitchVodResolveError::GraphQl(error) => ResolveFailure::GraphQl(error@),
        }
    }
}

impl ResolveFailure {
    /// The reason in words.
    pub open spec fn text(self) -> Seq<char> {
        match self {
            ResolveFailure::InvalidVideoId(id) => "invalid Twitch VOD ID: "@ + id,
            ResolveFailure::Request(error) => "Twitch playback-token request failed: "@ + error,
            ResolveFailure::ResponseRead(error) => "failed to read Twitch playback-token response: "@
                + error,
            ResolveFailure::InvalidResponse(error) => "invalid Twitch playback-token response: "@
                + error,
            ResolveFailure::GraphQl(error) => "Twitch rejected playback-token request: "@ + error,
        }
    }
}

fn joined(head: &str, tail: &str) -> (text: String)
    ensures
        text@ == head@ + tail@,
{
    let mut text = head.to_owned();
    text.append(tail);
    text
}

impl TwitchVodResolveError {
    /// The reason in words.
    pub fn message(&self) -> (message: String)
        ensures
            message@ == self@.text(),
    {
        match self {
            TwitchVodResolveError::InvalidVideoId(id) => joined(
                "invalid Twitch VOD ID: ",
                id.as_str(),
            ),
            TwitchVodResolveError::Request(error) => joined(
                "Twitch playback-token request failed: ",
                error.as_str(),
            ),
            TwitchVodResolveError::ResponseRead(error) => joined(
                "failed to read Twitch playback-token response: ",
                error.as_str(),
            ),
            TwitchVodResolveError::InvalidResponse(error) => joined(
                "invalid Twitch playback-token response: ",
                error.as_str(),
            ),
            TwitchVodResolveError::GraphQl(error) => joined(
                "Twitch rejected playback-token request: ",
                error.as_str(),
            ),
        }
    }
}

/// Whether an identifier names a recording.
pub open spec fn is_video_id(id: Seq<char>) -> bool {
    id.len() > 0 && text::all_digits(id)
}

/// Refuses an identifier that names no recording.
pub fn validate_video_id(video_id: &str) -> (valid: Result<(), TwitchVodResolveError>)
    ensures
        match valid {
            Ok(()) => is_video_id(video_id@),
            Err(error) => !is_video_id(video_id@) && error@ == ResolveFailure::InvalidVideoId(
                video_id@,
            ),
        },
{
    let chars = text::chars_of(video_id);
    let mut i: usize = 0;
    while i < chars.len()
        invariant
            i <= chars.len(),
            chars@ == video_id@,
            forall|k: int| 0 <= k < i ==> text::is_digit(#[trigger] chars@[k]),
        decreases chars.len() - i,
    {
        if !text::ascii_digit(chars[i]) {
            assert(!text::is_digit(video_id@[i as int]));
            return Err(TwitchVodResolveError::InvalidVideoId(video_id.to_owned()));
        }
        i += 1;
    }
    if chars.len() == 0 {
        return Err(TwitchVodResolveError::InvalidVideoId(video_id.to_owned()));
    }
    Ok(())
}

/// What the token is asked for with.
pub open spec fn token_query(video_id: Seq<char>) -> Seq<char> {
    "{ videoPlaybackAccessToken(id: \""@ + video_id
        + "\", params: { platform: \"web\", playerBackend: \"mediaplayer\", playerType: \"site\" }) { value signature } }"@
}

/// The document that a token is asked for with.
pub fn token_request(video_id: &str) -> (body: Result<String, TwitchVodResolveError>)
    ensures
        match body {
            Ok(body) => {
                &&& is_video_id(video_id@)
                &&& body@ == json::json_line(
                    seq![("query"@, JsonView::Text(token_query(video_id@)))],
                )
                &&& json::reads_back(
                    body@,
                    seq![("query"@, JsonView::Text(token_query(video_id@)))],
                )
            },
            Err(error) => !is_video_id(video_id@) && error@ == ResolveFailure::InvalidVideoId(
                video_id@,
            ),
        },
{
    match validate_video_id(video_id) {
        Ok(()) => {},
        Err(error) => {
            return Err(error);
        },
    }
    let mut query = "{ videoPlaybackAccessToken(id: \"".to_owned();
    query.append(video_id);
    query.append(
        "\", params: { platform: \"web\", playerBackend: \"mediaplayer\", playerType: \"site\" }) { value signature } }",
    );
    let mut members: Vec<(String, JsonNode)> = Vec::new();
    members.push(json::text_member("query", query.as_str()));
    assert(json::members_view(members@) =~= seq![
        ("query"@, JsonView::Text(token_query(video_id@))),
    ]);
    Ok(json::json_object_line(&members))
}

/// The permission that the values of a response grant, or why they grant none.
pub open spec fn access_of(
    token: Option<JsonView>,
    errors: Option<JsonView>,
    message: Option<JsonView>,
    value: Option<JsonView>,
    signature: Option<JsonView>,
) -> Result<Access, ResolveFailure> {
    if token is None || token == Some(JsonView::Null) {
        match (errors, message) {
            (Some(JsonView::Array(_)), Some(JsonView::Text(message))) => Err(
                ResolveFailure::GraphQl(message),
            ),
            _ => Err(ResolveFailure::GraphQl("Twitch did not return a VOD playback token"@)),
        }
    } else {
        match (json::text_of(value), json::text_of(signature)) {
            (Some(value), Some(signature)) if value.len() > 0 && signature.len() > 0 => Ok(
                Access { value, signature },
            ),
            (Some(value), _) if value.len() > 0 => Err(
                ResolveFailure::InvalidResponse(
                    "Twitch playback-token response is missing signature"@,
                ),
            ),
            _ => Err(
                ResolveFailure::InvalidResponse("Twitch playback-token response is missing value"@),
            ),
        }
    }
}

/// Takes the permission from the values of a response.
pub fn read_access(
    token: Option<JsonNode>,
    errors: Option<JsonNode>,
    message: Option<JsonNode>,
    value: Option<JsonNode>,
    signature: Option<JsonNode>,
) -> (access: Result<PlaybackAccessToken, TwitchVodResolveError>)
    ensures
        ({
            let expected = access_of(
                json::node_view(token),
                json::node_view(errors),
                json::node_view(message),
                json::node_view(value),
                json::node_view(signature),
            );
            match access {
                Ok(access) => expected == Ok::<Access, ResolveFailure>(access@),
                Err(error) => expected == Err::<Access, ResolveFailure>(error@),
            }
        }),
{
    match token {
        None | Some(JsonNode::Null) => {
            return match (errors, message) {
                (Some(JsonNode::Array(_)), Some(JsonNode::Text(message))) => Err(
                    TwitchVodResolveError::GraphQl(message),
                ),
                _ => Err(
                    TwitchVodResolveError::GraphQl(
                        "Twitch did not return a VOD playback token".to_owned(),
                    ),
                ),
            };
        },
        Some(_) => {},
    }
    let value = match json::filled_text(value) {
        Some(value) => value,
        None => {
            return Err(
                TwitchVodResolveError::InvalidResponse(
                    "Twitch playback-token response is missing value".to_owned(),
                ),
            );
        },
    };
    let signature = match json::filled_text(signature) {
        Some(signature) => signature,
        None => {
            return Err(
                TwitchVodResolveError::InvalidResponse(
                    "Twitch playback-token response is missing signature".to_owned(),
                ),
            );
        },
    };
    Ok(PlaybackAccessToken { value, signature })
}

/// The permission that a response grants, or why it grants none.
pub open spec fn access_in(response: Seq<char>) -> Result<Access, ResolveFailure> {
    match json::json_node_at(response, Seq::empty()) {
        Err(error) => Err(ResolveFailure::InvalidResponse(error)),
        Ok(_) => access_of(
            json::found(response, "/data/videoPlaybackAccessToken"@),
            json::found(response, "/errors"@),
            json::found(response, "/errors/0/message"@),
            json::found(response, "/data/videoPlaybackAccessToken/value"@),
            json::found(response, "/data/videoPlaybackAccessToken/signature"@),
        ),
    }
}

/// Takes the permission from a response.
pub fn parse_playback_access_token(response: &str) -> (access: Result<
    PlaybackAccessToken,
    TwitchVodResolveError,
>)
    ensures
        match access {
            Ok(access) => access_in(response@) == Ok::<Access, ResolveFailure>(access@),
            Err(error) => access_in(response@) == Err::<Access, ResolveFailure>(error@),
        },
{
    match json::root(response) {
        Err(error) => Err(TwitchVodResolveError::InvalidResponse(error)),
        Ok(_) => read_access(
            json::find(response, "/data/videoPlaybackAccessToken"),
            json::find(response, "/errors"),
            json::find(response, "/errors/0/message"),
            json::find(response, "/data/videoPlaybackAccessToken/value"),
            json::find(response, "/data/videoPlaybackAccessToken/signature"),
        ),
    }
}

/// The path of a recording's playlist.
pub open spec fn playlist_path(video_id: Seq<char>) -> Seq<char> {
    "/vod/"@ + video_id + ".m3u8"@
}

/// The parameters that the playlist is asked for with.
pub open spec fn playlist_pairs(access: Access) -> Seq<(Seq<char>, Seq<char>)> {
    seq![
        ("allow_source"@, "true"@),
        ("allow_audio_only"@, "true"@),
        ("platform"@, "web"@),
        ("player"@, "twitchweb"@),
        ("supported_codecs"@, "h264"@),
        ("playlist_include_framerate"@, "true"@),
        ("sig"@, access.signature),
        ("token"@, access.value),
    ]
}

/// The address of a recording's playlist.
pub open spec fn playlist_address(video_id: Seq<char>, access: Access) -> Result<
    Seq<char>,
    Seq<char>,
> {
    address::address_with_query(
        TWITCH_USHER_BASE@,
        playlist_path(video_id),
        playlist_pairs(access),
    )
}

proof fn usher_base_is_plain()
    ensures
        address::is_plain_base(TWITCH_USHER_BASE@),
        TWITCH_USHER_BASE@.len() == 23,
{
    reveal_strlit("https://usher.ttvnw.net");
    reveal_strlit("https://");
    reveal_strlit("usher.ttvnw.net");
    let host = "usher.ttvnw.net"@;
    assert(TWITCH_USHER_BASE@ =~= "https://"@ + host);
    assert(address::is_plain_host(host));
}

proof fn playlist_path_is_plain(video_id: Seq<char>)
    requires
        is_video_id(video_id),
    ensures
        address::is_plain_path(playlist_path(video_id)),
        !playlist_path(video_id).contains('#'),
        playlist_path(video_id).len() == video_id.len() + 10,
{
    reveal_strlit("/vod/");
    reveal_strlit(".m3u8");
    let path = playlist_path(video_id);
    assert forall|i: int| 0 <= i < path.len() implies address::is_path_char(#[trigger] path[i]) by {
        if 5 <= i < 5 + video_id.len() {
            assert(path[i] == video_id[i - 5]);
            assert(text::is_digit(video_id[i - 5]));
        } else if i < 5 {
            assert(path[i] == "/vod/"@[i]);
        } else {
            assert(path[i] == ".m3u8"@[i - 5 - video_id.len()]);
        }
    }
    if path.contains('#') {
        let i = choose|i: int| 0 <= i < path.len() && path[i] == '#';
        assert(address::is_path_char(path[i]));
    }
    assert(path[1] == "/vod/"@[1]);
}

/// Builds the address of a recording's playlist.
pub fn build_vod_m3u8_url(video_id: &str, access: &PlaybackAccessToken) -> (address: String)
    requires
        is_video_id(video_id@),
        video_id@.len() <= MAX_VIDEO_ID,
    ensures
        playlist_address(video_id@, access@) == Ok::<Seq<char>, Seq<char>>(address@),
{
    let mut path = "/vod/".to_owned();
    path.append(video_id);
    path.append(".m3u8");
    let mut pairs: Vec<(String, String)> = Vec::new();
    pairs.push(address::pair("allow_source", "true"));
    pairs.push(address::pair("allow_audio_only", "true"));
    pairs.push(address::pair("platform", "web"));
    pairs.push(address::pair("player", "twitchweb"));
    pairs.push(address::pair("supported_codecs", "h264"));
    pairs.push(address::pair("playlist_include_framerate", "true"));
    pairs.push(address::pair("sig", access.signature.as_str()));
    pairs.push(address::pair("token", access.value.as_str()));
    proof {
        usher_base_is_plain();
        playlist_path_is_plain(video_id@);
        assert(address::pairs_view(pairs@) =~= playlist_pairs(access@));
    }
    match address::endpoint(TWITCH_USHER_BASE, path.as_str(), &pairs) {
        Ok(address) => address,
        Err(error) => error,
    }
}

/// Finds the address of a recording's playlist, once the response to the request for a
/// token is there.
pub fn resolve_vod_m3u8(video_id: &str, response: &str) -> (address: Result<
    String,
    TwitchVodResolveError,
>)
    requires
        video_id@.len() <= MAX_VIDEO_ID,
    ensures
        match address {
            Ok(address) => is_video_id(video_id@) && (access_in(response@) matches Ok(access)
                && playlist_address(video_id@, access) == Ok::<Seq<char>, Seq<char>>(address@)),
            Err(error) => if !is_video_id(video_id@) {
                error@ == ResolveFailure::InvalidVideoId(video_id@)
            } else {
                access_in(response@) == Err::<Access, ResolveFailure>(error@)
            },
        },
{
    match validate_video_id(video_id) {
        Ok(()) => {},
        Err(error) => {
            return Err(error);
        },
    }
    match parse_playback_access_token(response) {
        Ok(access) => Ok(build_vod_m3u8_url(video_id, &access)),
        Err(error) => Err(error),
    }
}

/// The identifiers that are resolved are those that name a Twitch recording.
pub proof fn recordings_are_the_twitch_videos(video_id: Seq<char>)
    ensures
        is_video_id(video_id) == (crate::video::platform_of(video_id) == Some(
            crate::video::VideoPlatform::Twitch,
        )),
{
}

/// A response with a token and its signature grants both, as they are; one without a token
/// says why, and one without either part grants nothing.
pub proof fn tokens_come_with_their_signature(
    token: JsonView,
    errors: Option<JsonView>,
    message: Option<JsonView>,
    value: Seq<char>,
    signature: Seq<char>,
    why: Seq<char>,
    items: Option<JsonView>,
)
    ensures
        token != JsonView::Null && value.len() > 0 && signature.len() > 0 ==> access_of(
            Some(token),
            errors,
            message,
            Some(JsonView::Text(value)),
            Some(JsonView::Text(signature)),
        ) == Ok::<Access, ResolveFailure>(Access { value, signature }),
        token != JsonView::Null && signature.len() == 0 ==> access_of(
            Some(token),
            errors,
            message,
            Some(JsonView::Text(value)),
            Some(JsonView::Text(signature)),
        ) is Err,
        token != JsonView::Null && value.len() == 0 ==> access_of(
            Some(token),
            errors,
            message,
            Some(JsonView::Text(value)),
            Some(JsonView::Text(signature)),
        ) is Err,
        access_of(
            None,
            errors,
            message,
            Some(JsonView::Text(value)),
            Some(JsonView::Text(signature)),
        ) is Err,
        access_of(
            Some(JsonView::Null),
            errors,
            message,
            Some(JsonView::Text(value)),
            Some(JsonView::Text(signature)),
        ) is Err,
        (errors matches Some(JsonView::Array(_))) && message == Some(JsonView::Text(why))
            ==> access_of(None, errors, message, items, items) == Err::<Access, ResolveFailure>(
            ResolveFailure::GraphQl(why),
        ),
{
}

/// The playlist of a recording is asked for under its identifier, with the token under its
/// name and the signature under its own.
pub proof fn playlists_are_asked_for_with_the_token(video_id: Seq<char>, access: Access)
    ensures
        playlist_pairs(access).contains(("token"@, access.value)),
        playlist_pairs(access).contains(("sig"@, access.signature)),
        playlist_pairs(access).contains(("allow_source"@, "true"@)),
        playlist_pairs(access).contains(("supported_codecs"@, "h264"@)),
        playlist_path(video_id) == seq!['/', 'v', 'o', 'd', '/'] + video_id + seq![
            '.',
            'm',
            '3',
            'u',
            '8',
        ],
{
    reveal_strlit("/vod/");
    reveal_strlit(".m3u8");
    assert("/vod/"@ =~= seq!['/', 'v', 'o', 'd', '/']);
    assert(".m3u8"@ =~= seq!['.', 'm', '3', 'u', '8']);
    let pairs = playlist_pairs(access);
    assert(pairs[7] == ("token"@, access.value));
    assert(pairs[6] == ("sig"@, access.signature));
    assert(pairs[0] == ("allow_source"@, "true"@));
    assert(pairs[4] == ("supported_codecs"@, "h264"@));
}

} // verus!
