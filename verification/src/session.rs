//! The session that is kept from one start of the player to the next.

use crate::json;
use crate::json::{JsonNode, JsonView};
use crate::persistence;
use crate::text;
use crate::time::Duration;
use crate::video;
use crate::video::{Video, VideoPlatform, VideoSource};
use vstd::prelude::*;
use vstd::string::*;

verus! {

pub const SESSION_VERSION: u64 = 1;

/// What was playing, and where.
#[derive(Debug, PartialEq, Eq)]
pub struct SessionState {
    pub source: VideoSource,
    pub position: Duration,
}

/// A session as values.
pub struct Session {
    pub source: Video,
    pub position: Duration,
}

impl View for SessionState {
    type V = Session;

    open spec fn view(&self) -> Session {
        Session { source: self.source@, position: self.position }
    }
}

impl Clone for SessionState {
    fn clone(&self) -> (state: Self)
        ensures
            state == *self,
    {
        SessionState { source: self.source.clone(), position: self.position }
    }
}

impl SessionState {
    /// The video, to be played from where it was left.
    pub fn restore_source(&self) -> (source: VideoSource)
        ensures
            source@ == (Video {
                start_time: if self.position.nanos == 0 { None } else { Some(self.position) },
                ..self.source@
            }),
    {
        let mut source = self.source.clone();
        source.start_time = if self.position.is_zero() { None } else { Some(self.position) };
        source
    }
}

/// The platform that a name stands for.
pub open spec fn platform_named(name: Seq<char>) -> Option<VideoPlatform> {
    if name == "youtube"@ {
        Some(VideoPlatform::YouTube)
    } else if name == "twitch"@ {
        Some(VideoPlatform::Twitch)
    } else {
        None
    }
}

/// The name of a platform.
pub open spec fn platform_name(platform: VideoPlatform) -> Seq<char> {
    match platform {
        VideoPlatform::YouTube => "youtube"@,
        VideoPlatform::Twitch => "twitch"@,
    }
}

/// The session that the values of a document make up, or what is wrong with them.
pub open spec fn session_of(
    root: Option<JsonView>,
    version: Option<JsonView>,
    platform: Option<JsonView>,
    video_id: Option<JsonView>,
    position_ms: Option<JsonView>,
) -> Result<Session, Seq<char>> {
    if root != Some(JsonView::Object) {
        Err("session root was not an object"@)
    } else if json::unsigned_of(version) is None {
        Err("session version was missing or invalid"@)
    } else if json::unsigned_of(version).unwrap() != SESSION_VERSION {
        Err("unsupported session version "@ + text::decimal(json::unsigned_of(version).unwrap() as nat))
    } else if json::text_of(platform) is None {
        Err("session platform was missing or invalid"@)
    } else if platform_named(json::text_of(platform).unwrap()) is None {
        Err("unknown session platform "@ + text::quoted_text(json::text_of(platform).unwrap()))
    } else if json::text_of(video_id) is None || json::text_of(video_id).unwrap().len() == 0 {
        Err("session video_id was missing or invalid"@)
    } else {
        let id = json::text_of(video_id).unwrap();
        match video::parsed_video(id) {
            Err(error) => Err(
                "invalid session video_id "@ + text::quoted_text(id) + ": "@ + error,
            ),
            Ok(source) => if Some(source.platform) != platform_named(
                json::text_of(platform).unwrap(),
            ) {
                Err("session platform did not match video_id"@)
            } else {
                match json::unsigned_of(position_ms) {
                    None => Err("session position_ms was missing or invalid"@),
                    Some(millis) => Ok(
                        Session { source, position: Duration::of_millis(millis) },
                    ),
                }
            },
        }
    }
}

/// Makes up the session from the values of a document.
pub fn read_session(
    root: Option<JsonNode>,
    version: Option<JsonNode>,
    platform: Option<JsonNode>,
    video_id: Option<JsonNode>,
    position_ms: Option<JsonNode>,
) -> (session: Result<SessionState, String>)
    ensures
        ({
            let expected = session_of(
                json::node_view(root),
                json::node_view(version),
                json::node_view(platform),
                json::node_view(video_id),
                json::node_view(position_ms),
            );
            match session {
                Ok(session) => expected == Ok::<Session, Seq<char>>(session@),
                Err(error) => expected == Err::<Session, Seq<char>>(error@),
            }
        }),
{
    match root {
        Some(JsonNode::Object) => {},
        _ => {
            return Err("session root was not an object".to_owned());
        },
    }
    let version: u64 = match version {
        Some(JsonNode::Number(Some(version), _)) => version,
        _ => {
            return Err("session version was missing or invalid".to_owned());
        },
    };
    if version != SESSION_VERSION {
        let mut error = "unsupported session version ".to_owned();
        text::push_decimal(&mut error, version);
        return Err(error);
    }
    let platform_text = match platform {
        Some(JsonNode::Text(text)) => text,
        _ => {
            return Err("session platform was missing or invalid".to_owned());
        },
    };
    let platform = if text::same(platform_text.as_str(), "youtube") {
        VideoPlatform::YouTube
    } else if text::same(platform_text.as_str(), "twitch") {
        VideoPlatform::Twitch
    } else {
        let mut error = "unknown session platform ".to_owned();
        error.append(text::quoted(platform_text.as_str()).as_str());
        return Err(error);
    };
    let video_id = match json::filled_text(video_id) {
        Some(text) => text,
        None => {
            return Err("session video_id was missing or invalid".to_owned());
        },
    };
    let source = match VideoSource::parse(video_id.as_str()) {
        Ok(source) => source,
        Err(error) => {
            let mut message = "invalid session video_id ".to_owned();
            message.append(text::quoted(video_id.as_str()).as_str());
            message.append(": ");
            message.append(error.as_str());
            return Err(message);
        },
    };
    if source.platform != platform {
        return Err("session platform did not match video_id".to_owned());
    }
    match position_ms {
        Some(JsonNode::Number(Some(millis), _)) => Ok(
            SessionState { source, position: Duration::from_millis(millis) },
        ),
        _ => Err("session position_ms was missing or invalid".to_owned()),
    }
}

/// The session that a document holds, or what is wrong with it.
pub open spec fn session_in(document: Seq<char>) -> Result<Session, Seq<char>> {
    match json::json_node_at(document, Seq::empty()) {
        Err(error) => Err(error),
        Ok(root) => session_of(
            root,
            json::found(document, "/version"@),
            json::found(document, "/platform"@),
            json::found(document, "/video_id"@),
            json::found(document, "/position_ms"@),
        ),
    }
}

/// Reads the session that a document holds.
pub fn parse_session(document: &str) -> (session: Result<SessionState, String>)
    ensures
        match session {
            Ok(session) => session_in(document@) == Ok::<Session, Seq<char>>(session@),
            Err(error) => session_in(document@) == Err::<Session, Seq<char>>(error@),
        },
{
    match json::root(document) {
        Err(error) => Err(error),
        Ok(root) => read_session(
            root,
            json::find(document, "/version"),
            json::find(document, "/platform"),
            json::find(document, "/video_id"),
            json::find(document, "/position_ms"),
        ),
    }
}

/// The milliseconds of a position, as far as they fit.
pub open spec fn position_millis(position: Duration) -> u64 {
    let millis = position.nanos / 1_000_000;
    if millis > u64::MAX { u64::MAX } else { millis as u64 }
}

/// The members of the document that a session is kept as.
pub open spec fn session_members(session: Session) -> Seq<(Seq<char>, JsonView)> {
    seq![
        (
            "version"@,
            JsonView::Number(Some(SESSION_VERSION), json::as_signed(SESSION_VERSION)),
        ),
        ("platform"@, JsonView::Text(platform_name(session.source.platform))),
        ("video_id"@, JsonView::Text(session.source.id)),
        (
            "position_ms"@,
            JsonView::Number(
                Some(position_millis(session.position)),
                json::as_signed(position_millis(session.position)),
            ),
        ),
    ]
}

/// Writes the document that a session is kept as. It reads back as the same video at the
/// same position, to the millisecond.
pub fn session_text(state: &SessionState) -> (document: String)
    ensures
        document@ == json::json_pretty(session_members(state@)).push('\n'),
        json::reads_back(document@, session_members(state@)),
{
    let platform = match state.source.platform {
        VideoPlatform::YouTube => "youtube",
        VideoPlatform::Twitch => "twitch",
    };
    let millis: u128 = state.position.as_millis();
    let position_ms: u64 = if millis > u64::MAX as u128 { u64::MAX } else { millis as u64 };
    let mut members: Vec<(String, JsonNode)> = Vec::new();
    members.push(json::number_member("version", SESSION_VERSION));
    members.push(json::text_member("platform", platform));
    members.push(json::text_member("video_id", state.source.id.as_str()));
    members.push(json::number_member("position_ms", position_ms));
    assert(json::members_view(members@) =~= session_members(state@));
    let mut document = json::json_object_text(&members);
    document.push('\n');
    document
}

/// What a document reads as that was written for a session: the same video and position,
/// to the millisecond, as long as its identifier names it.
pub proof fn written_session_reads_back(session: Session, document: Seq<char>)
    requires
        json::reads_back(document, session_members(session)),
        video::platform_of(session.source.id) == Some(session.source.platform),
    ensures
        session_in(document) == Ok::<Session, Seq<char>>(
            Session {
                source: Video { start_time: None, ..session.source },
                position: Duration::of_millis(position_millis(session.position)),
            },
        ),
{
    let members = session_members(session);
    reveal_strlit("version");
    reveal_strlit("platform");
    reveal_strlit("video_id");
    reveal_strlit("position_ms");
    reveal_strlit("/version");
    reveal_strlit("/platform");
    reveal_strlit("/video_id");
    reveal_strlit("/position_ms");
    reveal_strlit("youtube");
    reveal_strlit("twitch");
    assert("youtube"@.len() != "twitch"@.len());
    assert(members[0].0 == "version"@ && members[1].0 == "platform"@ && members[2].0 == "video_id"@
        && members[3].0 == "position_ms"@);
    assert("version"@[0] == 'v' && "platform"@[0] == 'p' && "video_id"@[5] == '_'
        && "position_ms"@[1] == 'o' && "platform"@[1] == 'l' && "version"@[5] == 'o');
    assert("version"@.len() == 7 && "platform"@.len() == 8 && "video_id"@.len() == 8
        && "position_ms"@.len() == 11);
    assert("platform"@ != "video_id"@);
    assert(seq!['/'] + "version"@ =~= "/version"@);
    assert(seq!['/'] + "platform"@ =~= "/platform"@);
    assert(seq!['/'] + "video_id"@ =~= "/video_id"@);
    assert(seq!['/'] + "position_ms"@ =~= "/position_ms"@);
    assert(json::is_plain_key("version"@));
    assert(json::is_plain_key("platform"@));
    assert(json::is_plain_key("video_id"@));
    assert(json::is_plain_key("position_ms"@));
    assert(json::found(document, "/version"@) == Some(members[0].1));
    assert(json::found(document, "/platform"@) == Some(members[1].1));
    assert(json::found(document, "/video_id"@) == Some(members[2].1));
    assert(json::found(document, "/position_ms"@) == Some(members[3].1));
    video::identifiers_name_themselves(session.source.id);
}

/// Where the session is kept.
#[derive(Debug, PartialEq, Eq)]
pub struct SessionStore {
    path: String,
}

/// The path of a store, where there is one.
pub open spec fn store_path(store: Option<SessionStore>) -> Option<Seq<char>> {
    match store {
        Some(store) => Some(store.location()),
        None => None,
    }
}

/// The session in what was read of the file at `path`, or what is wrong with it.
pub open spec fn stored_session(
    path: Seq<char>,
    read: Result<Option<Seq<char>>, Seq<char>>,
) -> Result<Option<Session>, Seq<char>> {
    match read {
        Ok(None) => Ok(None),
        Ok(Some(document)) => match session_in(document) {
            Ok(session) => Ok(Some(session)),
            Err(error) => Err("parse session "@ + path + ": "@ + error),
        },
        Err(error) => Err("read session "@ + path + ": "@ + error),
    }
}

impl SessionStore {
    pub closed spec fn location(self) -> Seq<char> {
        self.path@
    }

    pub fn new(path: String) -> (store: Self)
        ensures
            store.location() == path@,
    {
        SessionStore { path }
    }

    pub fn path(&self) -> (path: &str)
        ensures
            path@ == self.location(),
    {
        self.path.as_str()
    }

    /// The session in what was read from the store's file: none if there was no file.
    pub fn load(&self, read: Result<Option<&str>, &str>) -> (session: Result<
        Option<SessionState>,
        String,
    >)
        ensures
            match session {
                Ok(Some(session)) => stored_session(self.location(), persistence::read_view(read))
                    == Ok::<Option<Session>, Seq<char>>(Some(session@)),
                Ok(None) => stored_session(self.location(), persistence::read_view(read)) == Ok::<
                    Option<Session>,
                    Seq<char>,
                >(None),
                Err(message) => stored_session(self.location(), persistence::read_view(read))
                    == Err::<Option<Session>, Seq<char>>(message@),
            },
    {
        let (failed, error) = match read {
            Ok(None) => {
                return Ok(None);
            },
            Ok(Some(document)) => match parse_session(document) {
                Ok(session) => {
                    return Ok(Some(session));
                },
                Err(error) => ("parse session ", error),
            },
            Err(error) => ("read session ", error.to_owned()),
        };
        let mut message = failed.to_owned();
        message.append(self.path.as_str());
        message.append(": ");
        message.append(error.as_str());
        Err(message)
    }
}

/// A session is found under its names: the first version, the platform, the video and where
/// it stands in milliseconds.
pub proof fn sessions_stand_under_their_names(
    document: Seq<char>,
    id: Seq<char>,
    version: u64,
    millis: u64,
    signed: Option<i64>,
)
    requires
        json::json_node_at(document, Seq::empty()) == Ok::<Option<JsonView>, Seq<char>>(
            Some(JsonView::Object),
        ),
        json::found(document, "/version"@) == Some(JsonView::Number(Some(version), signed)),
        json::found(document, "/platform"@) == Some(JsonView::Text("twitch"@)),
        json::found(document, "/video_id"@) == Some(JsonView::Text(id)),
        json::found(document, "/position_ms"@) == Some(JsonView::Number(Some(millis), signed)),
        video::platform_of(id) == Some(VideoPlatform::Twitch),
    ensures
        version == 1 ==> (session_in(document) matches Ok(session) && session.source.id == id
            && session.source.platform == VideoPlatform::Twitch && session.source.start_time is None
            && session.position.nanos == millis * 1_000_000),
        version != 1 ==> session_in(document) is Err,
{
    reveal_strlit("twitch");
    reveal_strlit("youtube");
    assert("twitch"@.len() != "youtube"@.len());
    video::identifiers_name_themselves(id);
}

/// A session is written as the first version, with the video and where it stands in whole
/// milliseconds.
pub proof fn sessions_are_written_under_their_names(session: Session, millis: u64)
    requires
        session.position.nanos < 18_446_744_073_709_551_616_000_000,
        millis * 1_000_000 <= session.position.nanos < (millis + 1) * 1_000_000,
    ensures
        session_members(session).contains(
            ("version"@, JsonView::Number(Some(1u64), Some(1i64))),
        ),
        session_members(session).contains(("video_id"@, JsonView::Text(session.source.id))),
        session.source.platform == VideoPlatform::Twitch ==> session_members(session).contains(
            ("platform"@, JsonView::Text("twitch"@)),
        ),
        session.source.platform == VideoPlatform::YouTube ==> session_members(session).contains(
            ("platform"@, JsonView::Text("youtube"@)),
        ),
        millis <= i64::MAX ==> session_members(session).contains(
            ("position_ms"@, JsonView::Number(Some(millis), Some(millis as i64))),
        ),
{
    let members = session_members(session);
    assert(position_millis(session.position) == millis);
    assert(members[0] == ("version"@, JsonView::Number(Some(1u64), Some(1i64))));
    assert(members[1] == ("platform"@, JsonView::Text(platform_name(session.source.platform))));
    assert(members[2] == ("video_id"@, JsonView::Text(session.source.id)));
    assert(members[3].0 == "position_ms"@);
    if millis <= i64::MAX {
        assert(members[3] == (
            "position_ms"@,
            JsonView::Number(Some(millis), Some(millis as i64)),
        ));
    }
}

/// Without a file there is no session; with one, it is the one in it, and what cannot be read
/// is told.
pub proof fn stored_session_is_the_one_in_the_file(
    path: Seq<char>,
    document: Seq<char>,
    error: Seq<char>,
)
    ensures
        stored_session(path, Ok(None)) == Ok::<Option<Session>, Seq<char>>(None),
        session_in(document) matches Ok(session) ==> stored_session(path, Ok(Some(document)))
            == Ok::<Option<Session>, Seq<char>>(Some(session)),
        session_in(document) is Err ==> stored_session(path, Ok(Some(document))) is Err,
        stored_session(path, Err(error)) is Err,
{
}

} // verus!
