//! The service that keeps positions on a server.

use crate::address;
use crate::double;
use crate::json;
use crate::json::{JsonNode, JsonView};
use crate::services;
use crate::services::{Saved, SavedPosition};
use crate::text;
use crate::time::Duration;
use crate::video;
use crate::video::{Video, VideoSource};
use chrono::DateTime;
use vstd::prelude::*;
use vstd::string::*;

verus! {

pub const DEFAULT_SERVER_BASE: &'static str = "https://sanctuaryplayer.robdh.uk/";

pub const MAX_POSITIONS_RESPONSE_BYTES: u64 = 262_144;

/// How many characters the address of a server may have.
pub const MAX_SERVER_BASE: usize = 0x800_0000;

/// The server that positions are kept on.
#[derive(Debug, PartialEq, Eq)]
pub struct RemotePositionService {
    base_url: String,
}

/// What an address is asked for with, or why it cannot be built.
pub open spec fn request_address(
    base: Seq<char>,
    path: Seq<char>,
    pairs: Seq<(Seq<char>, Seq<char>)>,
) -> Result<Seq<char>, Seq<char>> {
    match address::address_with_query(base, path, pairs) {
        Ok(address) => Ok(address),
        Err(error) => Err("build saved-position server URL: "@ + error),
    }
}

/// A position in whole seconds, half a second and more counting as one, as far as they fit.
pub open spec fn rounded_seconds(position: Duration) -> nat {
    let (digits, over) = double::seconds_of(position.nanos as nat);
    let seconds = (2 * digits + over) / (2 * over);
    if seconds > i64::MAX { i64::MAX as nat } else { seconds }
}

/// The address at which the positions of a user are asked for.
pub open spec fn positions_address(base: Seq<char>, user_id: Seq<char>) -> Result<
    Seq<char>,
    Seq<char>,
> {
    request_address(base, "get-saved-positions"@, seq![("user_id"@, user_id)])
}

/// The address at which a position is saved.
pub open spec fn save_address(
    base: Seq<char>,
    user_id: Seq<char>,
    device_id: Seq<char>,
    video_id: Seq<char>,
    position: Duration,
) -> Result<Seq<char>, Seq<char>> {
    request_address(
        base,
        "save-position"@,
        seq![
            ("user_id"@, user_id),
            ("device_id"@, device_id),
            ("video_id"@, video_id),
            ("position"@, text::decimal(rounded_seconds(position))),
        ],
    )
}

proof fn paths_are_plain()
    ensures
        address::is_plain_path("get-saved-positions"@),
        !"get-saved-positions"@.contains('#'),
        "get-saved-positions"@.len() == 19,
        address::is_plain_path("save-position"@),
        !"save-position"@.contains('#'),
        "save-position"@.len() == 13,
{
    reveal_strlit("get-saved-positions");
    reveal_strlit("save-position");
}

proof fn default_base_is_plain()
    ensures
        address::is_plain_base(DEFAULT_SERVER_BASE@),
        DEFAULT_SERVER_BASE@.len() == 33,
{
    reveal_strlit("https://sanctuaryplayer.robdh.uk/");
    reveal_strlit("https://");
    reveal_strlit("/");
    reveal_strlit("sanctuaryplayer.robdh.uk");
    let host = "sanctuaryplayer.robdh.uk"@;
    assert(DEFAULT_SERVER_BASE@ =~= "https://"@ + host + "/"@);
    assert(address::is_plain_host(host));
}

impl RemotePositionService {
    /// The address of the server.
    pub closed spec fn base(self) -> Seq<char> {
        self.base_url@
    }

    #[verifier::type_invariant]
    spec fn base_fits(self) -> bool {
        self.base_url@.len() <= MAX_SERVER_BASE
    }

    /// The server that is used where no other is named.
    pub fn new() -> (service: Self)
        ensures
            service.base() == DEFAULT_SERVER_BASE@,
    {
        proof {
            default_base_is_plain();
        }
        RemotePositionService { base_url: DEFAULT_SERVER_BASE.to_owned() }
    }

    pub fn with_base_url(base_url: String) -> (service: Self)
        requires
            base_url@.len() <= MAX_SERVER_BASE,
        ensures
            service.base() == base_url@,
    {
        RemotePositionService { base_url }
    }

    fn endpoint(&self, path: &str, pairs: &Vec<(String, String)>) -> (address: Result<
        String,
        String,
    >)
        requires
            address::is_plain_path(path@),
            !path@.contains('#'),
            path@.len() <= 100,
        ensures
            match address {
                Ok(address) => request_address(self.base(), path@, address::pairs_view(pairs@))
                    == Ok::<Seq<char>, Seq<char>>(address@),
                Err(error) => request_address(self.base(), path@, address::pairs_view(pairs@))
                    == Err::<Seq<char>, Seq<char>>(error@),
            },
            address::is_plain_base(self.base()) ==> address is Ok,
    {
        proof {
            use_type_invariant(self);
        }
        match address::endpoint(self.base_url.as_str(), path, pairs) {
            Ok(address) => Ok(address),
            Err(error) => {
                let mut message = "build saved-position server URL: ".to_owned();
                message.append(error.as_str());
                Err(message)
            },
        }
    }

    /// Builds the address at which the positions of a user are asked for.
    pub fn positions_url(&self, user_id: &str) -> (address: Result<String, String>)
        ensures
            match address {
                Ok(address) => positions_address(self.base(), user_id@) == Ok::<
                    Seq<char>,
                    Seq<char>,
                >(address@),
                Err(error) => positions_address(self.base(), user_id@) == Err::<
                    Seq<char>,
                    Seq<char>,
                >(error@),
            },
            address::is_plain_base(self.base()) ==> address is Ok,
    {
        let mut pairs: Vec<(String, String)> = Vec::new();
        pairs.push(address::pair("user_id", user_id));
        proof {
            paths_are_plain();
            assert(address::pairs_view(pairs@) =~= seq![("user_id"@, user_id@)]);
        }
        self.endpoint("get-saved-positions", &pairs)
    }

    /// Builds the address at which a position is saved.
    pub fn save_url(
        &self,
        user_id: &str,
        device_id: &str,
        source: &VideoSource,
        position: Duration,
    ) -> (address: Result<String, String>)
        ensures
            ({
                let expected = save_address(
                    self.base(),
                    user_id@,
                    device_id@,
                    source.id@,
                    position,
                );
                match address {
                    Ok(address) => expected == Ok::<Seq<char>, Seq<char>>(address@),
                    Err(error) => expected == Err::<Seq<char>, Seq<char>>(error@),
                }
            }),
            address::is_plain_base(self.base()) ==> address is Ok,
    {
        let amount = double::seconds(position);
        let seconds: u128 = (2 * amount.digits + amount.over) / (2 * amount.over);
        let rounded: u64 = if seconds > i64::MAX as u128 { i64::MAX as u64 } else { seconds as u64 };
        assert(rounded == rounded_seconds(position));
        let mut digits = String::new();
        text::push_decimal(&mut digits, rounded);
        let mut pairs: Vec<(String, String)> = Vec::new();
        pairs.push(address::pair("user_id", user_id));
        pairs.push(address::pair("device_id", device_id));
        pairs.push(address::pair("video_id", source.id.as_str()));
        pairs.push(address::pair("position", digits.as_str()));
        proof {
            paths_are_plain();
            assert(digits@ =~= text::decimal(rounded_seconds(position)));
            assert(address::pairs_view(pairs@) =~= seq![
                ("user_id"@, user_id@),
                ("device_id"@, device_id@),
                ("video_id"@, source.id@),
                ("position"@, text::decimal(rounded_seconds(position))),
            ]);
        }
        self.endpoint("save-position", &pairs)
    }
}

impl Default for RemotePositionService {
    fn default() -> (service: Self)
        ensures
            service.base() == DEFAULT_SERVER_BASE@,
    {
        RemotePositionService::new()
    }
}

/// The default server can always be addressed.
pub proof fn default_server_is_addressable()
    ensures
        address::is_plain_base(DEFAULT_SERVER_BASE@),
{
    default_base_is_plain();
}

/// The milliseconds from the start of 1970 to the point in time that `value` names, none if
/// it names none.
pub uninterp spec fn rfc3339_millis_of(value: Seq<char>) -> Option<i64>;

/// `DateTime::parse_from_rfc3339` reads a point in time, and `timestamp_millis` counts it
/// in milliseconds; what comes out depends on the text alone.
#[verifier::external_body]
fn rfc3339_millis(value: &str) -> (millis: Option<i64>)
    ensures
        millis == rfc3339_millis_of(value@),
{
    DateTime::parse_from_rfc3339(value).ok().map(|time| time.timestamp_millis())
}

/// How long ago a point in time was; nothing for one that is still to come. `now` is how
/// long ago 1970 began, none where the clock stands before that.
pub open spec fn age_of(millis: Option<i64>, now: Option<Duration>) -> Option<Duration> {
    match (millis, now) {
        (Some(millis), Some(now)) => {
            let age = now.nanos / 1_000_000 - millis;
            Some(
                if age <= 0 {
                    Duration { nanos: 0 }
                } else if age > u64::MAX {
                    Duration::of_millis(u64::MAX)
                } else {
                    Duration::of_millis(age as u64)
                },
            )
        },
        _ => None,
    }
}

/// How long ago a point in time was.
pub fn age_since(millis: Option<i64>, now: Option<Duration>) -> (age: Option<Duration>)
    ensures
        age == age_of(millis, now),
{
    match (millis, now) {
        (Some(millis), Some(now)) => {
            let now_millis: u128 = now.as_millis();
            let age: i128 = now_millis as i128 - millis as i128;
            if age <= 0 {
                Some(Duration::zero())
            } else if age > u64::MAX as i128 {
                Some(Duration::from_millis(u64::MAX))
            } else {
                Some(Duration::from_millis(age as u64))
            }
        },
        _ => None,
    }
}

/// How long ago the point in time was that `value` names.
pub fn age_from_rfc3339(value: &str, now: Option<Duration>) -> (age: Option<Duration>)
    ensures
        age == age_of(rfc3339_millis_of(value@), now),
{
    age_since(rfc3339_millis(value), now)
}

/// The text that a value is, or that it is none.
pub open spec fn required_text(node: Option<JsonView>, field: Seq<char>) -> Result<
    Seq<char>,
    Seq<char>,
> {
    match json::text_of(node) {
        Some(text) => if text.len() > 0 {
            Ok(text)
        } else {
            Err(field + " was missing or empty"@)
        },
        None => Err(field + " was missing or empty"@),
    }
}

/// How long ago the point in time was that a value names, or that it names none.
pub open spec fn required_age_of(
    node: Option<JsonView>,
    field: Seq<char>,
    now: Option<Duration>,
) -> Result<Duration, Seq<char>> {
    match required_text(node, field) {
        Err(error) => Err(error),
        Ok(text) => match age_of(rfc3339_millis_of(text), now) {
            Some(age) => Ok(age),
            None => Err(field + " was not RFC3339"@),
        },
    }
}

/// How long ago the point in time was that a value names, if it names one.
pub open spec fn release_age_of(node: Option<JsonView>, now: Option<Duration>) -> Option<
    Duration,
> {
    match json::text_of(node) {
        Some(text) => age_of(rfc3339_millis_of(text), now),
        None => None,
    }
}

/// The values of a row.
pub struct Row {
    pub root: Option<JsonNode>,
    pub video_id: Option<JsonNode>,
    pub device_id: Option<JsonNode>,
    pub position: Option<JsonNode>,
    pub modified_time: Option<JsonNode>,
    pub video_title: Option<JsonNode>,
    pub video_release_date: Option<JsonNode>,
}

/// The values of a row, as values.
pub struct RowView {
    pub root: Option<JsonView>,
    pub video_id: Option<JsonView>,
    pub device_id: Option<JsonView>,
    pub position: Option<JsonView>,
    pub modified_time: Option<JsonView>,
    pub video_title: Option<JsonView>,
    pub video_release_date: Option<JsonView>,
}

impl View for Row {
    type V = RowView;

    open spec fn view(&self) -> RowView {
        RowView {
            root: json::node_view(self.root),
            video_id: json::node_view(self.video_id),
            device_id: json::node_view(self.device_id),
            position: json::node_view(self.position),
            modified_time: json::node_view(self.modified_time),
            video_title: json::node_view(self.video_title),
            video_release_date: json::node_view(self.video_release_date),
        }
    }
}

/// The position that the values of a row make up, or what is wrong with them.
pub open spec fn position_of(row: RowView, now: Option<Duration>) -> Result<Saved, Seq<char>> {
    if row.root != Some(JsonView::Object) {
        Err("row was not an object"@)
    } else {
        match required_text(row.video_id, "video_id"@) {
            Err(error) => Err(error),
            Ok(video_id) => match video::parsed_video(video_id) {
                Err(error) => Err(
                    "invalid video_id "@ + text::quoted_text(video_id) + ": "@ + error,
                ),
                Ok(source) => position_of_video(row, source, now),
            },
        }
    }
}

/// The position that the values of a row for `source` make up, or what is wrong with them.
pub open spec fn position_of_video(row: RowView, source: Video, now: Option<Duration>) -> Result<
    Saved,
    Seq<char>,
> {
    match required_text(row.device_id, "device_id"@) {
        Err(error) => Err(error),
        Ok(device_id) => match json::signed_of(row.position) {
            None => Err("position was not an integer"@),
            Some(seconds) => if seconds < 0 {
                Err("position was negative"@)
            } else {
                match required_age_of(row.modified_time, "modified_time"@, now) {
                    Err(error) => Err(error),
                    Ok(modified_age) => Ok(
                        Saved {
                            source,
                            device_id,
                            position: Duration::of_secs(seconds as u64),
                            modified_age,
                            title: json::text_of(row.video_title),
                            release_age: release_age_of(row.video_release_date, now),
                        },
                    ),
                }
            },
        },
    }
}

/// The text that a value is, or that it is none.
pub fn required_string(node: Option<JsonNode>, field: &str) -> (text: Result<String, String>)
    ensures
        match text {
            Ok(text) => required_text(json::node_view(node), field@) == Ok::<Seq<char>, Seq<char>>(
                text@,
            ),
            Err(error) => required_text(json::node_view(node), field@) == Err::<
                Seq<char>,
                Seq<char>,
            >(error@),
        },
{
    match json::filled_text(node) {
        Some(text) => Ok(text),
        None => {
            let mut error = field.to_owned();
            error.append(" was missing or empty");
            Err(error)
        },
    }
}

/// How long ago the point in time was that a value names, or that it names none.
pub fn required_age(node: Option<JsonNode>, field: &str, now: Option<Duration>) -> (age: Result<
    Duration,
    String,
>)
    ensures
        match age {
            Ok(age) => required_age_of(json::node_view(node), field@, now) == Ok::<
                Duration,
                Seq<char>,
            >(age),
            Err(error) => required_age_of(json::node_view(node), field@, now) == Err::<
                Duration,
                Seq<char>,
            >(error@),
        },
{
    let timestamp = match required_string(node, field) {
        Ok(text) => text,
        Err(error) => {
            return Err(error);
        },
    };
    match age_from_rfc3339(timestamp.as_str(), now) {
        Some(age) => Ok(age),
        None => {
            let mut error = field.to_owned();
            error.append(" was not RFC3339");
            Err(error)
        },
    }
}

fn read_position_of_video(
    device_id: Option<JsonNode>,
    position: Option<JsonNode>,
    modified_time: Option<JsonNode>,
    video_title: Option<JsonNode>,
    video_release_date: Option<JsonNode>,
    source: VideoSource,
    now: Option<Duration>,
    Ghost(row): Ghost<RowView>,
) -> (saved: Result<SavedPosition, String>)
    requires
        row.device_id == json::node_view(device_id),
        row.position == json::node_view(position),
        row.modified_time == json::node_view(modified_time),
        row.video_title == json::node_view(video_title),
        row.video_release_date == json::node_view(video_release_date),
    ensures
        match saved {
            Ok(saved) => position_of_video(row, source@, now) == Ok::<Saved, Seq<char>>(saved@),
            Err(error) => position_of_video(row, source@, now) == Err::<Saved, Seq<char>>(error@),
        },
{
    let device_id = match required_string(device_id, "device_id") {
        Ok(text) => text,
        Err(error) => {
            return Err(error);
        },
    };
    let seconds: i64 = match position {
        Some(JsonNode::Number(_, Some(seconds))) => seconds,
        _ => {
            return Err("position was not an integer".to_owned());
        },
    };
    if seconds < 0 {
        return Err("position was negative".to_owned());
    }
    let modified_age = match required_age(modified_time, "modified_time", now) {
        Ok(age) => age,
        Err(error) => {
            return Err(error);
        },
    };
    let title = match video_title {
        Some(JsonNode::Text(text)) => Some(text),
        _ => None,
    };
    let release_age = match video_release_date {
        Some(JsonNode::Text(text)) => age_from_rfc3339(text.as_str(), now),
        _ => None,
    };
    Ok(
        SavedPosition {
            source,
            device_id,
            position: Duration::from_secs(seconds as u64),
            modified_age,
            title,
            release_age,
        },
    )
}

/// Makes up the position from the values of a row.
pub fn read_position(row: Row, now: Option<Duration>) -> (saved: Result<SavedPosition, String>)
    ensures
        match saved {
            Ok(saved) => position_of(row@, now) == Ok::<Saved, Seq<char>>(saved@),
            Err(error) => position_of(row@, now) == Err::<Saved, Seq<char>>(error@),
        },
{
    let ghost view = row@;
    match row.root {
        Some(JsonNode::Object) => {},
        _ => {
            return Err("row was not an object".to_owned());
        },
    }
    let video_id = match required_string(row.video_id, "video_id") {
        Ok(text) => text,
        Err(error) => {
            return Err(error);
        },
    };
    let source = match VideoSource::parse(video_id.as_str()) {
        Ok(source) => source,
        Err(error) => {
            let mut message = "invalid video_id ".to_owned();
            message.append(text::quoted(video_id.as_str()).as_str());
            message.append(": ");
            message.append(error.as_str());
            return Err(message);
        },
    };
    read_position_of_video(
        row.device_id,
        row.position,
        row.modified_time,
        row.video_title,
        row.video_release_date,
        source,
        now,
        Ghost(view),
    )
}

/// The values of the row that a document is.
pub open spec fn row_in(document: Seq<char>) -> RowView {
    RowView {
        root: json::found(document, Seq::empty()),
        video_id: json::found(document, "/video_id"@),
        device_id: json::found(document, "/device_id"@),
        position: json::found(document, "/position"@),
        modified_time: json::found(document, "/modified_time"@),
        video_title: json::found(document, "/video_title"@),
        video_release_date: json::found(document, "/video_release_date"@),
    }
}

/// Reads the position that a row holds.
pub fn parse_position(document: &str, now: Option<Duration>) -> (saved: Result<
    SavedPosition,
    String,
>)
    ensures
        match saved {
            Ok(saved) => position_of(row_in(document@), now) == Ok::<Saved, Seq<char>>(saved@),
            Err(error) => position_of(row_in(document@), now) == Err::<Saved, Seq<char>>(error@),
        },
{
    let root = match json::root(document) {
        Ok(root) => root,
        Err(_) => None,
    };
    let row = Row {
        root,
        video_id: json::find(document, "/video_id"),
        device_id: json::find(document, "/device_id"),
        position: json::find(document, "/position"),
        modified_time: json::find(document, "/modified_time"),
        video_title: json::find(document, "/video_title"),
        video_release_date: json::find(document, "/video_release_date"),
    };
    assert(row@ == row_in(document@));
    read_position(row, now)
}

/// The positions among the first `n` rows, in order.
pub open spec fn positions_in(rows: Seq<Seq<char>>, now: Option<Duration>, n: int) -> Seq<Saved>
    decreases n,
{
    if n <= 0 {
        Seq::empty()
    } else {
        match position_of(row_in(rows[n - 1]), now) {
            Ok(saved) => positions_in(rows, now, n - 1).push(saved),
            Err(_) => positions_in(rows, now, n - 1),
        }
    }
}

/// The rows among the first `n` that hold no position, in order, each with its number and
/// what is wrong with it.
pub open spec fn skipped_in(rows: Seq<Seq<char>>, now: Option<Duration>, n: int) -> Seq<
    (int, Seq<char>),
>
    decreases n,
{
    if n <= 0 {
        Seq::empty()
    } else {
        match position_of(row_in(rows[n - 1]), now) {
            Ok(_) => skipped_in(rows, now, n - 1),
            Err(error) => skipped_in(rows, now, n - 1).push((n - 1, error)),
        }
    }
}

/// The positions that the rows of a response hold, and the rows that hold none.
#[derive(Debug, PartialEq, Eq)]
pub struct ParsedPositions {
    pub positions: Vec<SavedPosition>,
    pub skipped: Vec<(usize, String)>,
}

/// Skipped rows as values.
pub open spec fn skipped_view(skipped: Seq<(usize, String)>) -> Seq<(int, Seq<char>)> {
    Seq::new(skipped.len(), |i: int| (skipped[i].0 as int, skipped[i].1@))
}

/// Reads the positions that rows hold.
pub fn read_positions(rows: &Vec<String>, now: Option<Duration>) -> (parsed: ParsedPositions)
    ensures
        services::saved_view(parsed.positions@) == positions_in(
            json::rows_view(rows@),
            now,
            rows@.len() as int,
        ),
        skipped_view(parsed.skipped@) == skipped_in(
            json::rows_view(rows@),
            now,
            rows@.len() as int,
        ),
{
    let ghost views = json::rows_view(rows@);
    let mut positions: Vec<SavedPosition> = Vec::new();
    let mut skipped: Vec<(usize, String)> = Vec::new();
    let mut i: usize = 0;
    proof {
        assert(services::saved_view(positions@) =~= positions_in(views, now, 0));
        assert(skipped_view(skipped@) =~= skipped_in(views, now, 0));
    }
    while i < rows.len()
        invariant
            i <= rows@.len(),
            views == json::rows_view(rows@),
            services::saved_view(positions@) == positions_in(views, now, i as int),
            skipped_view(skipped@) == skipped_in(views, now, i as int),
        decreases rows@.len() - i,
    {
        let ghost before = (positions@, skipped@);
        match parse_position(rows[i].as_str(), now) {
            Ok(saved) => {
                positions.push(saved);
                assert(services::saved_view(positions@) =~= services::saved_view(before.0).push(
                    saved@,
                ));
            },
            Err(error) => {
                skipped.push((i, error));
                assert(skipped_view(skipped@) =~= skipped_view(before.1).push((i as int, error@)));
            },
        }
        i += 1;
    }
    ParsedPositions { positions, skipped }
}

/// Reads the positions that a response holds.
pub fn parse_positions(body: &str, now: Option<Duration>) -> (parsed: Result<
    ParsedPositions,
    String,
>)
    ensures
        match json::json_rows_of(body@) {
            Err(error) => parsed matches Err(message) && message@
                == "parse saved-position response: "@ + error,
            Ok(None) => parsed matches Err(message) && message@
                == "saved-position response was not an array"@,
            Ok(Some(rows)) => {
                &&& parsed is Ok
                &&& services::saved_view(parsed->Ok_0.positions@) == positions_in(
                    rows,
                    now,
                    rows.len() as int,
                )
                &&& skipped_view(parsed->Ok_0.skipped@) == skipped_in(rows, now, rows.len() as int)
            },
        },
{
    match json::json_rows(body) {
        Err(error) => {
            let mut message = "parse saved-position response: ".to_owned();
            message.append(error.as_str());
            Err(message)
        },
        Ok(None) => Err("saved-position response was not an array".to_owned()),
        Ok(Some(rows)) => Ok(read_positions(&rows, now)),
    }
}

/// Every row is either read or skipped.
pub proof fn every_row_is_accounted_for(rows: Seq<Seq<char>>, now: Option<Duration>, n: int)
    requires
        0 <= n <= rows.len(),
    ensures
        positions_in(rows, now, n).len() + skipped_in(rows, now, n).len() == n,
    decreases n,
{
    if n > 0 {
        every_row_is_accounted_for(rows, now, n - 1);
    }
}

/// A position of whole seconds is sent as that number of seconds, with who sends it, from
/// which device and of which video; positions are fetched for who asks for them.
pub proof fn positions_are_sent_in_seconds(
    base: Seq<char>,
    user_id: Seq<char>,
    device_id: Seq<char>,
    video_id: Seq<char>,
    seconds: u64,
    address: Seq<char>,
)
    requires
        seconds < 9_007_199_254_740_992,
    ensures
        address::address_with_query(
            base,
            "save-position"@,
            seq![
                ("user_id"@, user_id),
                ("device_id"@, device_id),
                ("video_id"@, video_id),
                ("position"@, text::decimal(seconds as nat)),
            ],
        ) == Ok::<Seq<char>, Seq<char>>(address) ==> save_address(
            base,
            user_id,
            device_id,
            video_id,
            Duration { nanos: (seconds * 1_000_000_000) as u128 },
        ) == Ok::<Seq<char>, Seq<char>>(address),
        address::address_with_query(
            base,
            "get-saved-positions"@,
            seq![("user_id"@, user_id)],
        ) == Ok::<Seq<char>, Seq<char>>(address) ==> positions_address(base, user_id) == Ok::<
            Seq<char>,
            Seq<char>,
        >(address),
{
    double::whole_seconds_are_exact(seconds as nat);
    double::seconds_are_over_something((seconds * 1_000_000_000) as nat);
    let (digits, over) = double::seconds_of((seconds * 1_000_000_000) as nat);
    let q = (2 * digits + over) / (2 * over);
    let s = seconds as int;
    assert(q == s) by {
        assert(2 * digits + over == s * (2 * over) + over) by (nonlinear_arith)
            requires
                digits == s * over,
        ;
        vstd::arithmetic::div_mod::lemma_fundamental_div_mod_converse(
            (2 * digits + over) as int,
            (2 * over) as int,
            s,
            over as int,
        );
    }
}

/// The age of what was published is the time since, in whole milliseconds, and nothing for
/// what is yet to come.
pub proof fn ages_count_from_the_publication(millis: i64, now: Duration)
    requires
        now.nanos < 18_446_744_073_709_551_616_000_000_000,
    ensures
        age_of(None, Some(now)) is None,
        age_of(Some(millis), None) is None,
        age_of(Some(millis), Some(now)) matches Some(age) && {
            let since = now.nanos / 1_000_000 - millis;
            &&& since <= 0 ==> age.nanos == 0
            &&& 0 < since <= u64::MAX ==> age.nanos == since * 1_000_000
        },
{
}

/// A row with a video, a device, a position in seconds and the time it was saved at is a
/// position; its title and the age of the video are there if they are known.
pub proof fn complete_rows_are_positions(
    row: RowView,
    video_id: Seq<char>,
    device_id: Seq<char>,
    seconds: i64,
    unsigned: Option<u64>,
    saved_at: Seq<char>,
    millis: i64,
    now: Duration,
)
    requires
        row.root == Some(JsonView::Object),
        row.video_id == Some(JsonView::Text(video_id)),
        video::platform_of(video_id) is Some,
        row.device_id == Some(JsonView::Text(device_id)),
        device_id.len() > 0,
        row.position == Some(JsonView::Number(unsigned, Some(seconds))),
        row.modified_time == Some(JsonView::Text(saved_at)),
        saved_at.len() > 0,
        rfc3339_millis_of(saved_at) == Some(millis),
    ensures
        seconds < 0 ==> position_of(row, Some(now)) is Err,
        seconds >= 0 ==> (position_of(row, Some(now)) matches Ok(saved) && {
            &&& saved.source.id == video_id
            &&& Some(saved.source.platform) == video::platform_of(video_id)
            &&& saved.device_id == device_id
            &&& saved.position.nanos == seconds * 1_000_000_000
            &&& Some(saved.modified_age) == age_of(Some(millis), Some(now))
            &&& row.video_title is None ==> saved.title is None
            &&& row.video_title matches Some(JsonView::Text(title)) ==> saved.title == Some(title)
            &&& row.video_release_date is None ==> saved.release_age is None
            &&& row.video_release_date matches Some(JsonView::Text(date)) ==> saved.release_age
                == age_of(rfc3339_millis_of(date), Some(now))
        }),
{
    video::identifiers_name_themselves(video_id);
}

/// A row that lacks one of them is none.
pub proof fn incomplete_rows_are_skipped(row: RowView, now: Option<Duration>)
    requires
        row.root != Some(JsonView::Object) || row.video_id is None || row.device_id is None
            || row.position is None || row.modified_time is None || now is None,
    ensures
        position_of(row, now) is Err,
{
}

/// The values of a row stand under their names.
pub proof fn rows_hold_values_under_their_names(document: Seq<char>)
    ensures
        row_in(document).video_id == json::found(document, "/video_id"@),
        row_in(document).device_id == json::found(document, "/device_id"@),
        row_in(document).position == json::found(document, "/position"@),
        row_in(document).modified_time == json::found(document, "/modified_time"@),
        row_in(document).video_title == json::found(document, "/video_title"@),
        row_in(document).video_release_date == json::found(document, "/video_release_date"@),
{
}

/// The positions of the rows come in the order of the rows.
pub proof fn positions_come_in_the_order_of_rows(
    rows: Seq<Seq<char>>,
    now: Option<Duration>,
    n: int,
)
    requires
        0 <= n < rows.len(),
    ensures
        positions_in(rows, now, 0).len() == 0,
        position_of(row_in(rows[n]), now) matches Ok(saved) ==> positions_in(rows, now, n + 1)
            == positions_in(rows, now, n).push(saved),
        position_of(row_in(rows[n]), now) is Err ==> positions_in(rows, now, n + 1)
            == positions_in(rows, now, n),
{
}

} // verus!
