//! What to play: a video on one of the supported platforms.

use crate::text;
use crate::time::Duration;
use crate::time_format;
use vstd::prelude::*;

verus! {

#[derive(Clone, Copy, Debug, PartialEq, Eq, Structural)]
pub enum VideoPlatform {
    Twitch,
    YouTube,
}

/// A video, and where to start in it.
#[derive(Debug, PartialEq, Eq)]
pub struct VideoSource {
    pub id: String,
    pub platform: VideoPlatform,
    pub start_time: Option<Duration>,
}

/// A video as values.
pub struct Video {
    pub id: Seq<char>,
    pub platform: VideoPlatform,
    pub start_time: Option<Duration>,
}

impl View for VideoSource {
    type V = Video;

    open spec fn view(&self) -> Video {
        Video { id: self.id@, platform: self.platform, start_time: self.start_time }
    }
}

impl Clone for VideoSource {
    fn clone(&self) -> (source: Self)
        ensures
            source == *self,
    {
        VideoSource { id: self.id.clone(), platform: self.platform, start_time: self.start_time }
    }
}

/// Whether `c` occurs in the identifiers of YouTube videos.
pub open spec fn is_youtube_char(c: char) -> bool {
    text::is_digit(c) || ('a' <= c && c <= 'z') || ('A' <= c && c <= 'Z') || c == '-' || c == '_'
}

/// The platform that an identifier belongs to: digits alone name a Twitch recording, and
/// eleven characters of the YouTube alphabet a YouTube video.
pub open spec fn platform_of(id: Seq<char>) -> Option<VideoPlatform> {
    if id.len() > 0 && text::all_digits(id) {
        Some(VideoPlatform::Twitch)
    } else if id.len() == 11 && (forall|i: int| 0 <= i < id.len() ==> is_youtube_char(
        #[trigger] id[i],
    )) {
        Some(VideoPlatform::YouTube)
    } else {
        None
    }
}

/// The address without its scheme and a leading `www.`.
pub open spec fn bare_address(input: Seq<char>) -> Option<Seq<char>> {
    match text::stripped(input, "https://"@) {
        Some(rest) => match text::stripped(rest, "www."@) {
            Some(rest) => Some(rest),
            None => Some(rest),
        },
        None => None,
    }
}

/// The value of the first parameter, from `from` on, that begins with `name`.
pub open spec fn parameter(parameters: Seq<Seq<char>>, name: Seq<char>, from: int) -> Option<Seq<char>>
    decreases parameters.len() - from,
{
    if from < 0 || from >= parameters.len() {
        None
    } else {
        match text::stripped(parameters[from], name) {
            Some(value) => Some(value),
            None => parameter(parameters, name, from + 1),
        }
    }
}

/// The identifier and the start time that an address names: `twitch.tv/videos/` and an
/// identifier, or `youtube.com/watch` with the identifier as the parameter `v`; the
/// parameter `t` is the start time.
pub open spec fn addressed(input: Seq<char>) -> Option<(Seq<char>, Option<Seq<char>>)> {
    match bare_address(input) {
        None => None,
        Some(address) => {
            let parts = text::split_on(address, '?');
            let parameters = if parts.len() == 2 {
                text::split_on(parts[1], '&')
            } else {
                Seq::empty()
            };
            let start = parameter(parameters, "t="@, 0);
            if parts.len() > 2 {
                None
            } else {
                match text::stripped(parts[0], "twitch.tv/videos/"@) {
                    Some(id) => Some((id, start)),
                    None => if parts[0] == "youtube.com/watch"@ {
                        match parameter(parameters, "v="@, 0) {
                            Some(id) => Some((id, start)),
                            None => None,
                        }
                    } else {
                        None
                    },
                }
            }
        },
    }
}

/// The identifier and the start time that `input` names: an address, or an identifier as it
/// is.
pub open spec fn named_video(input: Seq<char>) -> (Seq<char>, Option<Seq<char>>) {
    match addressed(input) {
        Some(named) => named,
        None => (input, None),
    }
}

/// The start time that a parameter stands for.
pub open spec fn start_of(start: Option<Seq<char>>) -> Option<Duration> {
    match start {
        Some(start) => time_format::seconds_span(time_format::friendly_seconds(start)),
        None => None,
    }
}

fn strip_address(input: &Vec<char>) -> (address: Option<Vec<char>>)
    ensures
        match address {
            Some(address) => bare_address(input@) == Some(address@),
            None => bare_address(input@) is None,
        },
{
    match text::strip_prefix(input, "https://") {
        Some(rest) => match text::strip_prefix(&rest, "www.") {
            Some(bare) => Some(bare),
            None => Some(rest),
        },
        None => None,
    }
}

fn find_parameter(parameters: &Vec<Vec<char>>, name: &str) -> (value: Option<Vec<char>>)
    ensures
        match value {
            Some(value) => parameter(text::parts_view(parameters@), name@, 0) == Some(value@),
            None => parameter(text::parts_view(parameters@), name@, 0) is None,
        },
{
    let ghost views = text::parts_view(parameters@);
    let mut i: usize = 0;
    while i < parameters.len()
        invariant
            i <= parameters.len(),
            views == text::parts_view(parameters@),
            parameter(views, name@, 0) == parameter(views, name@, i as int),
        decreases parameters.len() - i,
    {
        assert(views[i as int] == parameters@[i as int]@);
        match text::strip_prefix(&parameters[i], name) {
            Some(value) => {
                return Some(value);
            },
            None => {},
        }
        i += 1;
    }
    None
}

/// The identifier and the start time that an address names.
pub fn parse_address(input: &Vec<char>) -> (named: Option<(Vec<char>, Option<Vec<char>>)>)
    ensures
        match (named, addressed(input@)) {
            (Some((id, start)), Some((id_view, start_view))) => id@ == id_view && match (
                start,
                start_view,
            ) {
                (Some(start), Some(start_view)) => start@ == start_view,
                (None, None) => true,
                _ => false,
            },
            (None, None) => true,
            _ => false,
        },
{
    let address = match strip_address(input) {
        Some(address) => address,
        None => {
            return None;
        },
    };
    let parts = text::split(&address, '?');
    proof {
        text::split_on_has_a_part(address@, '?');
        assert(text::parts_view(parts@)[0] == parts@[0]@);
        if parts@.len() == 2 {
            assert(text::parts_view(parts@)[1] == parts@[1]@);
        }
    }
    if parts.len() > 2 {
        return None;
    }
    let parameters: Vec<Vec<char>> = if parts.len() == 2 {
        text::split(&parts[1], '&')
    } else {
        Vec::new()
    };
    assert(parts@.len() != 2 ==> text::parts_view(parameters@) =~= Seq::<Seq<char>>::empty());
    let start = find_parameter(&parameters, "t=");
    match text::strip_prefix(&parts[0], "twitch.tv/videos/") {
        Some(id) => {
            return Some((id, start));
        },
        None => {},
    }
    if text::same(text::string_of(&parts[0]).as_str(), "youtube.com/watch") {
        match find_parameter(&parameters, "v=") {
            Some(id) => Some((id, start)),
            None => None,
        }
    } else {
        None
    }
}

fn find_platform(id: &Vec<char>) -> (platform: Option<VideoPlatform>)
    ensures
        platform == platform_of(id@),
{
    let mut digits: bool = id.len() > 0;
    let mut youtube: bool = id.len() == 11;
    let mut i: usize = 0;
    while i < id.len()
        invariant
            i <= id.len(),
            digits == (id@.len() > 0 && forall|k: int| 0 <= k < i ==> text::is_digit(#[trigger] id@[k])),
            youtube == (id@.len() == 11 && forall|k: int|
                0 <= k < i ==> is_youtube_char(#[trigger] id@[k])),
        decreases id.len() - i,
    {
        let c: char = id[i];
        if !text::ascii_digit(c) {
            assert(!text::is_digit(id@[i as int]));
            digits = false;
        }
        if !(text::ascii_digit(c) || ('a' <= c && c <= 'z') || ('A' <= c && c <= 'Z') || c == '-' || c
            == '_') {
            assert(!is_youtube_char(id@[i as int]));
            youtube = false;
        }
        i += 1;
    }
    if digits {
        Some(VideoPlatform::Twitch)
    } else if youtube {
        Some(VideoPlatform::YouTube)
    } else {
        None
    }
}

/// The video that `input` names, or why it names none.
pub open spec fn parsed_video(input: Seq<char>) -> Result<Video, Seq<char>> {
    let (id, start) = named_video(input);
    match platform_of(id) {
        Some(platform) => Ok(Video { id, platform, start_time: start_of(start) }),
        None => Err("unrecognised video"@),
    }
}

impl VideoSource {
    /// The video that an address or an identifier names.
    pub fn parse(input: &str) -> (source: Result<VideoSource, String>)
        ensures
            match source {
                Ok(source) => parsed_video(input@) == Ok::<Video, Seq<char>>(source@),
                Err(error) => parsed_video(input@) == Err::<Video, Seq<char>>(error@),
            },
    {
        let chars = text::chars_of(input);
        let (id, start) = match parse_address(&chars) {
            Some(named) => named,
            None => (chars, None),
        };
        let platform = match find_platform(&id) {
            Some(platform) => platform,
            None => {
                return Err("unrecognised video".to_owned());
            },
        };
        let start_time = match start {
            Some(start) => time_format::parse_friendly_time(text::string_of(&start).as_str()),
            None => None,
        };
        Ok(VideoSource { id: text::string_of(&id), platform, start_time })
    }
}

/// A bare identifier names itself, to be played from its start.
pub proof fn identifiers_name_themselves(id: Seq<char>)
    requires
        platform_of(id) is Some,
    ensures
        parsed_video(id) == Ok::<Video, Seq<char>>(
            Video { id, platform: platform_of(id).unwrap(), start_time: None },
        ),
{
    reveal_strlit("https://");
    if text::begins_with(id, "https://"@) {
        let prefix = "https://"@;
        assert(id.take(8)[5] == prefix[5]);
        assert(id[5] == ':');
        assert(false);
    }
}

/// Digits alone name a recording on Twitch; eleven letters, digits, hyphens and underscores
/// that are not all digits name a video on YouTube; nothing else names a video.
pub proof fn identifiers_tell_their_platform(id: Seq<char>)
    ensures
        platform_of(id) == Some(VideoPlatform::Twitch) <==> id.len() > 0 && (forall|i: int|
            0 <= i < id.len() ==> '0' <= #[trigger] id[i] <= '9'),
        platform_of(id) == Some(VideoPlatform::YouTube) <==> id.len() == 11 && (forall|i: int|
            0 <= i < id.len() ==> ('0' <= #[trigger] id[i] <= '9' || 'a' <= id[i] <= 'z' || 'A'
                <= id[i] <= 'Z' || id[i] == '-' || id[i] == '_')) && (exists|i: int|
            0 <= i < id.len() && !('0' <= #[trigger] id[i] <= '9')),
{
    if id.len() == 11 && !text::all_digits(id) {
        let i = choose|i: int| 0 <= i < id.len() && !text::is_digit(#[trigger] id[i]);
        assert(!('0' <= id[i] && id[i] <= '9'));
    }
    if exists|i: int| 0 <= i < id.len() && !('0' <= #[trigger] id[i] <= '9') {
        let i = choose|i: int| 0 <= i < id.len() && !('0' <= #[trigger] id[i] <= '9');
        assert(!text::is_digit(id[i]));
    }
    if platform_of(id) == Some(VideoPlatform::YouTube) {
        assert forall|i: int| 0 <= i < id.len() implies ('0' <= #[trigger] id[i] <= '9' || 'a'
            <= id[i] <= 'z' || 'A' <= id[i] <= 'Z' || id[i] == '-' || id[i] == '_') by {
            assert(is_youtube_char(id[i]));
        }
    }
}

proof fn digits_hold_no_mark(id: Seq<char>, mark: char)
    requires
        text::all_digits(id),
        !text::is_digit(mark),
    ensures
        !id.contains(mark),
{
}

/// The address of a recording, with and without `www.`.
pub open spec fn recording_link(id: Seq<char>, www: bool) -> Seq<char> {
    "https://"@ + (if www {
        "www."@
    } else {
        Seq::empty()
    }) + "twitch.tv/videos/"@ + id
}

proof fn recording_address(id: Seq<char>, rest: Seq<char>, www: bool)
    ensures
        bare_address(recording_link(id, www) + rest) == Some("twitch.tv/videos/"@ + id + rest),
{
    reveal_strlit("www.");
    reveal_strlit("twitch.tv/videos/");
    let scheme = "https://"@;
    let tail = "twitch.tv/videos/"@ + id + rest;
    if www {
        text::prefixes_are_taken_off("www."@, tail, tail);
        text::prefixes_are_taken_off(scheme, "www."@ + tail, scheme);
        assert(recording_link(id, www) + rest =~= scheme + ("www."@ + tail));
    } else {
        text::prefixes_are_taken_off("www."@, tail, tail);
        text::prefixes_are_taken_off(scheme, tail, scheme);
        assert(recording_link(id, www) + rest =~= scheme + tail);
        if text::stripped(tail, "www."@) is Some {
            assert(tail[0] == ("www."@ + text::stripped(tail, "www."@).unwrap())[0]);
            assert(tail[0] == 't');
            assert(false);
        }
    }
}

/// A link to a recording names it, with or without `www.`.
pub proof fn links_name_their_recording(id: Seq<char>, www: bool)
    requires
        platform_of(id) == Some(VideoPlatform::Twitch),
    ensures
        parsed_video(recording_link(id, www)) == Ok::<Video, Seq<char>>(
            Video { id, platform: VideoPlatform::Twitch, start_time: None },
        ),
{
    reveal_strlit("twitch.tv/videos/");
    let link = recording_link(id, www);
    recording_address(id, Seq::empty(), www);
    assert(link + Seq::empty() =~= link);
    let address = "twitch.tv/videos/"@ + id;
    assert(address + Seq::empty() =~= address);
    digits_hold_no_mark(id, '?');
    assert(!address.contains('?')) by {
        if address.contains('?') {
            let i = choose|i: int| 0 <= i < address.len() && address[i] == '?';
            if i >= 17 {
                assert(id[i - 17] == '?');
                assert(id.contains('?'));
            }
        }
    }
    text::split_alone(address, '?');
    text::prefixes_are_taken_off("twitch.tv/videos/"@, id, address);
    assert(addressed(link) == Some((id, None::<Seq<char>>)));
}

/// A link to a recording with a time in it names where it starts.
pub proof fn links_name_where_they_start(id: Seq<char>, time: Seq<char>, www: bool)
    requires
        platform_of(id) == Some(VideoPlatform::Twitch),
        !time.contains('?'),
        !time.contains('&'),
    ensures
        parsed_video(recording_link(id, www) + "?t="@ + time) == Ok::<Video, Seq<char>>(
            Video {
                id,
                platform: VideoPlatform::Twitch,
                start_time: time_format::seconds_span(time_format::friendly_seconds(time)),
            },
        ),
{
    reveal_strlit("twitch.tv/videos/");
    reveal_strlit("?t=");
    reveal_strlit("t=");
    let link = recording_link(id, www) + "?t="@ + time;
    let rest = "?t="@ + time;
    recording_address(id, rest, www);
    assert(link =~= recording_link(id, www) + rest);
    let path = "twitch.tv/videos/"@ + id;
    let parameters = "t="@ + time;
    let address = path + rest;
    assert("twitch.tv/videos/"@ + id + rest =~= address);
    assert(address =~= path + seq!['?'] + parameters);
    digits_hold_no_mark(id, '?');
    assert(!path.contains('?')) by {
        if path.contains('?') {
            let i = choose|i: int| 0 <= i < path.len() && path[i] == '?';
            if i >= 17 {
                assert(id[i - 17] == '?');
                assert(id.contains('?'));
            }
        }
    }
    assert(!parameters.contains('?') && !parameters.contains('&')) by {
        assert forall|i: int| 0 <= i < parameters.len() implies parameters[i] != '?'
            && parameters[i] != '&' by {
            if i >= 2 {
                assert(time.contains(time[i - 2]));
            }
        }
    }
    text::split_joined(path, parameters, '?');
    text::split_alone(path, '?');
    text::split_alone(parameters, '?');
    text::split_alone(parameters, '&');
    text::prefixes_are_taken_off("twitch.tv/videos/"@, id, path);
    text::prefixes_are_taken_off("t="@, time, parameters);
    let parts = text::split_on(address, '?');
    assert(parts =~= seq![path, parameters]);
    assert(parameter(seq![parameters], "t="@, 0) == Some(time));
    assert(addressed(link) == Some((id, Some(time))));
}

/// A link to a video on YouTube names it.
pub proof fn links_name_their_video(id: Seq<char>)
    requires
        platform_of(id) == Some(VideoPlatform::YouTube),
    ensures
        parsed_video("https://www.youtube.com/watch?v="@ + id) == Ok::<Video, Seq<char>>(
            Video { id, platform: VideoPlatform::YouTube, start_time: None },
        ),
{
    reveal_strlit("https://www.youtube.com/watch?v=");
    reveal_strlit("https://");
    reveal_strlit("www.");
    reveal_strlit("youtube.com/watch");
    reveal_strlit("twitch.tv/videos/");
    reveal_strlit("v=");
    reveal_strlit("t=");
    identifiers_tell_their_platform(id);
    let link = "https://www.youtube.com/watch?v="@ + id;
    let path = "youtube.com/watch"@;
    let parameters = "v="@ + id;
    let address = path + seq!['?'] + parameters;
    assert(link =~= "https://"@ + ("www."@ + address));
    text::prefixes_are_taken_off("https://"@, "www."@ + address, link);
    text::prefixes_are_taken_off("www."@, address, address);
    assert(!path.contains('?'));
    assert(!parameters.contains('?') && !parameters.contains('&')) by {
        assert forall|i: int| 0 <= i < parameters.len() implies parameters[i] != '?'
            && parameters[i] != '&' by {
            if i >= 2 {
                assert(is_youtube_char(id[i - 2]));
            }
        }
    }
    text::split_joined(path, parameters, '?');
    text::split_alone(path, '?');
    text::split_alone(parameters, '?');
    text::split_alone(parameters, '&');
    assert(text::split_on(address, '?') =~= seq![path, parameters]);
    text::prefixes_are_taken_off("v="@, id, parameters);
    text::prefixes_are_taken_off("t="@, id, parameters);
    text::prefixes_are_taken_off("twitch.tv/videos/"@, id, path);
    if text::stripped(parameters, "t="@) is Some {
        assert(parameters[0] == ("t="@ + text::stripped(parameters, "t="@).unwrap())[0]);
        assert(false);
    }
    if text::stripped(path, "twitch.tv/videos/"@) is Some {
        assert(path[0] == ("twitch.tv/videos/"@ + text::stripped(
            path,
            "twitch.tv/videos/"@,
        ).unwrap())[0]);
        assert(false);
    }
    assert(parameter(seq![parameters], "v="@, 0) == Some(id));
    assert(parameter(seq![parameters], "t="@, 1) is None);
    assert(parameter(seq![parameters], "t="@, 0) is None);
    assert(addressed(link) == Some((id, None::<Seq<char>>)));
}

} // verus!
