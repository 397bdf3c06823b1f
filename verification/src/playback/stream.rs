//! Streams: what a demuxer says of its tracks, and positions on their common timeline.
//!
//! Positions on the transport's own timeline are nanoseconds that may be negative; media
//! positions count from the earliest time stamp of the tracks that are played.

use crate::time::{Duration, MAX_NANOS};
use crate::time_base;
use crate::time_base::TimeBase;
use vstd::prelude::*;

verus! {

#[derive(Clone, Copy, Debug, PartialEq, Eq, Structural)]
pub enum MediaType {
    Audio,
    Video,
    Subtitle,
    Data,
    Unknown,
}

/// The parameters of a track. Codecs and formats stand as codes, and so does the text with
/// which the decoder describes all of them.
#[derive(Clone, Copy, Debug, PartialEq, Eq, Structural)]
pub struct StreamParams {
    pub codec: u32,
    pub sample_rate: Option<u32>,
    pub channels: Option<u16>,
    pub layout_channels: Option<u16>,
    pub sample_format: Option<u32>,
    pub width: Option<u32>,
    pub height: Option<u32>,
    pub pixel_format: Option<u32>,
    pub described: u32,
}

/// A track of the source.
#[derive(Clone, Copy, Debug, PartialEq, Eq, Structural)]
pub struct StreamInfo {
    pub index: u32,
    pub media_type: MediaType,
    pub time_base: TimeBase,
    pub start_time: Option<i64>,
    pub duration: Option<i64>,
    pub params: StreamParams,
}

impl StreamParams {
    /// The number of channels, said outright or by the layout.
    pub open spec fn channel_count(self) -> Option<u16> {
        match self.channels {
            Some(channels) => Some(channels),
            None => self.layout_channels,
        }
    }

    pub fn resolved_channels(&self) -> (channels: Option<u16>)
        ensures
            channels == self.channel_count(),
    {
        match self.channels {
            Some(channels) => Some(channels),
            None => self.layout_channels,
        }
    }

    /// The same codec and the same format.
    pub open spec fn same_format(self, other: Self) -> bool {
        &&& self.codec == other.codec
        &&& self.sample_rate == other.sample_rate
        &&& self.channels == other.channels
        &&& self.sample_format == other.sample_format
        &&& self.width == other.width
        &&& self.height == other.height
        &&& self.pixel_format == other.pixel_format
    }

    pub fn matches_core(&self, other: &Self) -> (same: bool)
        ensures
            same == self.same_format(*other),
    {
        self.codec == other.codec && self.sample_rate == other.sample_rate && self.channels
            == other.channels && self.sample_format == other.sample_format && self.width
            == other.width && self.height == other.height && self.pixel_format
            == other.pixel_format
    }
}

/// The length of a track.
pub open spec fn stream_span(stream: StreamInfo) -> Option<Duration> {
    match stream.duration {
        Some(ticks) => time_base::ticks_span(stream.time_base, ticks),
        None => None,
    }
}

pub fn stream_duration(stream: &StreamInfo) -> (duration: Option<Duration>)
    ensures
        duration == stream_span(*stream),
{
    match stream.duration {
        Some(ticks) => time_base::duration_from_ticks(stream.time_base, ticks),
        None => None,
    }
}

/// Where a track starts on the transport's timeline.
pub open spec fn stream_start(stream: StreamInfo) -> Option<i128> {
    match stream.start_time {
        Some(ticks) => time_base::ticks_nanos(ticks, stream.time_base),
        None => None,
    }
}

pub fn stream_start_nanos(stream: &StreamInfo) -> (start: Option<i128>)
    ensures
        start == stream_start(*stream),
{
    match stream.start_time {
        Some(ticks) => stream.time_base.nanos_of(ticks),
        None => None,
    }
}

/// Whether the decoder has said what it puts out: a rate, a channel count and a format.
pub open spec fn is_authoritative(stream: StreamInfo) -> bool {
    &&& stream.params.sample_rate is Some && stream.params.sample_rate.unwrap() > 0
    &&& stream.params.channel_count() is Some && stream.params.channel_count().unwrap() > 0
    &&& stream.params.sample_format is Some
}

pub fn audio_stream_is_authoritative(stream: &StreamInfo) -> (authoritative: bool)
    ensures
        authoritative == is_authoritative(*stream),
{
    let rate: bool = match stream.params.sample_rate {
        Some(rate) => rate > 0,
        None => false,
    };
    let channels: bool = match stream.params.resolved_channels() {
        Some(channels) => channels > 0,
        None => false,
    };
    rate && channels && stream.params.sample_format.is_some()
}

/// Where the media timeline starts: at the earlier of the first time stamps, once both are
/// known, or at the first of the video where there is no audio.
pub open spec fn origin_of(
    first_video: Option<i128>,
    first_audio: Option<i128>,
    has_audio: bool,
) -> Option<i128> {
    match (first_video, first_audio) {
        (Some(video), Some(audio)) => Some(
            if has_audio && audio < video { audio } else { video },
        ),
        (Some(video), None) => if has_audio { None } else { Some(video) },
        _ => None,
    }
}

pub fn timeline_origin(
    first_video: Option<i128>,
    first_audio: Option<i128>,
    has_audio: bool,
) -> (origin: Option<i128>)
    ensures
        origin == origin_of(first_video, first_audio, has_audio),
{
    match (first_video, first_audio) {
        (Some(video), Some(audio)) => Some(if has_audio && audio < video { audio } else { video }),
        (Some(video), None) => if has_audio { None } else { Some(video) },
        _ => None,
    }
}

/// The tick of a media position, to the nearest; none for a time base that does not run
/// forward.
pub open spec fn pts_of_position(time_base: TimeBase, position: Duration, origin: i128) -> Option<
    i64,
> {
    if time_base.positive() {
        let span = if position.nanos > MAX_NANOS { MAX_NANOS } else { position.nanos };
        Some(time_base::nearest_tick(origin + span, time_base))
    } else {
        None
    }
}

pub fn stream_pts_for_media_position(
    stream: &StreamInfo,
    position: Duration,
    origin: i128,
) -> (pts: Option<i64>)
    ensures
        pts == pts_of_position(stream.time_base, position, origin),
{
    if !stream.time_base.is_positive() {
        return None;
    }
    let span: u128 = if position.nanos > MAX_NANOS { MAX_NANOS } else { position.nanos };
    let size = time_base::size(origin);
    Some(
        if origin >= 0 {
            stream.time_base.tick_at(false, size + span)
        } else if span >= size {
            stream.time_base.tick_at(false, span - size)
        } else {
            stream.time_base.tick_at(true, size - span)
        },
    )
}

/// The media position of a tick; none before the origin.
pub open spec fn position_of_pts(time_base: TimeBase, pts: i64, origin: i128) -> Option<Duration> {
    match time_base::ticks_nanos(pts, time_base) {
        Some(nanos) => if nanos >= origin {
            Some(Duration { nanos: (nanos - origin) as u128 })
        } else {
            None
        },
        None => None,
    }
}

pub fn relative_stream_position(stream: &StreamInfo, pts: i64, origin: i128) -> (position: Option<
    Duration,
>)
    ensures
        position == position_of_pts(stream.time_base, pts, origin),
{
    match stream.time_base.nanos_of(pts) {
        Some(nanos) if nanos >= origin => Some(Duration { nanos: time_base::apart(nanos, origin) }),
        _ => None,
    }
}

/// A source begins with the earlier of its tracks; with sound, not before both are known.
pub proof fn sources_begin_with_the_earlier_track(video: i128, audio: i128)
    ensures
        origin_of(Some(video), Some(audio), true) == Some(
            if audio <= video {
                audio
            } else {
                video
            },
        ),
        origin_of(Some(video), None, true) is None,
        origin_of(Some(video), None, false) == Some(video),
        origin_of(Some(video), Some(audio), false) == Some(video),
        origin_of(None, Some(audio), true) is None,
        origin_of(None, None, false) is None,
{
}

/// A position is counted from where the source begins; what comes before has none.
pub proof fn positions_count_from_the_beginning(
    time_base: TimeBase,
    pts: i64,
    origin: i128,
    nanos: i128,
)
    requires
        time_base::ticks_nanos(pts, time_base) == Some(nanos),
    ensures
        nanos >= origin ==> position_of_pts(time_base, pts, origin) is Some && origin
            + position_of_pts(time_base, pts, origin).unwrap().nanos == nanos,
        nanos < origin ==> position_of_pts(time_base, pts, origin) is None,
{
}

/// The channels of a track are those that it says, or else those of its layout; sound can be
/// played once its rate, its channels and its format are known.
pub proof fn sound_is_known_by_rate_channels_and_format(stream: StreamInfo)
    ensures
        stream.params.channels is Some ==> stream.params.channel_count() == stream.params.channels,
        stream.params.channels is None ==> stream.params.channel_count()
            == stream.params.layout_channels,
        stream.params.sample_rate is None || stream.params.channel_count() is None
            || stream.params.sample_format is None ==> !is_authoritative(stream),
        stream.params.sample_rate == Some(0u32) || stream.params.channel_count() == Some(0u16)
            ==> !is_authoritative(stream),
        stream.params.sample_rate is Some && stream.params.sample_rate != Some(0u32)
            && stream.params.channel_count() is Some && stream.params.channel_count() != Some(0u16)
            && stream.params.sample_format is Some ==> is_authoritative(stream),
{
}

} // verus!
