//! What playback shows of itself, section by section.

use crate::address;
use crate::model;
use crate::model::{push_row, DebugInfoSection, PlaybackState, Section};
use crate::playback::backend::{OxidePlayer, OxideView};
use crate::playback::debug;
use crate::playback::debug::{AudioFacts, DebugFacts, ExecutorStatus};
use crate::playback::engine::{
    MediaFrame, PendingSeek, PlaybackCore, PostSeekEpoch, SESSION_CHANNEL_CAP, VIDEO_QUEUE_CAP,
};
use crate::playback::sink::{DecoderDebugInfo, PLAYBACK_PACKET_CHANNEL_CAP};
use crate::playback::stream::StreamInfo;
use crate::text;
use crate::time::{Duration, Instant};
use crate::time_base::TimeBase;
use vstd::prelude::*;
use vstd::string::*;

verus! {

/// The name of a state.
pub open spec fn state_text(state: PlaybackState) -> Seq<char> {
    match state {
        PlaybackState::Loading => "Loading"@,
        PlaybackState::Paused => "Paused"@,
        PlaybackState::Playing => "Playing"@,
        PlaybackState::Buffering => "Buffering"@,
        PlaybackState::Seeking => "Seeking"@,
        PlaybackState::Ended => "Ended"@,
        PlaybackState::Error(message) => "Error("@ + text::quoted_text(message@) + ")"@,
    }
}

fn state_name(state: &PlaybackState) -> (name: String)
    ensures
        name@ == state_text(*state),
{
    match state {
        PlaybackState::Loading => "Loading".to_owned(),
        PlaybackState::Paused => "Paused".to_owned(),
        PlaybackState::Playing => "Playing".to_owned(),
        PlaybackState::Buffering => "Buffering".to_owned(),
        PlaybackState::Seeking => "Seeking".to_owned(),
        PlaybackState::Ended => "Ended".to_owned(),
        PlaybackState::Error(message) => {
            let mut name = "Error(".to_owned();
            name.append(text::quoted(message.as_str()).as_str());
            name.append(")");
            name
        },
    }
}

/// A span in seconds, or that there is none.
pub open spec fn span_or(span: Option<Duration>, otherwise: Seq<char>) -> Seq<char> {
    match span {
        Some(span) => debug::seconds_text(span.nanos as int),
        None => otherwise,
    }
}

fn span_text(span: Option<Duration>, otherwise: &str) -> (s: String)
    ensures
        s@ == span_or(span, otherwise@),
{
    match span {
        Some(span) => debug::span_seconds(span),
        None => otherwise.to_owned(),
    }
}

/// Nanoseconds in seconds, or that there are none.
pub open spec fn nanos_or(nanos: Option<i128>, otherwise: Seq<char>) -> Seq<char> {
    match nanos {
        Some(nanos) => debug::seconds_text(nanos as int),
        None => otherwise,
    }
}

fn nanos_text(nanos: Option<i128>, otherwise: &str) -> (s: String)
    ensures
        s@ == nanos_or(nanos, otherwise@),
{
    match nanos {
        Some(nanos) => debug::seconds(nanos),
        None => otherwise.to_owned(),
    }
}

/// A time stamp, or that there is none.
pub open spec fn stamp_or(pts: Option<i64>, base: TimeBase) -> Seq<char> {
    match pts {
        Some(pts) => debug::stamp_text(pts, base),
        None => "-"@,
    }
}

fn stamp_string(pts: Option<i64>, base: TimeBase) -> (s: String)
    ensures
        s@ == stamp_or(pts, base),
{
    match pts {
        Some(pts) => debug::stamp(pts, base),
        None => "-".to_owned(),
    }
}

/// A number, or that there is none.
pub open spec fn number_or(n: Option<i64>) -> Seq<char> {
    match n {
        Some(n) => text::signed_decimal(n as int),
        None => "-"@,
    }
}

fn number_string(n: Option<i64>) -> (s: String)
    ensures
        s@ == number_or(n),
{
    match n {
        Some(n) => {
            let mut s = String::new();
            text::push_signed_decimal(&mut s, n);
            assert(s@ =~= text::signed_decimal(n as int));
            s
        },
        None => "-".to_owned(),
    }
}

pub open spec fn optional_text(value: Option<String>, otherwise: Seq<char>) -> Seq<char> {
    match value {
        Some(value) => value@,
        None => otherwise,
    }
}

fn optional_string(value: &Option<String>, otherwise: &str) -> (s: String)
    ensures
        s@ == optional_text(*value, otherwise@),
{
    match value {
        Some(value) => value.clone(),
        None => otherwise.to_owned(),
    }
}

/// What decodes a track.
pub open spec fn implementation_text(decoder: Option<DecoderDebugInfo>) -> Seq<char> {
    match decoder {
        Some(decoder) => decoder.implementation@,
        None => "unknown"@,
    }
}

fn implementation(decoder: &Option<DecoderDebugInfo>) -> (s: String)
    ensures
        s@ == implementation_text(*decoder),
{
    match decoder {
        Some(decoder) => decoder.implementation.clone(),
        None => "unknown".to_owned(),
    }
}

pub open spec fn acceleration_name(hardware: bool) -> Seq<char> {
    if hardware { "hardware"@ } else { "software"@ }
}

/// Whether that is done in hardware.
pub open spec fn acceleration_text(decoder: Option<DecoderDebugInfo>) -> Seq<char> {
    match decoder {
        Some(decoder) => acceleration_name(decoder.hardware_accelerated),
        None => "unknown"@,
    }
}

fn acceleration(decoder: &Option<DecoderDebugInfo>) -> (s: String)
    ensures
        s@ == acceleration_text(*decoder),
{
    match decoder {
        Some(decoder) => if decoder.hardware_accelerated {
            "hardware".to_owned()
        } else {
            "software".to_owned()
        },
        None => "unknown".to_owned(),
    }
}

/// How many ticks there are in a second, or how long one lasts.
pub open spec fn base_text(base: TimeBase) -> Seq<char> {
    text::signed_decimal(base.num as int) + "/"@ + text::signed_decimal(base.den as int)
}

fn base_string(base: TimeBase) -> (s: String)
    ensures
        s@ == base_text(base),
{
    let mut s = String::new();
    text::push_signed_decimal(&mut s, base.num);
    s.append("/");
    text::push_signed_decimal(&mut s, base.den);
    assert(s@ =~= base_text(base));
    s
}

/// The name of the quality in use.
pub open spec fn quality_text(player: OxideView) -> Seq<char> {
    if player.quality_index < player.qualities.len() {
        player.qualities[player.quality_index as int].label@
    } else {
        "unknown"@
    }
}

/// The rate, with three decimals.
pub open spec fn rate_text(rate: u32) -> Seq<char> {
    debug::thousandths_text((rate * 10) as nat) + "x"@
}

fn rate_string(rate: u32) -> (s: String)
    ensures
        s@ == rate_text(rate),
{
    let mut s = String::new();
    debug::push_thousandths(&mut s, rate as u128 * 10);
    s.append("x");
    assert(s@ =~= rate_text(rate));
    s
}

pub open spec fn error_text(state: PlaybackState) -> Seq<char> {
    match state {
        PlaybackState::Error(message) => message@,
        _ => "-"@,
    }
}

/// The first section: the transport.
pub open spec fn playback_rows(player: OxideView, now: Instant) -> Seq<(Seq<char>, Seq<char>)> {
    seq![
        ("state"@, state_text(player.engine.core.state)),
        ("position"@, debug::seconds_text(player.engine.shown_position(now).nanos as int)),
        ("duration"@, span_or(player.engine.core.duration, "unknown"@)),
        ("rate"@, rate_text(player.rate)),
        ("quality"@, quality_text(player)),
        ("decode mode"@, player.decode_mode.name()),
        ("muted"@, debug::bool_text(player.muted)),
        ("error"@, error_text(player.engine.core.state)),
    ]
}

fn debug_playback(player: &OxidePlayer, now: Instant) -> (rows: Vec<(String, String)>)
    ensures
        model::rows_view(rows@) == playback_rows(player@, now),
{
    let mut rows: Vec<(String, String)> = Vec::new();
    assert(model::rows_view(rows@) =~= Seq::<(Seq<char>, Seq<char>)>::empty());
    push_row(&mut rows, "state", state_name(&player.engine.core.state));
    push_row(&mut rows, "position", debug::span_seconds(player.engine.position(now)));
    push_row(&mut rows, "duration", span_text(player.engine.core.duration, "unknown"));
    push_row(&mut rows, "rate", rate_string(player.rate));
    let quality: String = if player.quality_index < player.qualities.len() {
        player.qualities[player.quality_index].label.clone()
    } else {
        "unknown".to_owned()
    };
    push_row(&mut rows, "quality", quality);
    push_row(&mut rows, "decode mode", player.decode_mode.as_str().to_owned());
    push_row(&mut rows, "muted", debug::bool_string(player.muted));
    let error: String = match &player.engine.core.state {
        PlaybackState::Error(message) => message.clone(),
        _ => "-".to_owned(),
    };
    push_row(&mut rows, "error", error);
    assert(model::rows_view(rows@) =~= playback_rows(player@, now));
    rows
}

/// How the stream is doing.
pub open spec fn transport_text(core: PlaybackCore) -> Seq<char> {
    match core.state {
        PlaybackState::Loading => "opening"@,
        PlaybackState::Buffering => "waiting for media"@,
        PlaybackState::Error(_) => "terminal error"@,
        PlaybackState::Ended => "ended"@,
        _ => if core.sink_finished { "sink finished"@ } else { "active"@ },
    }
}

fn transport_state(core: &PlaybackCore) -> (s: String)
    ensures
        s@ == transport_text(*core),
{
    match &core.state {
        PlaybackState::Loading => "opening".to_owned(),
        PlaybackState::Buffering => "waiting for media".to_owned(),
        PlaybackState::Error(_) => "terminal error".to_owned(),
        PlaybackState::Ended => "ended".to_owned(),
        _ => if core.sink_finished { "sink finished".to_owned() } else { "active".to_owned() },
    }
}

pub open spec fn executor_text(status: ExecutorStatus) -> Seq<char> {
    match status {
        ExecutorStatus::Absent => "none"@,
        ExecutorStatus::Finished => "finished"@,
        ExecutorStatus::Running => "running"@,
    }
}

fn executor_string(status: ExecutorStatus) -> (s: String)
    ensures
        s@ == executor_text(status),
{
    match status {
        ExecutorStatus::Absent => "none".to_owned(),
        ExecutorStatus::Finished => "finished".to_owned(),
        ExecutorStatus::Running => "running".to_owned(),
    }
}

/// The host that the quality in use comes from.
pub open spec fn host_text(player: OxideView) -> Seq<char> {
    if player.quality_index < player.quality_urls.len() {
        debug::or_else(
            address::host_of(player.quality_urls[player.quality_index as int]@),
            "unknown"@,
        )
    } else {
        "unknown"@
    }
}

fn host_string(player: &OxidePlayer) -> (s: String)
    ensures
        s@ == host_text(player@),
{
    if player.quality_index < player.quality_urls.len() {
        match address::host(player.quality_urls[player.quality_index].as_str()) {
            Some(host) => host,
            None => "unknown".to_owned(),
        }
    } else {
        "unknown".to_owned()
    }
}

/// How long playback has gone without frames.
pub open spec fn grace_text(started: Option<Instant>, now: Instant) -> Seq<char> {
    match started {
        Some(started) => debug::whole_millis_text(now.since(started).nanos as nat),
        None => "inactive"@,
    }
}

fn grace_string(started: Option<Instant>, now: Instant) -> (s: String)
    ensures
        s@ == grace_text(started, now),
{
    match started {
        Some(started) => {
            let mut s = String::new();
            let waited = now.saturating_duration_since(started);
            debug::push_whole_millis(&mut s, waited);
            assert(s@ =~= grace_text(Some(started), now));
            s
        },
        None => "inactive".to_owned(),
    }
}

/// How many messages wait at most in each channel of a session.
pub open spec fn caps_text() -> Seq<char> {
    "control="@ + text::decimal(SESSION_CHANNEL_CAP as nat) + " audio="@ + text::decimal(
        SESSION_CHANNEL_CAP as nat,
    ) + " video="@ + text::decimal(SESSION_CHANNEL_CAP as nat)
}

fn caps_string() -> (s: String)
    ensures
        s@ == caps_text(),
{
    let mut s = "control=".to_owned();
    text::push_decimal(&mut s, SESSION_CHANNEL_CAP as u64);
    s.append(" audio=");
    text::push_decimal(&mut s, SESSION_CHANNEL_CAP as u64);
    s.append(" video=");
    text::push_decimal(&mut s, SESSION_CHANNEL_CAP as u64);
    s
}

/// The second section: what the frames come from.
pub open spec fn pipeline_rows(player: OxideView, facts: DebugFacts, now: Instant) -> Seq<
    (Seq<char>, Seq<char>),
> {
    seq![
        ("network / stream"@, transport_text(player.engine.core)),
        ("HLS host"@, host_text(player)),
        ("executor"@, executor_text(facts.executor)),
        ("sink finished"@, debug::bool_text(player.engine.core.sink_finished)),
        ("session channel caps"@, caps_text()),
        (
            "compressed packet cap"@,
            text::decimal(PLAYBACK_PACKET_CHANNEL_CAP as nat) + " / track"@,
        ),
        ("starvation grace"@, grace_text(player.engine.core.starvation_started_at, now)),
    ]
}

fn debug_pipeline(player: &OxidePlayer, facts: &DebugFacts, now: Instant) -> (rows: Vec<(String, String)>)
    ensures
        model::rows_view(rows@) == pipeline_rows(player@, *facts, now),
{
    let mut rows: Vec<(String, String)> = Vec::new();
    assert(model::rows_view(rows@) =~= Seq::<(Seq<char>, Seq<char>)>::empty());
    push_row(&mut rows, "network / stream", transport_state(&player.engine.core));
    push_row(&mut rows, "HLS host", host_string(player));
    push_row(&mut rows, "executor", executor_string(facts.executor));
    push_row(&mut rows, "sink finished", debug::bool_string(player.engine.core.sink_finished));
    push_row(&mut rows, "session channel caps", caps_string());
    let mut cap = debug::number(PLAYBACK_PACKET_CHANNEL_CAP as u64);
    cap.append(" / track");
    push_row(&mut rows, "compressed packet cap", cap);
    push_row(
        &mut rows,
        "starvation grace",
        grace_string(player.engine.core.starvation_started_at, now),
    );
    assert(model::rows_view(rows@) =~= pipeline_rows(player@, *facts, now));
    rows
}

/// The size of the pictures.
pub open spec fn size_text(track: StreamInfo) -> Seq<char> {
    match (track.params.width, track.params.height) {
        (Some(width), Some(height)) => text::decimal(width as nat) + "x"@ + text::decimal(
            height as nat,
        ),
        _ => "unknown"@,
    }
}

fn size_string(track: &StreamInfo) -> (s: String)
    ensures
        s@ == size_text(*track),
{
    match track.params.width {
        Some(width) => match track.params.height {
            Some(height) => {
                let mut s = debug::number(width as u64);
                s.append("x");
                text::push_decimal(&mut s, height as u64);
                s
            },
            None => "unknown".to_owned(),
        },
        None => "unknown".to_owned(),
    }
}

pub open spec fn front_pts(queue: Seq<MediaFrame>) -> Option<i64> {
    if queue.len() > 0 { queue[0].pts } else { None }
}

pub open spec fn back_pts(queue: Seq<MediaFrame>) -> Option<i64> {
    if queue.len() > 0 { queue.last().pts } else { None }
}

/// How many frames wait, of how many that may.
pub open spec fn lookahead_text(player: OxideView) -> Seq<char> {
    text::decimal(player.engine.queue.len()) + " / "@ + text::decimal(VIDEO_QUEUE_CAP as nat)
}

pub fn lookahead(player: &OxidePlayer) -> (s: String)
    ensures
        s@ == lookahead_text(player@),
{
    let mut s = debug::number(player.engine.video_queue.len() as u64);
    s.append(" / ");
    text::push_decimal(&mut s, VIDEO_QUEUE_CAP as u64);
    s
}

/// How many frames came, were shown and were dropped.
pub open spec fn frames_text(core: PlaybackCore) -> Seq<char> {
    "recv="@ + text::decimal(core.diagnostics.received_video_frames as nat) + " present="@
        + text::decimal(core.diagnostics.presented_video_frames as nat) + " drop="@ + text::decimal(
        core.diagnostics.dropped_video_frames as nat,
    )
}

fn frames_string(core: &PlaybackCore) -> (s: String)
    ensures
        s@ == frames_text(*core),
{
    let mut s = "recv=".to_owned();
    text::push_decimal(&mut s, core.diagnostics.received_video_frames);
    s.append(" present=");
    text::push_decimal(&mut s, core.diagnostics.presented_video_frames);
    s.append(" drop=");
    text::push_decimal(&mut s, core.diagnostics.dropped_video_frames);
    s
}

/// The third section: the pictures.
pub open spec fn video_rows(player: OxideView, facts: DebugFacts, now: Instant) -> Seq<
    (Seq<char>, Seq<char>),
> {
    let core = player.engine.core;
    let base = core.video_stream.time_base;
    seq![
        ("codec"@, facts.video_codec@),
        ("OxideAV decoder"@, implementation_text(facts.video_decoder)),
        ("decoder acceleration"@, acceleration_text(facts.video_decoder)),
        ("coded size"@, size_text(core.video_stream)),
        ("time base"@, base_text(base)),
        ("start PTS"@, number_or(core.video_stream.start_time)),
        ("colour"@, optional_text(facts.video_colour, "unknown"@)),
        ("decoded queue"@, lookahead_text(player)),
        ("queue front"@, stamp_or(front_pts(player.engine.queue), base)),
        ("queue back"@, stamp_or(back_pts(player.engine.queue), base)),
        ("video clock"@, stamp_or(core.due_pts(now), base)),
        ("first frame presented"@, debug::bool_text(core.first_frame_presented)),
        ("frames"@, frames_text(core)),
    ]
}

fn debug_video(player: &OxidePlayer, facts: &DebugFacts, now: Instant) -> (rows: Vec<(String, String)>)
    ensures
        model::rows_view(rows@) == video_rows(player@, *facts, now),
{
    let core = &player.engine.core;
    let base = core.video_stream.time_base;
    let queue = &player.engine.video_queue;
    let front: Option<i64> = if queue.len() > 0 { queue[0].pts } else { None };
    let back: Option<i64> = if queue.len() > 0 { queue[queue.len() - 1].pts } else { None };
    let mut rows: Vec<(String, String)> = Vec::new();
    assert(model::rows_view(rows@) =~= Seq::<(Seq<char>, Seq<char>)>::empty());
    push_row(&mut rows, "codec", facts.video_codec.clone());
    push_row(&mut rows, "OxideAV decoder", implementation(&facts.video_decoder));
    push_row(&mut rows, "decoder acceleration", acceleration(&facts.video_decoder));
    push_row(&mut rows, "coded size", size_string(&core.video_stream));
    push_row(&mut rows, "time base", base_string(base));
    push_row(&mut rows, "start PTS", number_string(core.video_stream.start_time));
    push_row(&mut rows, "colour", optional_string(&facts.video_colour, "unknown"));
    push_row(&mut rows, "decoded queue", lookahead(player));
    push_row(&mut rows, "queue front", stamp_string(front, base));
    push_row(&mut rows, "queue back", stamp_string(back, base));
    push_row(&mut rows, "video clock", stamp_string(core.video_clock.pts_at(now, base), base));
    push_row(&mut rows, "first frame presented", debug::bool_string(core.first_frame_presented));
    push_row(&mut rows, "frames", frames_string(core));
    assert(model::rows_view(rows@) =~= video_rows(player@, *facts, now));
    rows
}

/// Samples, also as a time.
pub open spec fn samples_text(samples: u64, span: Duration) -> Seq<char> {
    text::decimal(samples as nat) + " samples / "@ + debug::millis_text(span.nanos as nat)
}

fn samples_string(samples: u64, span: Duration) -> (s: String)
    ensures
        s@ == samples_text(samples, span),
{
    let mut s = debug::number(samples);
    s.append(" samples / ");
    debug::push_millis(&mut s, span);
    s
}

/// A number followed by what it counts.
pub open spec fn counted_text(n: nat, what: Seq<char>) -> Seq<char> {
    text::decimal(n) + what
}

fn counted_string(n: u64, what: &str) -> (s: String)
    ensures
        s@ == counted_text(n as nat, what@),
{
    let mut s = debug::number(n);
    s.append(what);
    s
}

/// How often and for how long the device had nothing to play.
pub open spec fn underrun_text(audio: AudioFacts) -> Seq<char> {
    text::decimal(audio.underrun_callbacks as nat) + " callbacks / "@ + text::decimal(
        audio.underrun_samples as nat,
    ) + " samples"@
}

/// What is said of the audio output, open or not.
pub open spec fn output_rows(audio: Option<AudioFacts>) -> Seq<(Seq<char>, Seq<char>)> {
    match audio {
        Some(audio) => seq![
            ("output backend"@, audio.backend@),
            ("device rate"@, counted_text(audio.device_rate as nat, " Hz"@)),
            ("playing"@, debug::bool_text(audio.playing)),
            ("preroll ready"@, debug::bool_text(audio.preroll_ready)),
            ("ring queued"@, samples_text(audio.queued_samples, audio.queued)),
            ("ring target"@, counted_text(audio.target_samples as nat, " samples"@)),
            ("ring headroom"@, samples_text(audio.headroom_samples, audio.headroom)),
            ("submitted samples"@, text::decimal(audio.submitted_samples as nat)),
            ("next output PTS"@, number_or(audio.next_output_pts)),
            ("media origin"@, span_or(audio.media_origin, "-"@)),
            ("underruns"@, underrun_text(audio)),
        ],
        None => seq![
            ("output backend"@, "not open"@),
            ("device rate"@, "-"@),
            ("playing"@, "false"@),
            ("preroll ready"@, "false"@),
            ("ring queued"@, "-"@),
            ("ring target"@, "-"@),
            ("ring headroom"@, "-"@),
            ("submitted samples"@, "-"@),
            ("next output PTS"@, "-"@),
            ("media origin"@, "-"@),
            ("underruns"@, "-"@),
        ],
    }
}

fn push_output(rows: &mut Vec<(String, String)>, audio: &Option<AudioFacts>)
    ensures
        model::rows_view(final(rows)@) == model::rows_view(old(rows)@) + output_rows(*audio),
{
    let ghost before = model::rows_view(rows@);
    match audio {
        Some(audio) => {
            push_row(rows, "output backend", audio.backend.clone());
            push_row(rows, "device rate", counted_string(audio.device_rate as u64, " Hz"));
            push_row(rows, "playing", debug::bool_string(audio.playing));
            push_row(rows, "preroll ready", debug::bool_string(audio.preroll_ready));
            push_row(rows, "ring queued", samples_string(audio.queued_samples, audio.queued));
            push_row(rows, "ring target", counted_string(audio.target_samples, " samples"));
            push_row(rows, "ring headroom", samples_string(audio.headroom_samples, audio.headroom));
            push_row(rows, "submitted samples", debug::number(audio.submitted_samples));
            push_row(rows, "next output PTS", number_string(audio.next_output_pts));
            push_row(rows, "media origin", span_text(audio.media_origin, "-"));
            let mut underruns = debug::number(audio.underrun_callbacks);
            underruns.append(" callbacks / ");
            text::push_decimal(&mut underruns, audio.underrun_samples);
            underruns.append(" samples");
            push_row(rows, "underruns", underruns);
        },
        None => {
            push_row(rows, "output backend", "not open".to_owned());
            push_row(rows, "device rate", "-".to_owned());
            push_row(rows, "playing", "false".to_owned());
            push_row(rows, "preroll ready", "false".to_owned());
            push_row(rows, "ring queued", "-".to_owned());
            push_row(rows, "ring target", "-".to_owned());
            push_row(rows, "ring headroom", "-".to_owned());
            push_row(rows, "submitted samples", "-".to_owned());
            push_row(rows, "next output PTS", "-".to_owned());
            push_row(rows, "media origin", "-".to_owned());
            push_row(rows, "underruns", "-".to_owned());
        },
    }
    assert(model::rows_view(rows@) =~= before + output_rows(*audio));
}

/// A number followed by what it counts, or that it is not known.
pub open spec fn known_or(n: Option<nat>, what: Seq<char>) -> Seq<char> {
    match n {
        Some(n) => counted_text(n, what),
        None => "unknown"@,
    }
}

/// What is said of the track of sound.
pub open spec fn track_rows(core: PlaybackCore, track: StreamInfo, facts: DebugFacts) -> Seq<
    (Seq<char>, Seq<char>),
> {
    seq![
        ("codec"@, facts.audio_codec@),
        ("OxideAV decoder"@, implementation_text(facts.audio_decoder)),
        ("decoder acceleration"@, acceleration_text(facts.audio_decoder)),
        ("time base"@, base_text(track.time_base)),
        (
            "sample rate"@,
            known_or(
                match track.params.sample_rate {
                    Some(rate) => Some(rate as nat),
                    None => None,
                },
                " Hz"@,
            ),
        ),
        (
            "channels"@,
            match track.params.channel_count() {
                Some(channels) => text::decimal(channels as nat),
                None => "unknown"@,
            },
        ),
        ("sample format"@, optional_text(facts.audio_sample_format, "unknown"@)),
        ("decoded frames"@, text::decimal(core.diagnostics.received_audio_frames as nat)),
        ("pending frame"@, debug::bool_text(core.pending_audio_frame is Some)),
    ]
}

/// The fourth section: the sound.
pub open spec fn audio_rows(player: OxideView, facts: DebugFacts) -> Seq<(Seq<char>, Seq<char>)> {
    match player.engine.core.audio_stream {
        Some(track) => track_rows(player.engine.core, track, facts) + output_rows(facts.audio),
        None => seq![("stream"@, "none"@)],
    }
}

fn debug_audio(player: &OxidePlayer, facts: &DebugFacts) -> (rows: Vec<(String, String)>)
    ensures
        model::rows_view(rows@) == audio_rows(player@, *facts),
{
    let core = &player.engine.core;
    let mut rows: Vec<(String, String)> = Vec::new();
    assert(model::rows_view(rows@) =~= Seq::<(Seq<char>, Seq<char>)>::empty());
    match core.audio_stream {
        Some(track) => {
            push_row(&mut rows, "codec", facts.audio_codec.clone());
            push_row(&mut rows, "OxideAV decoder", implementation(&facts.audio_decoder));
            push_row(&mut rows, "decoder acceleration", acceleration(&facts.audio_decoder));
            push_row(&mut rows, "time base", base_string(track.time_base));
            let rate: String = match track.params.sample_rate {
                Some(rate) => counted_string(rate as u64, " Hz"),
                None => "unknown".to_owned(),
            };
            push_row(&mut rows, "sample rate", rate);
            let channels: String = match track.params.resolved_channels() {
                Some(channels) => debug::number(channels as u64),
                None => "unknown".to_owned(),
            };
            push_row(&mut rows, "channels", channels);
            push_row(
                &mut rows,
                "sample format",
                optional_string(&facts.audio_sample_format, "unknown"),
            );
            push_row(
                &mut rows,
                "decoded frames",
                debug::number(core.diagnostics.received_audio_frames),
            );
            push_row(
                &mut rows,
                "pending frame",
                debug::bool_string(core.pending_audio_frame.is_some()),
            );
            assert(model::rows_view(rows@) =~= track_rows(*core, track, *facts));
            push_output(&mut rows, &facts.audio);
        },
        None => {
            push_row(&mut rows, "stream", "none".to_owned());
            assert(model::rows_view(rows@) =~= audio_rows(player@, *facts));
        },
    }
    rows
}

/// How far the first sound is from the first picture.
pub open spec fn av_offset_text(core: PlaybackCore) -> Seq<char> {
    match (core.first_video, core.first_audio) {
        (Some(video), Some(audio)) => debug::offset_text(audio - video) + " audio-video"@,
        _ => "-"@,
    }
}

fn av_offset(core: &PlaybackCore) -> (s: String)
    ensures
        s@ == av_offset_text(*core),
{
    match core.first_video {
        Some(video) => match core.first_audio {
            Some(audio) => {
                let mut s = debug::offset(audio, video);
                s.append(" audio-video");
                s
            },
            None => "-".to_owned(),
        },
        None => "-".to_owned(),
    }
}

/// The generation of a seek, once the decoder has told it.
pub open spec fn generation_text(generation: Option<u32>) -> Seq<char> {
    match generation {
        Some(generation) => text::decimal(generation as nat),
        None => "-"@,
    }
}

/// A seek that is under way.
pub open spec fn seek_text(pending: Option<PendingSeek>) -> Seq<char> {
    match pending {
        Some(pending) => "gen="@ + generation_text(pending.generation) + " requested="@
            + debug::seconds_text(pending.requested.nanos as int) + " barriers="@ + text::decimal(
            pending.barriers_remaining as nat,
        ) + " resume="@ + debug::bool_text(pending.resume_playing),
        None => "none"@,
    }
}

fn seek_string(pending: &Option<PendingSeek>) -> (s: String)
    ensures
        s@ == seek_text(*pending),
{
    match pending {
        Some(pending) => {
            let mut s = "gen=".to_owned();
            match pending.generation {
                Some(generation) => {
                    text::push_decimal(&mut s, generation as u64);
                },
                None => {
                    s.append("-");
                },
            }
            s.append(" requested=");
            s.append(debug::span_seconds(pending.requested).as_str());
            s.append(" barriers=");
            text::push_decimal(&mut s, pending.barriers_remaining as u64);
            s.append(" resume=");
            debug::push_bool(&mut s, pending.resume_playing);
            s
        },
        None => "none".to_owned(),
    }
}

/// What is still dropped after a seek.
pub open spec fn epoch_text(epoch: Option<PostSeekEpoch>) -> Seq<char> {
    match epoch {
        Some(epoch) => "floor="@ + debug::seconds_text(epoch.floor.nanos as int)
            + " audio_aligned="@ + debug::bool_text(epoch.audio_aligned) + " video_aligned="@
            + debug::bool_text(epoch.video_aligned) + " drops="@ + text::decimal(
            epoch.dropped_audio_frames as nat,
        ) + "/"@ + text::decimal(epoch.dropped_video_frames as nat),
        None => "none"@,
    }
}

fn epoch_string(epoch: Option<PostSeekEpoch>) -> (s: String)
    ensures
        s@ == epoch_text(epoch),
{
    match epoch {
        Some(epoch) => {
            let mut s = "floor=".to_owned();
            s.append(debug::span_seconds(epoch.floor).as_str());
            s.append(" audio_aligned=");
            debug::push_bool(&mut s, epoch.audio_aligned);
            s.append(" video_aligned=");
            debug::push_bool(&mut s, epoch.video_aligned);
            s.append(" drops=");
            text::push_decimal(&mut s, epoch.dropped_audio_frames);
            s.append("/");
            text::push_decimal(&mut s, epoch.dropped_video_frames);
            s
        },
        None => "none".to_owned(),
    }
}

/// The fifth section: where playback stands in the recording.
pub open spec fn timeline_rows(core: PlaybackCore) -> Seq<(Seq<char>, Seq<char>)> {
    seq![
        ("timeline origin"@, nanos_or(core.timeline_origin, "-"@)),
        ("first video"@, nanos_or(core.first_video, "-"@)),
        ("first audio"@, nanos_or(core.first_audio, "-"@)),
        ("first A/V offset"@, av_offset_text(core)),
        ("audio anchor"@, nanos_or(core.audio_anchor, "-"@)),
        ("seek pending"@, seek_text(core.seek_pending)),
        ("post-seek epoch"@, epoch_text(core.post_seek_epoch)),
        ("seek supported"@, debug::bool_text(core.seek_supported)),
    ]
}

fn debug_timeline(core: &PlaybackCore) -> (rows: Vec<(String, String)>)
    ensures
        model::rows_view(rows@) == timeline_rows(*core),
{
    let mut rows: Vec<(String, String)> = Vec::new();
    assert(model::rows_view(rows@) =~= Seq::<(Seq<char>, Seq<char>)>::empty());
    push_row(&mut rows, "timeline origin", nanos_text(core.timeline_origin, "-"));
    push_row(&mut rows, "first video", nanos_text(core.first_video, "-"));
    push_row(&mut rows, "first audio", nanos_text(core.first_audio, "-"));
    push_row(&mut rows, "first A/V offset", av_offset(core));
    push_row(&mut rows, "audio anchor", nanos_text(core.audio_anchor, "-"));
    push_row(&mut rows, "seek pending", seek_string(&core.seek_pending));
    push_row(&mut rows, "post-seek epoch", epoch_string(core.post_seek_epoch));
    push_row(&mut rows, "seek supported", debug::bool_string(core.seek_supported));
    assert(model::rows_view(rows@) =~= timeline_rows(*core));
    rows
}

/// The sections, in order.
pub struct Sections {
    pub playback: Seq<(Seq<char>, Seq<char>)>,
    pub pipeline: Seq<(Seq<char>, Seq<char>)>,
    pub video: Seq<(Seq<char>, Seq<char>)>,
    pub audio: Seq<(Seq<char>, Seq<char>)>,
    pub timeline: Seq<(Seq<char>, Seq<char>)>,
}

/// What the sections say.
pub open spec fn sections_of(player: OxideView, facts: DebugFacts, now: Instant) -> Sections {
    Sections {
        playback: playback_rows(player, now),
        pipeline: pipeline_rows(player, facts, now),
        video: video_rows(player, facts, now),
        audio: audio_rows(player, facts),
        timeline: timeline_rows(player.engine.core),
    }
}

/// The rows of the sections.
pub struct DebugSections {
    pub playback: Vec<(String, String)>,
    pub pipeline: Vec<(String, String)>,
    pub video: Vec<(String, String)>,
    pub audio: Vec<(String, String)>,
    pub timeline: Vec<(String, String)>,
}

impl View for DebugSections {
    type V = Sections;

    open spec fn view(&self) -> Sections {
        Sections {
            playback: model::rows_view(self.playback@),
            pipeline: model::rows_view(self.pipeline@),
            video: model::rows_view(self.video@),
            audio: model::rows_view(self.audio@),
            timeline: model::rows_view(self.timeline@),
        }
    }
}

/// Looks into playback.
pub fn sections(player: &OxidePlayer, facts: &DebugFacts, now: Instant) -> (sections: DebugSections)
    ensures
        sections@ == sections_of(player@, *facts, now),
{
    DebugSections {
        playback: debug_playback(player, now),
        pipeline: debug_pipeline(player, facts, now),
        video: debug_video(player, facts, now),
        audio: debug_audio(player, facts),
        timeline: debug_timeline(&player.engine.core),
    }
}

/// The sections with their titles.
pub open spec fn titled(sections: Sections) -> Seq<Section> {
    seq![
        Section { title: "Playback"@, rows: sections.playback },
        Section { title: "Transport / pipeline"@, rows: sections.pipeline },
        Section { title: "Video"@, rows: sections.video },
        Section { title: "Audio"@, rows: sections.audio },
        Section { title: "Timeline / seek"@, rows: sections.timeline },
    ]
}

impl OxidePlayer {
    /// What playback shows of itself.
    pub fn debug_info(&self, facts: &DebugFacts, now: Instant) -> (info: Vec<DebugInfoSection>)
        ensures
            info@.map_values(|section: DebugInfoSection| section@) == titled(
                sections_of(self@, *facts, now),
            ),
    {
        let all = sections(self, facts, now);
        let mut info: Vec<DebugInfoSection> = Vec::new();
        info.push(DebugInfoSection::new("Playback", all.playback));
        info.push(DebugInfoSection::new("Transport / pipeline", all.pipeline));
        info.push(DebugInfoSection::new("Video", all.video));
        info.push(DebugInfoSection::new("Audio", all.audio));
        info.push(DebugInfoSection::new("Timeline / seek", all.timeline));
        assert(info@.map_values(|section: DebugInfoSection| section@) =~= titled(
            sections_of(self@, *facts, now),
        ));
        info
    }
}

} // verus!
