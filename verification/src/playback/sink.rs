//! The session's side of playback: where the decoder's messages go, and what is done when
//! there is no room for them.

use crate::json;
use crate::playback::engine::{BarrierKind, MediaFrame};
use crate::playback::pump;
use crate::playback::pump::{track_wake_kind, SessionMsg};
use crate::playback::stream::{MediaType, StreamInfo};
use crate::playback::wake::PlaybackWakeKind;
use crate::text;
use crate::time::Instant;
use vstd::prelude::*;
use vstd::string::*;

verus! {

/// How often a state that lasts is written to the log: once in a second.
pub const DIAGNOSTIC_INTERVAL_NANOS: u128 = 1_000_000_000;

/// How long a full channel is waited for before it is tried again: twenty milliseconds.
pub const TRACK_SINK_BACKPRESSURE_WAIT_NANOS: u128 = 20_000_000;

/// How many compressed packets of each track are kept ahead of the decoder. Twitch may put
/// one track several seconds ahead of the other; with fewer the leading track would block
/// the packets that the lagging one needs.
pub const PLAYBACK_PACKET_CHANNEL_CAP: usize = 256;

/// The channels between the decoder and playback.
#[derive(Clone, Copy, Debug, PartialEq, Eq, Structural)]
pub enum SessionChannel {
    Control,
    Audio,
    Video,
}

/// Why a message did not get to playback.
#[derive(Debug, PartialEq, Eq)]
pub enum SinkError {
    /// Playback is being stopped.
    Cancelled(String),
    /// Playback is gone.
    ReceiverDropped(String),
    /// A frame came from another track.
    KindMismatch { expected: MediaType, got: MediaType },
    /// A track is neither audio nor video.
    UnsupportedTrack(MediaType),
}

/// Such a reason as values.
pub enum SinkFailure {
    Cancelled(Seq<char>),
    ReceiverDropped(Seq<char>),
    KindMismatch { expected: MediaType, got: MediaType },
    UnsupportedTrack(MediaType),
}

impl View for SinkError {
    type V = SinkFailure;

    open spec fn view(&self) -> SinkFailure {
        match self {
            SinkError::Cancelled(message) => SinkFailure::Cancelled(message@),
            SinkError::ReceiverDropped(message) => SinkFailure::ReceiverDropped(message@),
            SinkError::KindMismatch { expected, got } => SinkFailure::KindMismatch {
                expected: *expected,
                got: *got,
            },
            SinkError::UnsupportedTrack(kind) => SinkFailure::UnsupportedTrack(*kind),
        }
    }
}

/// What a kind of track is called.
pub open spec fn kind_text(kind: MediaType) -> Seq<char> {
    match kind {
        MediaType::Audio => "Audio"@,
        MediaType::Video => "Video"@,
        MediaType::Subtitle => "Subtitle"@,
        MediaType::Data => "Data"@,
        MediaType::Unknown => "Unknown"@,
    }
}

fn kind_name(kind: MediaType) -> (name: &'static str)
    ensures
        name@ == kind_text(kind),
{
    match kind {
        MediaType::Audio => "Audio",
        MediaType::Video => "Video",
        MediaType::Subtitle => "Subtitle",
        MediaType::Data => "Data",
        MediaType::Unknown => "Unknown",
    }
}

impl SinkFailure {
    pub open spec fn text(self) -> Seq<char> {
        match self {
            SinkFailure::Cancelled(message) => message,
            SinkFailure::ReceiverDropped(message) => message,
            SinkFailure::KindMismatch { expected, got } => {
                "SanctuaryPlayer: TrackSink kind mismatch expected="@ + kind_text(expected)
                    + " got="@ + kind_text(got)
            },
            SinkFailure::UnsupportedTrack(kind) => {
                "SanctuaryPlayer: unsupported playback TrackSink media type "@ + kind_text(kind)
            },
        }
    }
}

impl SinkError {
    pub fn message(self) -> (message: String)
        ensures
            message@ == self@.text(),
    {
        match self {
            SinkError::Cancelled(message) => message,
            SinkError::ReceiverDropped(message) => message,
            SinkError::KindMismatch { expected, got } => {
                let mut message = "SanctuaryPlayer: TrackSink kind mismatch expected=".to_owned();
                message.append(kind_name(expected));
                message.append(" got=");
                message.append(kind_name(got));
                message
            },
            SinkError::UnsupportedTrack(kind) => {
                let mut message =
                    "SanctuaryPlayer: unsupported playback TrackSink media type ".to_owned();
                message.append(kind_name(kind));
                message
            },
        }
    }
}

/// The channel of a track; there is none for other tracks than audio and video.
pub open spec fn channel_of(kind: MediaType) -> Option<SessionChannel> {
    match kind {
        MediaType::Audio => Some(SessionChannel::Audio),
        MediaType::Video => Some(SessionChannel::Video),
        _ => None,
    }
}

pub fn track_channel(kind: MediaType) -> (channel: Option<SessionChannel>)
    ensures
        channel == channel_of(kind),
{
    match kind {
        MediaType::Audio => Some(SessionChannel::Audio),
        MediaType::Video => Some(SessionChannel::Video),
        _ => None,
    }
}

/// Where a message of a session without sinks for its tracks goes: frames and changes of a
/// track to its channel, all else to the control channel. What belongs to another track
/// goes nowhere.
pub open spec fn route_of(message: SessionMsg) -> Option<SessionChannel> {
    match message {
        SessionMsg::StreamUpdate(track) => channel_of(track.media_type),
        SessionMsg::Frame { kind, .. } => channel_of(kind),
        _ => Some(SessionChannel::Control),
    }
}

/// Finds where a message goes.
pub fn session_route(message: &SessionMsg) -> (channel: Option<SessionChannel>)
    ensures
        channel == route_of(*message),
{
    match message {
        SessionMsg::StreamUpdate(track) => track_channel(track.media_type),
        SessionMsg::Frame { kind, .. } => track_channel(*kind),
        _ => Some(SessionChannel::Control),
    }
}

/// The name of a channel.
pub open spec fn channel_name(channel: SessionChannel) -> Seq<char> {
    match channel {
        SessionChannel::Control => "control"@,
        SessionChannel::Audio => "audio"@,
        SessionChannel::Video => "video"@,
    }
}

/// The wake-up that a message leads to once it is in a channel.
pub open spec fn channel_wake(channel: SessionChannel) -> PlaybackWakeKind {
    match channel {
        SessionChannel::Control => PlaybackWakeKind::Control,
        SessionChannel::Audio => PlaybackWakeKind::Audio,
        SessionChannel::Video => PlaybackWakeKind::Video,
    }
}

/// What a message put into a channel leads to: a wake-up, or an error if playback is gone.
pub fn session_send_outcome(channel: SessionChannel, delivered: bool) -> (outcome: Result<
    PlaybackWakeKind,
    SinkError,
>)
    ensures
        match outcome {
            Ok(kind) => delivered && kind == channel_wake(channel),
            Err(error) => !delivered && error@ == SinkFailure::ReceiverDropped(
                "SanctuaryPlayer: "@ + channel_name(channel) + " receiver dropped"@,
            ),
        },
{
    if delivered {
        return Ok(
            match channel {
                SessionChannel::Control => PlaybackWakeKind::Control,
                SessionChannel::Audio => PlaybackWakeKind::Audio,
                SessionChannel::Video => PlaybackWakeKind::Video,
            },
        );
    }
    let mut message = "SanctuaryPlayer: ".to_owned();
    message.append(
        match channel {
            SessionChannel::Control => "control",
            SessionChannel::Audio => "audio",
            SessionChannel::Video => "video",
        },
    );
    message.append(" receiver dropped");
    Err(SinkError::ReceiverDropped(message))
}

/// Sends the messages of one track. `blocked` is whether the message at hand has found the
/// channel full before.
#[derive(Clone, Copy, Debug, PartialEq, Eq, Structural)]
pub struct SessionTrackSink {
    pub kind: MediaType,
    pub blocked_sends: u64,
    pub last_backpressure_log: Option<Instant>,
    pub blocked: bool,
}

/// How the attempt to put a message into a channel ended.
#[derive(Clone, Copy, Debug, PartialEq, Eq, Structural)]
pub enum SendResult {
    Delivered,
    Full,
    Disconnected,
}

/// What is to be done after an attempt.
#[derive(Debug, PartialEq, Eq)]
pub enum SendStep {
    /// Wake playback; the message is delivered.
    Done(PlaybackWakeKind),
    /// Write to the log, wake playback, where either is to be done, and try again in a while.
    Retry { log: bool, wake: Option<PlaybackWakeKind> },
    /// Give up.
    Failed(SinkError),
}

/// What is to be done after an attempt, as values.
pub enum Step {
    Done(PlaybackWakeKind),
    Retry { log: bool, wake: Option<PlaybackWakeKind> },
    Failed(SinkFailure),
}

impl View for SendStep {
    type V = Step;

    open spec fn view(&self) -> Step {
        match self {
            SendStep::Done(kind) => Step::Done(*kind),
            SendStep::Retry { log, wake } => Step::Retry { log: *log, wake: *wake },
            SendStep::Failed(error) => Step::Failed(error@),
        }
    }
}

pub open spec fn track_text(label: Seq<char>, tail: Seq<char>) -> Seq<char> {
    "SanctuaryPlayer: "@ + label + tail
}

impl SessionTrackSink {
    /// What an attempt leads to, and the sink then.
    pub open spec fn attempted(
        self,
        label: Seq<char>,
        result: SendResult,
        cancelled: bool,
        now: Instant,
    ) -> (Step, Self) {
        match result {
            SendResult::Delivered => (
                Step::Done(pump::track_wake(self.kind)),
                SessionTrackSink { blocked: false, ..self },
            ),
            SendResult::Full => {
                let log = match self.last_backpressure_log {
                    Some(last) => now.since(last).nanos >= DIAGNOSTIC_INTERVAL_NANOS,
                    None => true,
                };
                (
                    Step::Retry {
                        log,
                        wake: if self.blocked { None } else { Some(pump::track_wake(self.kind)) },
                    },
                    SessionTrackSink {
                        blocked_sends: crate::playback::engine::counted(self.blocked_sends),
                        last_backpressure_log: if log {
                            Some(now)
                        } else {
                            self.last_backpressure_log
                        },
                        blocked: true,
                        ..self
                    },
                )
            },
            SendResult::Disconnected => (
                Step::Failed(
                    if cancelled {
                        SinkFailure::Cancelled(
                            track_text(label, " TrackSink receiver dropped during cancellation"@),
                        )
                    } else {
                        SinkFailure::ReceiverDropped(
                            track_text(label, " TrackSink receiver dropped"@),
                        )
                    },
                ),
                SessionTrackSink { blocked: false, ..self },
            ),
        }
    }

    pub fn new(kind: MediaType) -> (sink: Self)
        ensures
            sink == (SessionTrackSink {
                kind,
                blocked_sends: 0,
                last_backpressure_log: None,
                blocked: false,
            }),
    {
        SessionTrackSink { kind, blocked_sends: 0, last_backpressure_log: None, blocked: false }
    }

    pub fn wake_kind(&self) -> (kind: PlaybackWakeKind)
        ensures
            kind == pump::track_wake(self.kind),
    {
        track_wake_kind(self.kind)
    }

    /// Whether a message may be sent at all: not once playback is being stopped.
    pub fn before_send(&mut self, message: &SessionMsg, cancelled: bool) -> (refused: Option<
        SinkError,
    >)
        ensures
            match refused {
                Some(error) => cancelled && error@ == SinkFailure::Cancelled(
                    track_text(message.label_text(), " TrackSink send cancelled"@),
                ) && *final(self) == (SessionTrackSink { blocked: false, ..*old(self) }),
                None => !cancelled && *final(self) == *old(self),
            },
    {
        if !cancelled {
            return None;
        }
        self.blocked = false;
        let mut text = "SanctuaryPlayer: ".to_owned();
        text.append(message.label());
        text.append(" TrackSink send cancelled");
        Some(SinkError::Cancelled(text))
    }

    /// Decides what is to be done after an attempt to send a message.
    pub fn after_send(
        &mut self,
        message: &SessionMsg,
        result: SendResult,
        cancelled: bool,
        now: Instant,
    ) -> (step: SendStep)
        ensures
            old(self).attempted(message.label_text(), result, cancelled, now) == (
                step@,
                *final(self),
            ),
    {
        match result {
            SendResult::Delivered => {
                self.blocked = false;
                SendStep::Done(self.wake_kind())
            },
            SendResult::Full => {
                let log: bool = match self.last_backpressure_log {
                    Some(last) => now.saturating_duration_since(last).nanos
                        >= DIAGNOSTIC_INTERVAL_NANOS,
                    None => true,
                };
                let wake = if self.blocked { None } else { Some(self.wake_kind()) };
                if self.blocked_sends != u64::MAX {
                    self.blocked_sends = self.blocked_sends + 1;
                }
                if log {
                    self.last_backpressure_log = Some(now);
                }
                self.blocked = true;
                SendStep::Retry { log, wake }
            },
            SendResult::Disconnected => {
                self.blocked = false;
                let mut text = "SanctuaryPlayer: ".to_owned();
                text.append(message.label());
                if cancelled {
                    text.append(" TrackSink receiver dropped during cancellation");
                    SendStep::Failed(SinkError::Cancelled(text))
                } else {
                    text.append(" TrackSink receiver dropped");
                    SendStep::Failed(SinkError::ReceiverDropped(text))
                }
            },
        }
    }

    /// The message for a frame of the track.
    pub fn frame_message(&self, kind: MediaType, frame: MediaFrame) -> (message: Result<
        SessionMsg,
        SinkError,
    >)
        ensures
            match message {
                Ok(message) => kind == self.kind && message == (SessionMsg::Frame { kind, frame }),
                Err(error) => kind != self.kind && error@ == (SinkFailure::KindMismatch {
                    expected: self.kind,
                    got: kind,
                }),
            },
    {
        if kind != self.kind {
            return Err(SinkError::KindMismatch { expected: self.kind, got: kind });
        }
        Ok(SessionMsg::Frame { kind, frame })
    }

    /// The message for a barrier in the track.
    pub fn barrier_message(&self, barrier: BarrierKind) -> (message: SessionMsg)
        ensures
            message == (SessionMsg::Barrier { kind: Some(self.kind), barrier }),
    {
        SessionMsg::Barrier { kind: Some(self.kind), barrier }
    }
}

/// The sinks for the tracks of a session, in order; there is none if a track is neither
/// audio nor video.
pub fn open_track_sinks(tracks: &Vec<StreamInfo>) -> (sinks: Result<
    Vec<SessionTrackSink>,
    SinkError,
>)
    ensures
        match sinks {
            Ok(sinks) => sinks@.len() == tracks@.len() && forall|i: int|
                #![trigger sinks@[i]]
                0 <= i < tracks@.len() ==> channel_of(tracks@[i].media_type) is Some && sinks@[i]
                    == (SessionTrackSink {
                    kind: tracks@[i].media_type,
                    blocked_sends: 0,
                    last_backpressure_log: None,
                    blocked: false,
                }),
            Err(error) => exists|i: int|
                0 <= i < tracks@.len() && channel_of((#[trigger] tracks@[i]).media_type) is None
                    && error@ == SinkFailure::UnsupportedTrack(tracks@[i].media_type) && forall|
                    k: int,
                |
                    0 <= k < i ==> channel_of((#[trigger] tracks@[k]).media_type) is Some,
        },
{
    let mut sinks: Vec<SessionTrackSink> = Vec::new();
    let mut i: usize = 0;
    while i < tracks.len()
        invariant
            i <= tracks@.len(),
            sinks@.len() == i,
            forall|k: int|
                #![trigger sinks@[k]]
                0 <= k < i ==> channel_of(tracks@[k].media_type) is Some && sinks@[k] == (
                SessionTrackSink {
                    kind: tracks@[k].media_type,
                    blocked_sends: 0,
                    last_backpressure_log: None,
                    blocked: false,
                }),
        decreases tracks@.len() - i,
    {
        let kind = tracks[i].media_type;
        if track_channel(kind).is_none() {
            assert(channel_of(tracks@[i as int].media_type) is None);
            assert forall|k: int| 0 <= k < i implies channel_of(
                (#[trigger] tracks@[k]).media_type,
            ) is Some by {
                assert(sinks@[k].kind == tracks@[k].media_type);
            }
            return Err(SinkError::UnsupportedTrack(kind));
        }
        sinks.push(SessionTrackSink::new(kind));
        i += 1;
    }
    Ok(sinks)
}

/// A message that is blocked wakes playback once, however often it is tried.
pub proof fn blocked_message_wakes_once(
    sink: SessionTrackSink,
    label: Seq<char>,
    now: Instant,
    later: Instant,
)
    ensures
        ({
            let (_, first) = sink.attempted(label, SendResult::Full, false, now);
            let (second, _) = first.attempted(label, SendResult::Full, false, later);
            &&& first.blocked
            &&& second matches Step::Retry { wake, .. } && wake is None
        }),
{
}

/// Backpressure is written to the log at most once in a second.
pub proof fn backpressure_is_logged_once_in_a_second(
    sink: SessionTrackSink,
    label: Seq<char>,
    now: Instant,
    later: Instant,
)
    requires
        sink.attempted(label, SendResult::Full, false, now).0 matches Step::Retry { log, .. } && log,
        later.nanos < now.nanos + DIAGNOSTIC_INTERVAL_NANOS,
    ensures
        sink.attempted(label, SendResult::Full, false, now).1.attempted(
            label,
            SendResult::Full,
            false,
            later,
        ).0 matches Step::Retry { log, .. } && !log,
{
}

/// What decodes a track.
#[derive(Debug, PartialEq, Eq)]
pub struct DecoderDebugInfo {
    pub implementation: String,
    pub hardware_accelerated: bool,
}

impl Clone for DecoderDebugInfo {
    fn clone(&self) -> (info: Self)
        ensures
            info == *self,
    {
        DecoderDebugInfo {
            implementation: self.implementation.clone(),
            hardware_accelerated: self.hardware_accelerated,
        }
    }
}

/// A track of the pipeline, and what decodes it, where that is known.
#[derive(Debug, PartialEq, Eq)]
pub struct TrackDecoder {
    pub media_type: MediaType,
    pub decoder: Option<DecoderDebugInfo>,
}

/// What decodes the first track of a kind.
pub open spec fn first_decoder(tracks: Seq<TrackDecoder>, kind: MediaType, from: int) -> Option<
    DecoderDebugInfo,
>
    decreases tracks.len() - from,
{
    if from < 0 || from >= tracks.len() {
        None
    } else if tracks[from].media_type == kind {
        tracks[from].decoder
    } else {
        first_decoder(tracks, kind, from + 1)
    }
}

/// Finds what decodes the first track of a kind.
pub fn selected_decoder_info(tracks: &Vec<TrackDecoder>, media_type: MediaType) -> (info: Option<
    DecoderDebugInfo,
>)
    ensures
        info == first_decoder(tracks@, media_type, 0),
{
    let mut i: usize = 0;
    while i < tracks.len()
        invariant
            i <= tracks@.len(),
            first_decoder(tracks@, media_type, 0) == first_decoder(tracks@, media_type, i as int),
        decreases tracks@.len() - i,
    {
        if tracks[i].media_type == media_type {
            return match &tracks[i].decoder {
                Some(decoder) => Some(decoder.clone()),
                None => None,
            };
        }
        i += 1;
    }
    None
}

/// The job that plays an input: its tracks go on display, without audio where that is not
/// wanted. `input` is written as a text in a document.
pub open spec fn job_document(input: Seq<char>, include_audio: bool) -> Seq<char> {
    (if include_audio {
        "{\"@display\":{\"audio\":[{\"from\":\"@in\"}],\"video\":[{\"from\":\"@in\"}]},\"@in\":{\"all\":[{\"from\":"@
    } else {
        "{\"@display\":{\"video\":[{\"from\":\"@in\"}]},\"@in\":{\"all\":[{\"from\":"@
    }) + input + "}]}}"@
}

/// Writes the job that plays what an address leads to.
pub fn playback_job(uri: &str, include_audio: bool) -> (job: String)
    ensures
        job@ == job_document(json::json_text_of(uri@), include_audio),
{
    let mut job = if include_audio {
        "{\"@display\":{\"audio\":[{\"from\":\"@in\"}],\"video\":[{\"from\":\"@in\"}]},\"@in\":{\"all\":[{\"from\":".to_owned()
    } else {
        "{\"@display\":{\"video\":[{\"from\":\"@in\"}]},\"@in\":{\"all\":[{\"from\":".to_owned()
    };
    job.append(json::json_text(uri).as_str());
    job.append("}]}}");
    job
}

/// Why a session could not be started.
#[derive(Clone, Copy, Debug, PartialEq, Eq, Structural)]
pub enum OpenError {
    MediaBeforeStart,
    NoVideo,
}

impl OpenError {
    pub open spec fn text(self) -> Seq<char> {
        match self {
            OpenError::MediaBeforeStart => "OxideAV emitted media before stream initialisation"@,
            OpenError::NoVideo => "OxideAV source contains no video stream"@,
        }
    }

    pub fn message(self) -> (message: String)
        ensures
            message@ == self.text(),
    {
        match self {
            OpenError::MediaBeforeStart => "OxideAV emitted media before stream initialisation".to_owned(),
            OpenError::NoVideo => "OxideAV source contains no video stream".to_owned(),
        }
    }
}

/// The tracks of a session whose first message is there: it has to say that the session
/// has started, and there has to be video.
pub fn started_session(message: &SessionMsg, streams: &Vec<StreamInfo>) -> (session: Result<
    pump::SessionStreams,
    OpenError,
>)
    ensures
        match session {
            Ok(session) => {
                &&& message is Started
                &&& pump::first_track(streams@, MediaType::Video) == Some(session.video)
                &&& session.audio == pump::first_track(streams@, MediaType::Audio)
                &&& session.duration == pump::longest(streams@)
            },
            Err(error) => if message is Started {
                error == OpenError::NoVideo && pump::first_track(streams@, MediaType::Video) is None
            } else {
                error == OpenError::MediaBeforeStart
            },
        },
{
    match message {
        SessionMsg::Started => match pump::session_streams(streams) {
            Some(session) => Ok(session),
            None => Err(OpenError::NoVideo),
        },
        _ => Err(OpenError::MediaBeforeStart),
    }
}

/// Messages of a track go by the channel of their kind, and all others by the control
/// channel; a track that is neither sound nor picture has none.
pub proof fn messages_go_by_their_channel(message: SessionMsg)
    ensures
        message matches SessionMsg::Frame { kind, .. } ==> {
            &&& kind is Audio ==> route_of(message) == Some(SessionChannel::Audio)
            &&& kind is Video ==> route_of(message) == Some(SessionChannel::Video)
            &&& !(kind is Audio) && !(kind is Video) ==> route_of(message) is None
        },
        message matches SessionMsg::StreamUpdate(track) ==> {
            &&& track.media_type is Audio ==> route_of(message) == Some(SessionChannel::Audio)
            &&& track.media_type is Video ==> route_of(message) == Some(SessionChannel::Video)
        },
        !(message is Frame) && !(message is StreamUpdate) ==> route_of(message) == Some(
            SessionChannel::Control,
        ),
        channel_wake(SessionChannel::Audio) is Audio,
        channel_wake(SessionChannel::Video) is Video,
        channel_wake(SessionChannel::Control) is Control,
{
}

/// A message that was delivered wakes playback for its track; one that finds no room is tried
/// again, wakes playback the first time, and is logged when nothing was for a second; one that
/// nobody is there for is given up.
pub proof fn messages_are_delivered_or_tried_again(
    sink: SessionTrackSink,
    label: Seq<char>,
    cancelled: bool,
    now: Instant,
)
    requires
        sink.kind is Audio || sink.kind is Video,
    ensures
        ({
            let wake = if sink.kind is Audio {
                PlaybackWakeKind::Audio
            } else {
                PlaybackWakeKind::Video
            };
            let (delivered, after_delivery) = sink.attempted(
                label,
                SendResult::Delivered,
                cancelled,
                now,
            );
            let (full, after_full) = sink.attempted(label, SendResult::Full, cancelled, now);
            let (gone, _) = sink.attempted(label, SendResult::Disconnected, cancelled, now);
            &&& delivered == Step::Done(wake)
            &&& !after_delivery.blocked
            &&& full is Retry
            &&& full->wake == (if sink.blocked {
                None
            } else {
                Some(wake)
            })
            &&& sink.last_backpressure_log is None ==> full->log
            &&& sink.last_backpressure_log matches Some(last) ==> last.nanos <= now.nanos ==> (
            full->log <==> now.nanos - last.nanos >= 1_000_000_000)
            &&& full->log ==> after_full.last_backpressure_log == Some(now)
            &&& after_full.blocked
            &&& sink.blocked_sends < u64::MAX ==> after_full.blocked_sends == sink.blocked_sends + 1
            &&& gone is Failed
            &&& cancelled <==> (gone matches Step::Failed(SinkFailure::Cancelled(_)))
        }),
{
}

/// The decoder of a kind is that of the first track of the kind.
pub proof fn decoder_is_that_of_the_first_track(
    tracks: Seq<TrackDecoder>,
    kind: MediaType,
    from: int,
    k: int,
)
    requires
        0 <= from <= k < tracks.len(),
        tracks[k].media_type == kind,
        forall|j: int| from <= j < k ==> (#[trigger] tracks[j]).media_type != kind,
    ensures
        first_decoder(tracks, kind, from) == tracks[k].decoder,
    decreases k - from,
{
    if from < k {
        decoder_is_that_of_the_first_track(tracks, kind, from + 1, k);
    }
}

} // verus!
