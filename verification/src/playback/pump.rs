//! Pumping: which session channel is read next, and what a message does.

use crate::model::PlaybackState;
use crate::playback::engine::{
    AudioLevels, BarrierKind, MediaFrame, OxidePlayback, Playback, PlaybackCore,
    PlaybackDiagnostics, PlaybackError, SessionStep, SESSION_CHANNEL_CAP, VIDEO_QUEUE_CAP,
};
use crate::audio_timeline::QueueResult;
use crate::playback::clock::VideoClock;
use crate::playback::stream;
use crate::playback::stream::{MediaType, StreamInfo};
use crate::playback::wake::PlaybackWakeKind;
use crate::time::{Duration, Instant};
use vstd::prelude::*;
use vstd::string::*;

verus! {

/// What a session says.
#[derive(Clone, Copy, Debug, PartialEq, Eq, Structural)]
pub enum SessionMsg {
    Started,
    StreamUpdate(StreamInfo),
    Frame { kind: MediaType, frame: MediaFrame },
    Barrier { kind: Option<MediaType>, barrier: BarrierKind },
    EndOfStream(MediaType),
    Finished,
}

impl SessionMsg {
    pub open spec fn label_text(self) -> Seq<char> {
        match self {
            SessionMsg::Started => "start"@,
            SessionMsg::StreamUpdate(_) => "stream-update"@,
            SessionMsg::Frame { kind, .. } => match kind {
                MediaType::Audio => "audio"@,
                MediaType::Video => "video"@,
                _ => "other"@,
            },
            SessionMsg::Barrier { .. } => "barrier"@,
            SessionMsg::EndOfStream(_) => "end-of-stream"@,
            SessionMsg::Finished => "finish"@,
        }
    }

    pub open spec fn wakes(self) -> PlaybackWakeKind {
        match self {
            SessionMsg::Frame { kind, .. } => track_wake(kind),
            _ => PlaybackWakeKind::Control,
        }
    }

    pub fn label(&self) -> (label: &'static str)
        ensures
            label@ == self.label_text(),
    {
        match self {
            SessionMsg::Started => "start",
            SessionMsg::StreamUpdate(_) => "stream-update",
            SessionMsg::Frame { kind, .. } => match kind {
                MediaType::Audio => "audio",
                MediaType::Video => "video",
                _ => "other",
            },
            SessionMsg::Barrier { .. } => "barrier",
            SessionMsg::EndOfStream(_) => "end-of-stream",
            SessionMsg::Finished => "finish",
        }
    }

    pub fn wake_kind(&self) -> (kind: PlaybackWakeKind)
        ensures
            kind == self.wakes(),
    {
        match self {
            SessionMsg::Frame { kind, .. } => track_wake_kind(*kind),
            _ => PlaybackWakeKind::Control,
        }
    }
}

/// The wake-up that goes with a track.
pub open spec fn track_wake(kind: MediaType) -> PlaybackWakeKind {
    match kind {
        MediaType::Audio => PlaybackWakeKind::Audio,
        MediaType::Video => PlaybackWakeKind::Video,
        _ => PlaybackWakeKind::Control,
    }
}

pub fn track_wake_kind(kind: MediaType) -> (wake: PlaybackWakeKind)
    ensures
        wake == track_wake(kind),
{
    match kind {
        MediaType::Audio => PlaybackWakeKind::Audio,
        MediaType::Video => PlaybackWakeKind::Video,
        _ => PlaybackWakeKind::Control,
    }
}

/// How many messages are in each session channel, or about to be.
#[derive(Clone, Copy, Debug, PartialEq, Eq, Structural)]
pub struct SessionChannelDepths {
    pub control: usize,
    pub audio: usize,
    pub video: usize,
}

/// One message fewer, down to none.
pub open spec fn depth_released(depth: usize) -> usize {
    if depth == 0 { 0 } else { (depth - 1) as usize }
}

pub fn release_session_depth(depth: usize) -> (released: usize)
    ensures
        released == depth_released(depth),
{
    if depth == 0 { 0 } else { depth - 1 }
}

impl SessionChannelDepths {
    pub open spec fn of(self, kind: MediaType) -> usize {
        match kind {
            MediaType::Audio => self.audio,
            MediaType::Video => self.video,
            _ => self.control,
        }
    }

    pub open spec fn with(self, kind: MediaType, depth: usize) -> Self {
        match kind {
            MediaType::Audio => SessionChannelDepths { audio: depth, ..self },
            MediaType::Video => SessionChannelDepths { video: depth, ..self },
            _ => SessionChannelDepths { control: depth, ..self },
        }
    }

    pub fn new() -> (depths: Self)
        ensures
            depths == (SessionChannelDepths { control: 0, audio: 0, video: 0 }),
    {
        SessionChannelDepths { control: 0, audio: 0, video: 0 }
    }

    pub fn for_kind(&self, kind: MediaType) -> (depth: usize)
        ensures
            depth == self.of(kind),
    {
        match kind {
            MediaType::Audio => self.audio,
            MediaType::Video => self.video,
            _ => self.control,
        }
    }

    /// The depth that shows: a sender that waits for room does not count.
    pub fn current(&self, kind: MediaType) -> (depth: usize)
        ensures
            depth == vstd::math::min(self.of(kind) as int, SESSION_CHANNEL_CAP as int),
    {
        let depth: usize = self.for_kind(kind);
        if depth < SESSION_CHANNEL_CAP { depth } else { SESSION_CHANNEL_CAP }
    }

    fn set(&mut self, kind: MediaType, depth: usize)
        ensures
            *final(self) == old(self).with(kind, depth),
    {
        match kind {
            MediaType::Audio => {
                self.audio = depth;
            },
            MediaType::Video => {
                self.video = depth;
            },
            _ => {
                self.control = depth;
            },
        }
    }

    /// A message is about to be sent.
    pub fn enter(&mut self, kind: MediaType)
        requires
            old(self).of(kind) < usize::MAX,
        ensures
            *final(self) == old(self).with(kind, (old(self).of(kind) + 1) as usize),
    {
        let depth: usize = self.for_kind(kind);
        self.set(kind, depth + 1);
    }

    /// A message has been received, or could not be sent.
    pub fn release(&mut self, kind: MediaType)
        ensures
            *final(self) == old(self).with(kind, depth_released(old(self).of(kind))),
    {
        let depth: usize = release_session_depth(self.for_kind(kind));
        self.set(kind, depth);
    }
}

/// A message that is entered and released leaves every depth as it was.
pub proof fn release_undoes_enter(depths: SessionChannelDepths, kind: MediaType)
    requires
        depths.of(kind) < usize::MAX,
    ensures
        ({
            let entered = depths.with(kind, (depths.of(kind) + 1) as usize);
            entered.with(kind, depth_released(entered.of(kind))) == depths
        }),
{
}

/// What decides whether audio and video are read together.
pub struct AvPumpState<'a> {
    pub state: &'a PlaybackState,
    pub first_frame_presented: bool,
    pub video_queue_len: usize,
    pub audio_preroll_ready: bool,
    pub audio_queued_samples: u64,
    pub audio_target_samples: u64,
    pub audio_headroom_samples: u64,
    pub audio_minimum_headroom_samples: u64,
}

/// Why neither channel need be read, where that is so: the ring is nearly full, a paused
/// player has something to show, or both tracks have enough ahead.
pub open spec fn av_block(
    state: PlaybackState,
    first_frame_presented: bool,
    video_queue_len: nat,
    levels: AudioLevels,
) -> Option<Seq<char>> {
    if levels.headroom_samples < levels.minimum_headroom_samples {
        Some("audio-ring-near-full"@)
    } else if !levels.preroll_ready {
        None
    } else if state is Paused {
        if first_frame_presented || video_queue_len != 0 { Some("paused-buffered"@) } else { None }
    } else if video_queue_len >= VIDEO_QUEUE_CAP && levels.queued_samples >= levels.target_samples {
        Some("av-buffers-ready"@)
    } else {
        None
    }
}

/// The same text, or none on both sides.
pub open spec fn same_reason(reason: Option<&'static str>, text: Option<Seq<char>>) -> bool {
    match (reason, text) {
        (Some(reason), Some(text)) => reason@ == text,
        (None, None) => true,
        _ => false,
    }
}

pub fn av_pump_block_reason(input: AvPumpState<'_>) -> (reason: Option<&'static str>)
    ensures
        same_reason(
            reason,
            av_block(
                *input.state,
                input.first_frame_presented,
                input.video_queue_len as nat,
                AudioLevels {
                    preroll_ready: input.audio_preroll_ready,
                    queued_samples: input.audio_queued_samples,
                    target_samples: input.audio_target_samples,
                    headroom_samples: input.audio_headroom_samples,
                    minimum_headroom_samples: input.audio_minimum_headroom_samples,
                },
            ),
        ),
{
    if input.audio_headroom_samples < input.audio_minimum_headroom_samples {
        return Some("audio-ring-near-full");
    }
    if !input.audio_preroll_ready {
        return None;
    }
    if matches!(input.state, PlaybackState::Paused) {
        return if input.first_frame_presented || input.video_queue_len != 0 {
            Some("paused-buffered")
        } else {
            None
        };
    }
    if input.video_queue_len >= VIDEO_QUEUE_CAP && input.audio_queued_samples
        >= input.audio_target_samples {
        Some("av-buffers-ready")
    } else {
        None
    }
}

impl Playback {
    /// How many frames may wait: any while a seek drains the channels, one to show while
    /// paused, and otherwise the lookahead.
    pub open spec fn video_limit(self) -> usize {
        if self.core.seek_pending is Some {
            usize::MAX
        } else if self.core.state is Paused {
            if self.queue.len() == 0 { 1 } else { 0 }
        } else {
            VIDEO_QUEUE_CAP
        }
    }

    /// Why nothing is read from the session, where that is so.
    pub open spec fn block(self, levels: AudioLevels) -> Option<Seq<char>> {
        if self.core.sink_finished {
            Some("sink-finished"@)
        } else if self.core.state is Error {
            Some("playback-error"@)
        } else if self.core.seek_pending is Some {
            None
        } else if self.core.pending_audio_frame is Some {
            Some("audio-frame-pending"@)
        } else if self.core.audio_stream is Some && !self.core.audio_open {
            None
        } else if self.core.audio_open {
            av_block(self.core.state, self.core.first_frame_presented, self.queue.len(), levels)
        } else if self.queue.len() >= self.video_limit() {
            Some("video-buffer-ready"@)
        } else {
            None
        }
    }

    /// Whether the audio channel is to be read.
    pub open spec fn reads_audio(self, levels: AudioLevels) -> bool {
        if self.core.state is Error {
            false
        } else if self.core.seek_pending is Some {
            true
        } else if self.core.pending_audio_frame is Some {
            false
        } else if !self.core.audio_open {
            true
        } else if levels.headroom_samples < levels.minimum_headroom_samples {
            false
        } else if !levels.preroll_ready {
            true
        } else if self.core.state is Paused {
            false
        } else {
            levels.queued_samples < levels.target_samples
        }
    }

    /// What a message leads to.
    pub open spec fn message_handled(self, message: SessionMsg, now: Instant) -> (
        Result<SessionStep, PlaybackError>,
        Playback,
    ) {
        match message {
            SessionMsg::Started => (Ok(SessionStep::Done), self),
            SessionMsg::StreamUpdate(track) => {
                let (open, after) = self.stream_updated(track);
                (
                    match open {
                        Ok(open) => Ok(if open { SessionStep::OpenAudio } else { SessionStep::Done }),
                        Err(error) => Err(error),
                    },
                    after,
                )
            },
            SessionMsg::Frame { kind, frame } => {
                let (result, after) = self.frame_handled(kind, frame, now);
                (
                    match result {
                        Ok(()) => Ok(SessionStep::Done),
                        Err(error) => Err(error),
                    },
                    after,
                )
            },
            SessionMsg::Barrier { kind, barrier } => self.barrier_handled(kind, barrier, now),
            SessionMsg::EndOfStream(kind) => (Ok(SessionStep::Done), self.track_ended(kind)),
            SessionMsg::Finished => (Ok(SessionStep::Done), self.session_finished()),
        }
    }
}

impl OxidePlayback {
    pub fn video_pump_limit(&self) -> (limit: usize)
        ensures
            limit == self@.video_limit(),
    {
        if self.core.seek_pending.is_some() {
            usize::MAX
        } else if matches!(self.core.state, PlaybackState::Paused) {
            if self.video_queue.len() == 0 { 1 } else { 0 }
        } else {
            VIDEO_QUEUE_CAP
        }
    }

    pub fn pump_block_reason(&self, levels: AudioLevels) -> (reason: Option<&'static str>)
        ensures
            same_reason(reason, self@.block(levels)),
    {
        if self.core.sink_finished {
            return Some("sink-finished");
        }
        if matches!(self.core.state, PlaybackState::Error(_)) {
            return Some("playback-error");
        }
        if self.core.seek_pending.is_some() {
            return None;
        }
        if self.core.pending_audio_frame.is_some() {
            return Some("audio-frame-pending");
        }
        if self.core.audio_stream.is_some() && !self.core.audio_open {
            return None;
        }
        if self.core.audio_open {
            return av_pump_block_reason(
                AvPumpState {
                    state: &self.core.state,
                    first_frame_presented: self.core.first_frame_presented,
                    video_queue_len: self.video_queue.len(),
                    audio_preroll_ready: levels.preroll_ready,
                    audio_queued_samples: levels.queued_samples,
                    audio_target_samples: levels.target_samples,
                    audio_headroom_samples: levels.headroom_samples,
                    audio_minimum_headroom_samples: levels.minimum_headroom_samples,
                },
            );
        }
        if self.video_queue.len() >= self.video_pump_limit() {
            Some("video-buffer-ready")
        } else {
            None
        }
    }

    pub fn should_pump_audio_channel(&self, levels: AudioLevels) -> (pump: bool)
        ensures
            pump == self@.reads_audio(levels),
    {
        if matches!(self.core.state, PlaybackState::Error(_)) {
            return false;
        }
        if self.core.seek_pending.is_some() {
            return true;
        }
        if self.core.pending_audio_frame.is_some() {
            return false;
        }
        if !self.core.audio_open {
            return true;
        }
        if levels.headroom_samples < levels.minimum_headroom_samples {
            return false;
        }
        if !levels.preroll_ready {
            return true;
        }
        if matches!(self.core.state, PlaybackState::Paused) {
            return false;
        }
        levels.queued_samples < levels.target_samples
    }

    /// Whether the control channel is to be read.
    pub fn should_pump_control_channel(&self) -> (pump: bool)
        ensures
            pump == (!self.core.sink_finished && !(self.core.state is Error)),
    {
        !self.core.sink_finished && !matches!(self.core.state, PlaybackState::Error(_))
    }

    /// Whether the video channel is to be read.
    pub fn should_pump_video_channel(&self) -> (pump: bool)
        ensures
            pump == (self@.queue.len() < self@.video_limit()),
    {
        self.video_queue.len() < self.video_pump_limit()
    }

    /// Takes in a message.
    pub fn handle_session_message(&mut self, message: SessionMsg, now: Instant) -> (step: Result<
        SessionStep,
        PlaybackError,
    >)
        ensures
            step == old(self)@.message_handled(message, now).0,
            final(self)@ == old(self)@.message_handled(message, now).1,
    {
        match message {
            SessionMsg::Started => Ok(SessionStep::Done),
            SessionMsg::StreamUpdate(track) => match self.handle_stream_update(track) {
                Ok(open) => Ok(if open { SessionStep::OpenAudio } else { SessionStep::Done }),
                Err(error) => Err(error),
            },
            SessionMsg::Frame { kind, frame } => match self.handle_frame(kind, frame, now) {
                Ok(()) => Ok(SessionStep::Done),
                Err(error) => Err(error),
            },
            SessionMsg::Barrier { kind, barrier } => self.handle_seek_barrier(kind, barrier, now),
            SessionMsg::EndOfStream(kind) => {
                self.handle_end_of_stream(kind);
                Ok(SessionStep::Done)
            },
            SessionMsg::Finished => {
                self.handle_finished();
                Ok(SessionStep::Done)
            },
        }
    }

    /// Takes note of what the audio output did with a frame: one that it deferred waits.
    pub fn audio_queued(&mut self, frame: MediaFrame, result: QueueResult)
        ensures
            final(self)@ == old(self)@.with_core(
                PlaybackCore {
                    pending_audio_frame: if result is Deferred { Some(frame) } else { None },
                    ..old(self).core
                },
            ),
    {
        self.core.pending_audio_frame = if matches!(result, QueueResult::Deferred) {
            Some(frame)
        } else {
            None
        };
    }

    /// Takes the frame that waits for the audio output, to offer it once more.
    pub fn take_pending_audio(&mut self) -> (frame: Option<MediaFrame>)
        ensures
            frame == old(self).core.pending_audio_frame,
            final(self)@ == old(self)@.with_core(
                PlaybackCore { pending_audio_frame: None, ..old(self).core },
            ),
    {
        let frame = self.core.pending_audio_frame;
        self.core.pending_audio_frame = None;
        frame
    }
}

/// The tracks that a session plays.
#[derive(Clone, Copy, Debug, PartialEq, Eq, Structural)]
pub struct SessionStreams {
    pub video: StreamInfo,
    pub audio: Option<StreamInfo>,
    pub duration: Option<Duration>,
}

/// The first track of a kind.
pub open spec fn first_track(streams: Seq<StreamInfo>, kind: MediaType) -> Option<StreamInfo>
    decreases streams.len(),
{
    if streams.len() == 0 {
        None
    } else if streams[0].media_type == kind {
        Some(streams[0])
    } else {
        first_track(streams.drop_first(), kind)
    }
}

/// The length of the longest track whose length is known.
pub open spec fn longest(streams: Seq<StreamInfo>) -> Option<Duration>
    decreases streams.len(),
{
    if streams.len() == 0 {
        None
    } else {
        match (longest(streams.drop_last()), stream::stream_span(streams.last())) {
            (Some(a), Some(b)) => Some(if b.nanos < a.nanos { a } else { b }),
            (Some(a), None) => Some(a),
            (None, b) => b,
        }
    }
}

fn find_track(streams: &Vec<StreamInfo>, kind: MediaType) -> (track: Option<StreamInfo>)
    ensures
        track == first_track(streams@, kind),
{
    let mut i: usize = 0;
    assert(streams@.skip(0) =~= streams@);
    while i < streams.len()
        invariant
            i <= streams.len(),
            first_track(streams@, kind) == first_track(streams@.skip(i as int), kind),
        decreases streams.len() - i,
    {
        if streams[i].media_type == kind {
            return Some(streams[i]);
        }
        assert(streams@.skip(i as int).drop_first() =~= streams@.skip(i + 1));
        i += 1;
    }
    None
}

/// The tracks of a session that has started; there is none without video.
pub fn session_streams(streams: &Vec<StreamInfo>) -> (session: Option<SessionStreams>)
    ensures
        session == (match first_track(streams@, MediaType::Video) {
            Some(video) => Some(
                SessionStreams {
                    video,
                    audio: first_track(streams@, MediaType::Audio),
                    duration: longest(streams@),
                },
            ),
            None => None,
        }),
{
    let video = match find_track(streams, MediaType::Video) {
        Some(video) => video,
        None => {
            return None;
        },
    };
    let audio = find_track(streams, MediaType::Audio);
    let mut duration: Option<Duration> = None;
    let mut i: usize = 0;
    assert(streams@.take(0) =~= Seq::<StreamInfo>::empty());
    while i < streams.len()
        invariant
            i <= streams.len(),
            duration == longest(streams@.take(i as int)),
        decreases streams.len() - i,
    {
        assert(streams@.take(i + 1).drop_last() =~= streams@.take(i as int));
        duration = match (duration, stream::stream_duration(&streams[i])) {
            (Some(a), Some(b)) => Some(if b.nanos < a.nanos { a } else { b }),
            (Some(a), None) => Some(a),
            (None, b) => b,
        };
        i += 1;
    }
    assert(streams@.take(streams@.len() as int) =~= streams@);
    Some(SessionStreams { video, audio, duration })
}

impl OxidePlayback {
    /// Playback of a session that has just started: paused at the beginning.
    pub fn open(session: SessionStreams) -> (playback: Self)
        ensures
            playback@ == (Playback {
                core: PlaybackCore {
                    state: PlaybackState::Paused,
                    position: Duration { nanos: 0 },
                    duration: session.duration,
                    executor: true,
                    video_stream: session.video,
                    audio_stream: session.audio,
                    audio_open: false,
                    pending_audio_frame: None,
                    video_clock: VideoClock::unset(),
                    timeline_origin: stream::origin_of(
                        stream::stream_start(session.video),
                        audio_start(session),
                        session.audio is Some,
                    ),
                    first_video: stream::stream_start(session.video),
                    first_audio: audio_start(session),
                    audio_anchor: audio_start(session),
                    first_frame_presented: false,
                    starvation_started_at: None,
                    sink_finished: false,
                    video_eof: false,
                    audio_eof: false,
                    seek_pending: None,
                    post_seek_epoch: None,
                    queued_seek: None,
                    seek_supported: true,
                    diagnostics: PlaybackDiagnostics {
                        received_audio_frames: 0,
                        received_video_frames: 0,
                        presented_video_frames: 0,
                        dropped_video_frames: 0,
                    },
                },
                queue: Seq::empty(),
                commands: Seq::empty(),
            }),
    {
        let first_video = stream::stream_start_nanos(&session.video);
        let first_audio = match session.audio {
            Some(track) => stream::stream_start_nanos(&track),
            None => None,
        };
        OxidePlayback {
            core: PlaybackCore {
                state: PlaybackState::Paused,
                position: Duration::zero(),
                duration: session.duration,
                executor: true,
                video_stream: session.video,
                audio_stream: session.audio,
                audio_open: false,
                pending_audio_frame: None,
                video_clock: VideoClock::new(),
                timeline_origin: stream::timeline_origin(
                    first_video,
                    first_audio,
                    session.audio.is_some(),
                ),
                first_video,
                first_audio,
                audio_anchor: first_audio,
                first_frame_presented: false,
                starvation_started_at: None,
                sink_finished: false,
                video_eof: false,
                audio_eof: false,
                seek_pending: None,
                post_seek_epoch: None,
                queued_seek: None,
                seek_supported: true,
                diagnostics: PlaybackDiagnostics::new(),
            },
            video_queue: Vec::new(),
            commands: Vec::new(),
        }
    }
}

/// Where the audio of a session starts.
pub open spec fn audio_start(session: SessionStreams) -> Option<i128> {
    match session.audio {
        Some(track) => stream::stream_start(track),
        None => None,
    }
}

/// The channel that is read, in the order in which they are.
#[derive(Clone, Copy, Debug, PartialEq, Eq, Structural)]
pub enum PumpPhase {
    Control,
    Audio,
    Video,
    Done,
}

/// What came of reading a channel.
#[derive(Clone, Copy, Debug, PartialEq, Eq, Structural)]
pub enum Received {
    /// A message, which was taken in.
    Handled,
    /// A message, on which playback failed.
    Failed,
    Empty,
    Disconnected,
}

impl PumpPhase {
    pub open spec fn following(self) -> Self {
        match self {
            PumpPhase::Control => PumpPhase::Audio,
            PumpPhase::Audio => PumpPhase::Video,
            PumpPhase::Video | PumpPhase::Done => PumpPhase::Done,
        }
    }

    pub fn next(self) -> (phase: Self)
        ensures
            phase == self.following(),
    {
        match self {
            PumpPhase::Control => PumpPhase::Audio,
            PumpPhase::Audio => PumpPhase::Video,
            PumpPhase::Video | PumpPhase::Done => PumpPhase::Done,
        }
    }
}

impl Playback {
    pub open spec fn without_executor(self) -> Playback {
        self.with_core(PlaybackCore { executor: false, ..self.core })
    }

    /// Whether a channel is to be read.
    pub open spec fn reads(self, phase: PumpPhase, levels: AudioLevels) -> bool {
        match phase {
            PumpPhase::Control => !self.core.sink_finished && !(self.core.state is Error),
            PumpPhase::Audio => self.reads_audio(levels),
            PumpPhase::Video => self.queue.len() < self.video_limit(),
            PumpPhase::Done => false,
        }
    }

    /// The first channel from `phase` on that is to be read.
    pub open spec fn pump_phase(self, phase: PumpPhase, levels: AudioLevels) -> PumpPhase {
        if self.reads(phase, levels) {
            phase
        } else if self.reads(phase.following(), levels) {
            phase.following()
        } else if self.reads(phase.following().following(), levels) {
            phase.following().following()
        } else {
            PumpPhase::Done
        }
    }
}

impl OxidePlayback {
    fn should_pump(&self, phase: PumpPhase, levels: AudioLevels) -> (pump: bool)
        ensures
            pump == self@.reads(phase, levels),
    {
        match phase {
            PumpPhase::Control => self.should_pump_control_channel(),
            PumpPhase::Audio => self.should_pump_audio_channel(levels),
            PumpPhase::Video => self.should_pump_video_channel(),
            PumpPhase::Done => false,
        }
    }

    /// Finds the channel that is to be read next, from `phase` on.
    pub fn pump_phase(&self, phase: PumpPhase, levels: AudioLevels) -> (next: PumpPhase)
        ensures
            next == self@.pump_phase(phase, levels),
    {
        if self.should_pump(phase, levels) {
            return phase;
        }
        let second = phase.next();
        if self.should_pump(second, levels) {
            return second;
        }
        let third = second.next();
        if self.should_pump(third, levels) {
            return third;
        }
        PumpPhase::Done
    }

    /// Takes note of what came of reading a channel, and goes on to the next one unless
    /// there may be more in it. A control channel that is gone ends the session.
    pub fn pump_received(&mut self, phase: PumpPhase, received: Received) -> (next: PumpPhase)
        ensures
            next == (if received is Handled { phase } else { phase.following() }),
            final(self)@ == (if phase is Control && received is Disconnected {
                old(self)@.with_core(PlaybackCore { sink_finished: true, ..old(self).core })
            } else {
                old(self)@
            }),
    {
        match received {
            Received::Handled => phase,
            Received::Disconnected => {
                if matches!(phase, PumpPhase::Control) {
                    self.core.sink_finished = true;
                }
                phase.next()
            },
            Received::Failed | Received::Empty => phase.next(),
        }
    }

    /// Takes note of how the decoder came to its end.
    pub fn collect_executor_result(&mut self, error: Option<&str>, now: Instant)
        ensures
            match error {
                None => final(self)@ == old(self)@.without_executor(),
                Some(error) => exists|message: String|
                    message@ == "OxideAV playback failed: "@ + error@ && final(self)@
                        == #[trigger] old(self)@.without_executor().failed(message, now),
            },
    {
        self.core.executor = false;
        match error {
            Some(error) => {
                let mut message = "OxideAV playback failed: ".to_owned();
                message.append(error);
                self.fail(message, now);
            },
            None => {},
        }
    }
}

/// Channels are read in order: reading never goes back to an earlier one.
pub proof fn channels_are_read_in_order(playback: Playback, phase: PumpPhase, levels: AudioLevels)
    ensures
        ({
            let next = playback.pump_phase(phase, levels);
            &&& next == phase || next == phase.following() || next
                == phase.following().following() || next is Done
            &&& !(next is Done) ==> playback.reads(next, levels)
            &&& next is Done && !(phase is Done) ==> !playback.reads(phase, levels)
        }),
{
}

/// A seek under way drains every channel, whatever waits, so that its barriers are found.
pub proof fn seek_drains_every_channel(playback: Playback, levels: AudioLevels)
    requires
        playback.core.seek_pending is Some,
        !(playback.core.state is Error),
        playback.queue.len() < usize::MAX,
    ensures
        playback.reads(PumpPhase::Audio, levels),
        playback.reads(PumpPhase::Video, levels),
        !playback.core.sink_finished ==> playback.reads(PumpPhase::Control, levels)
            && playback.block(levels) is None,
{
}

/// With sound, playback goes on reading until two frames and enough sound are there; paused,
/// until there is a frame to show. Before the sound has begun it goes on in any case, as long
/// as there is room for it.
pub proof fn playback_reads_until_it_has_enough(playback: Playback, levels: AudioLevels)
    requires
        !playback.core.sink_finished,
        !(playback.core.state is Error),
        playback.core.seek_pending is None,
        playback.core.pending_audio_frame is None,
        playback.core.audio_open,
    ensures
        ({
            let room = levels.headroom_samples >= levels.minimum_headroom_samples;
            let waits = playback.block(levels) is Some;
            &&& !room ==> waits
            &&& room && !levels.preroll_ready ==> !waits
            &&& room && levels.preroll_ready && playback.core.state is Paused ==> waits == (
            playback.core.first_frame_presented || playback.queue.len() > 0)
            &&& room && levels.preroll_ready && !(playback.core.state is Paused) ==> waits == (
            playback.queue.len() >= 2 && levels.queued_samples >= levels.target_samples)
        }),
{
}

/// Without sound, playback goes on reading until two frames are there; paused, until there is
/// one.
pub proof fn silent_playback_reads_two_frames(playback: Playback, levels: AudioLevels)
    requires
        !playback.core.sink_finished,
        !(playback.core.state is Error),
        playback.core.seek_pending is None,
        playback.core.pending_audio_frame is None,
        !playback.core.audio_open,
    ensures
        playback.core.audio_stream is Some ==> playback.block(levels) is None,
        playback.core.audio_stream is None && playback.core.state is Paused ==> (playback.block(
            levels,
        ) is Some <==> playback.queue.len() >= 1),
        playback.core.audio_stream is None && !(playback.core.state is Paused) ==> (playback.block(
            levels,
        ) is Some <==> playback.queue.len() >= 2),
{
}

/// Nothing more is read once the source has ended, once playback has failed, or while a piece
/// of sound waits for room.
pub proof fn playback_stops_reading(playback: Playback, levels: AudioLevels)
    ensures
        playback.core.sink_finished || playback.core.state is Error ==> playback.block(
            levels,
        ) is Some && !playback.reads(PumpPhase::Control, levels),
        playback.core.state is Error ==> !playback.reads(PumpPhase::Audio, levels),
        playback.core.pending_audio_frame is Some && playback.core.seek_pending is None
            ==> playback.block(levels) is Some && !playback.reads(PumpPhase::Audio, levels),
{
}

/// Frames are taken in up to two, one while playback is paused; sound is taken in until there
/// is enough, none of it while playback is paused and it has begun.
pub proof fn frames_and_sound_are_read_ahead(playback: Playback, levels: AudioLevels)
    requires
        playback.core.seek_pending is None,
    ensures
        playback.core.state is Paused ==> (playback.reads(PumpPhase::Video, levels)
            <==> playback.queue.len() == 0),
        !(playback.core.state is Paused) ==> (playback.reads(PumpPhase::Video, levels)
            <==> playback.queue.len() < 2),
        playback.core.pending_audio_frame is None && !(playback.core.state is Error) ==> {
            let room = levels.headroom_samples >= levels.minimum_headroom_samples;
            let reads = playback.reads(PumpPhase::Audio, levels);
            &&& !playback.core.audio_open ==> reads
            &&& playback.core.audio_open && !room ==> !reads
            &&& playback.core.audio_open && room && !levels.preroll_ready ==> reads
            &&& playback.core.audio_open && room && levels.preroll_ready
                && playback.core.state is Paused ==> !reads
            &&& playback.core.audio_open && room && levels.preroll_ready && !(
            playback.core.state is Paused) ==> reads == (levels.queued_samples
                < levels.target_samples)
        },
        !playback.reads(PumpPhase::Done, levels),
{
}

/// What is read comes first from the control channel, then from that of the sound, then from
/// that of the picture; a channel that is not to be read is passed over.
pub proof fn control_comes_before_sound_and_picture(playback: Playback, levels: AudioLevels)
    ensures
        ({
            let first = playback.pump_phase(PumpPhase::Control, levels);
            let control = !playback.core.sink_finished && !(playback.core.state is Error);
            &&& control ==> first is Control
            &&& !control && playback.reads(PumpPhase::Audio, levels) ==> first is Audio
            &&& !control && !playback.reads(PumpPhase::Audio, levels) && playback.reads(
                PumpPhase::Video,
                levels,
            ) ==> first is Video
            &&& !control && !playback.reads(PumpPhase::Audio, levels) && !playback.reads(
                PumpPhase::Video,
                levels,
            ) ==> first is Done
        }),
        PumpPhase::Control.following() is Audio,
        PumpPhase::Audio.following() is Video,
        PumpPhase::Video.following() is Done,
{
}

/// The track of a kind is the first of that kind.
pub proof fn first_track_of_a_kind_is_taken(streams: Seq<StreamInfo>, kind: MediaType)
    ensures
        match first_track(streams, kind) {
            Some(track) => exists|i: int|
                0 <= i < streams.len() && #[trigger] streams[i] == track && track.media_type == kind
                    && forall|j: int| 0 <= j < i ==> (#[trigger] streams[j]).media_type != kind,
            None => forall|j: int| 0 <= j < streams.len() ==> (#[trigger] streams[j]).media_type
                != kind,
        },
    decreases streams.len(),
{
    if streams.len() > 0 {
        if streams[0].media_type == kind {
            assert(streams[0] == first_track(streams, kind).unwrap());
        } else {
            let rest = streams.drop_first();
            first_track_of_a_kind_is_taken(rest, kind);
            match first_track(rest, kind) {
                Some(track) => {
                    let i = choose|i: int|
                        0 <= i < rest.len() && #[trigger] rest[i] == track && track.media_type == kind
                            && forall|j: int|
                            0 <= j < i ==> (#[trigger] rest[j]).media_type != kind;
                    assert(streams[i + 1] == track);
                    assert forall|j: int| 0 <= j < i + 1 implies (
                    #[trigger] streams[j]).media_type != kind by {
                        if j > 0 {
                            assert(rest[j - 1] == streams[j]);
                        }
                    }
                },
                None => {
                    assert forall|j: int| 0 <= j < streams.len() implies (
                    #[trigger] streams[j]).media_type != kind by {
                        if j > 0 {
                            assert(rest[j - 1] == streams[j]);
                        }
                    }
                },
            }
        }
    }
}

/// The length of a source is that of its longest track, and unknown only if that of every
/// track is.
pub proof fn source_is_as_long_as_its_longest_track(streams: Seq<StreamInfo>, k: int)
    requires
        0 <= k < streams.len(),
    ensures
        stream::stream_span(streams[k]) is Some ==> longest(streams) is Some
            && stream::stream_span(streams[k]).unwrap().nanos <= longest(streams).unwrap().nanos,
        longest(streams) is Some ==> exists|i: int|
            0 <= i < streams.len() && stream::stream_span(#[trigger] streams[i]) == longest(
                streams,
            ),
    decreases streams.len(),
{
    let rest = streams.drop_last();
    let last = streams.last();
    assert(streams[streams.len() - 1] == last);
    if rest.len() > 0 {
        if k < rest.len() {
            assert(rest[k] == streams[k]);
            source_is_as_long_as_its_longest_track(rest, k);
        } else {
            source_is_as_long_as_its_longest_track(rest, 0);
        }
        if longest(rest) is Some {
            let i = choose|i: int|
                0 <= i < rest.len() && stream::stream_span(#[trigger] rest[i]) == longest(rest);
            assert(streams[i] == rest[i]);
        }
    } else {
        assert(longest(rest) is None);
    }
}

/// Each kind of message wakes its own: frames of sound, frames of the picture, and the rest.
pub proof fn messages_wake_their_own(message: SessionMsg)
    ensures
        message matches SessionMsg::Frame { kind, .. } ==> {
            &&& kind is Audio ==> message.wakes() is Audio
            &&& kind is Video ==> message.wakes() is Video
        },
        !(message is Frame) ==> message.wakes() is Control,
{
}

} // verus!
