//! The playback engine: decoded frames in, due frames out, and the transport between.
//!
//! The engine decides; what it wants done with the decoder and the audio device it leaves
//! behind as commands, in order. Whoever carries them out reports a failure with
//! [`OxidePlayback::fail`].

use crate::model::PlaybackState;
use crate::playback::clock::VideoClock;
use crate::playback::stream;
use crate::playback::stream::{MediaType, StreamInfo};
use crate::time::{Duration, Instant};
use crate::time_base;
use crate::time_base::TimeBase;
use vstd::prelude::*;

verus! {

/// The number of decoded frames that are kept ahead of the one on show.
pub const VIDEO_QUEUE_CAP: usize = 2;

/// The number of messages that a session channel holds.
pub const SESSION_CHANNEL_CAP: usize = 2;

/// How long playback may run without a frame before it counts as buffering.
pub const BUFFERING_GRACE_NANOS: u128 = 250_000_000;

/// A decoded frame: its time stamp, and the number by which its owner finds it.
#[derive(Clone, Copy, Debug, PartialEq, Eq, Structural)]
pub struct MediaFrame {
    pub pts: Option<i64>,
    pub id: u64,
}

/// A seek that is under way: its barriers have not all come. The decoder has told its
/// generation once it has been handed the seek.
#[derive(Clone, Copy, Debug, PartialEq, Eq)]
pub struct PendingSeek {
    pub generation: Option<u32>,
    pub requested: Duration,
    pub prior_position: Duration,
    pub resume_playing: bool,
    pub barriers_remaining: usize,
    pub landing: Option<(i64, TimeBase)>,
    pub rejected: bool,
}

/// What is dropped after a seek: frames before the landing, until each track has reached
/// it.
#[derive(Clone, Copy, Debug, PartialEq, Eq, Structural)]
pub struct PostSeekEpoch {
    pub floor: Duration,
    pub audio_aligned: bool,
    pub video_aligned: bool,
    pub dropped_audio_frames: u64,
    pub dropped_video_frames: u64,
}

/// What a source seek left in the stream of a track.
#[derive(Clone, Copy, Debug, PartialEq, Eq, Structural)]
pub enum BarrierKind {
    SeekFlush { generation: u32, landed_pts: i64, time_base: TimeBase },
    SeekRejected { generation: u32 },
}

#[derive(Clone, Copy, Debug, PartialEq, Eq, Structural)]
pub struct PlaybackDiagnostics {
    pub received_audio_frames: u64,
    pub received_video_frames: u64,
    pub presented_video_frames: u64,
    pub dropped_video_frames: u64,
}

impl PlaybackDiagnostics {
    pub fn new() -> (diagnostics: Self)
        ensures
            diagnostics == (PlaybackDiagnostics {
                received_audio_frames: 0,
                received_video_frames: 0,
                presented_video_frames: 0,
                dropped_video_frames: 0,
            }),
    {
        PlaybackDiagnostics {
            received_audio_frames: 0,
            received_video_frames: 0,
            presented_video_frames: 0,
            dropped_video_frames: 0,
        }
    }
}

/// How full the audio output is.
#[derive(Clone, Copy, Debug, PartialEq, Eq, Structural)]
pub struct AudioLevels {
    pub preroll_ready: bool,
    pub queued_samples: u64,
    pub target_samples: u64,
    pub headroom_samples: u64,
    pub minimum_headroom_samples: u64,
}

/// What is to be done with the decoder and the audio output.
#[derive(Clone, Copy, Debug, PartialEq, Eq, Structural)]
pub enum PlaybackCommand {
    Abort,
    PauseAudio(bool),
    CloseAudio,
    FinishAudioInput,
    SetMediaOrigin(Duration),
    QueueAudio(MediaFrame),
}

/// Why a message or a seek could not be handled.
#[derive(Clone, Copy, Debug, PartialEq, Eq, Structural)]
pub enum PlaybackError {
    LookaheadExceeded,
    NoAudioOutput,
    /// The codes of the texts that describe the two formats.
    AudioFormatChanged { from: u32, to: u32 },
    NoLandingTimestamp,
    LandedBeforeOrigin,
    LandingOutOfRange,
    NoTimelineOrigin,
    InvalidTimeBase,
    NoExecutor,
}

/// The text that a code stands for.
pub open spec fn name_of(names: Seq<String>, code: u32) -> Seq<char> {
    if code < names.len() { names[code as int]@ } else { Seq::empty() }
}

fn push_name(out: &mut String, names: &Vec<String>, code: u32)
    ensures
        final(out)@ == old(out)@ + name_of(names@, code),
{
    if (code as usize) < names.len() {
        out.append(names[code as usize].as_str());
    } else {
        assert(out@ =~= old(out)@ + Seq::<char>::empty());
    }
}

impl PlaybackError {
    /// What went wrong, where `names` are the texts that codes stand for.
    pub open spec fn text(self, names: Seq<String>) -> Seq<char> {
        match self {
            PlaybackError::LookaheadExceeded => "video TrackSink delivered beyond the configured presentation lookahead"@,
            PlaybackError::NoAudioOutput => "OxideAV produced audio without an audio output"@,
            PlaybackError::AudioFormatChanged { from, to } => {
                "decoded audio format changed after output opened: "@ + name_of(names, from)
                    + " -> "@ + name_of(names, to)
            },
            PlaybackError::NoLandingTimestamp => "OxideAV seek completed without a landing timestamp"@,
            PlaybackError::LandedBeforeOrigin => "OxideAV seek landed before media timeline origin was known"@,
            PlaybackError::LandingOutOfRange => "OxideAV seek returned a non-finite landing timestamp"@,
            PlaybackError::NoTimelineOrigin => "cannot seek before media timeline origin is known"@,
            PlaybackError::InvalidTimeBase => "cannot seek: invalid video time base"@,
            PlaybackError::NoExecutor => "cannot seek without an active OxideAV executor"@,
        }
    }

    pub fn message(self, names: &Vec<String>) -> (message: String)
        ensures
            message@ == self.text(names@),
    {
        match self {
            PlaybackError::LookaheadExceeded => "video TrackSink delivered beyond the configured presentation lookahead".to_owned(),
            PlaybackError::NoAudioOutput => "OxideAV produced audio without an audio output".to_owned(),
            PlaybackError::AudioFormatChanged { from, to } => {
                let mut message = "decoded audio format changed after output opened: ".to_owned();
                push_name(&mut message, names, from);
                message.append(" -> ");
                push_name(&mut message, names, to);
                message
            },
            PlaybackError::NoLandingTimestamp => "OxideAV seek completed without a landing timestamp".to_owned(),
            PlaybackError::LandedBeforeOrigin => "OxideAV seek landed before media timeline origin was known".to_owned(),
            PlaybackError::LandingOutOfRange => "OxideAV seek returned a non-finite landing timestamp".to_owned(),
            PlaybackError::NoTimelineOrigin => "cannot seek before media timeline origin is known".to_owned(),
            PlaybackError::InvalidTimeBase => "cannot seek: invalid video time base".to_owned(),
            PlaybackError::NoExecutor => "cannot seek without an active OxideAV executor".to_owned(),
        }
    }
}

/// A seek to be handed to the decoder. `first` tells a seek out of ordinary playback from
/// one that follows another. `resume_playing` is what playback did when it was asked for.
#[derive(Clone, Copy, Debug, PartialEq, Eq, Structural)]
pub struct SeekRequest {
    pub stream_index: u32,
    pub pts: i64,
    pub time_base: TimeBase,
    pub target: Duration,
    pub prior_position: Duration,
    pub resume_playing: bool,
    pub first: bool,
}

/// What a message leaves to be done before anything else.
#[derive(Clone, Copy, Debug, PartialEq, Eq, Structural)]
pub enum SessionStep {
    /// Nothing.
    Done,
    /// Dispatch another seek.
    Dispatch(SeekRequest),
    /// Open the audio output.
    OpenAudio,
    /// Open the audio output anew, then complete the seek.
    Reopen { landed: Duration, resume_playing: bool },
}

/// One count more, up to the largest.
pub open spec fn counted(count: u64) -> u64 {
    if count == u64::MAX { count } else { (count + 1) as u64 }
}

/// What the engine knows, apart from the frames that wait and the commands it left.
pub struct PlaybackCore {
    pub state: PlaybackState,
    pub position: Duration,
    pub duration: Option<Duration>,
    pub executor: bool,
    pub video_stream: StreamInfo,
    pub audio_stream: Option<StreamInfo>,
    pub audio_open: bool,
    pub pending_audio_frame: Option<MediaFrame>,
    pub video_clock: VideoClock,
    pub timeline_origin: Option<i128>,
    pub first_video: Option<i128>,
    pub first_audio: Option<i128>,
    pub audio_anchor: Option<i128>,
    pub first_frame_presented: bool,
    pub starvation_started_at: Option<Instant>,
    pub sink_finished: bool,
    pub video_eof: bool,
    pub audio_eof: bool,
    pub seek_pending: Option<PendingSeek>,
    pub post_seek_epoch: Option<PostSeekEpoch>,
    pub queued_seek: Option<Duration>,
    pub seek_supported: bool,
    pub diagnostics: PlaybackDiagnostics,
}

/// The engine.
pub struct OxidePlayback {
    pub core: PlaybackCore,
    pub video_queue: Vec<MediaFrame>,
    pub commands: Vec<PlaybackCommand>,
}

/// The engine as values.
pub struct Playback {
    pub core: PlaybackCore,
    pub queue: Seq<MediaFrame>,
    pub commands: Seq<PlaybackCommand>,
}

impl View for OxidePlayback {
    type V = Playback;

    open spec fn view(&self) -> Playback {
        Playback { core: self.core, queue: self.video_queue@, commands: self.commands@ }
    }
}

impl PlaybackCore {
    /// The time stamp that is due at `now`.
    pub open spec fn due_pts(self, now: Instant) -> Option<i64> {
        self.video_clock.pts(now, self.video_stream.time_base)
    }

    /// The media position of a frame.
    pub open spec fn frame_position(self, kind: MediaType, pts: Option<i64>) -> Option<Duration> {
        let track = match kind {
            MediaType::Video => Some(self.video_stream),
            MediaType::Audio => self.audio_stream,
            _ => None,
        };
        match (track, pts, self.timeline_origin) {
            (Some(track), Some(pts), Some(origin)) => stream::position_of_pts(
                track.time_base,
                pts,
                origin,
            ),
            _ => None,
        }
    }

    /// The media position that the clock shows.
    pub open spec fn clock_position(self, now: Instant) -> Option<Duration> {
        match self.due_pts(now) {
            Some(pts) => self.frame_position(MediaType::Video, Some(pts)),
            None => None,
        }
    }

    pub open spec fn within_duration(self, position: Duration) -> Duration {
        match self.duration {
            Some(duration) => position.smaller(duration),
            None => position,
        }
    }

    /// The core with its position brought up to `now`, unless a seek holds it.
    pub open spec fn positioned(self, now: Instant) -> PlaybackCore {
        if self.state is Seeking {
            self
        } else {
            let position = match self.clock_position(now) {
                Some(position) => position,
                None => self.position,
            };
            PlaybackCore { position: self.within_duration(position), ..self }
        }
    }

    /// The core with the clock stopped at `now`.
    pub open spec fn clock_paused(self, now: Instant) -> PlaybackCore {
        PlaybackCore { video_clock: self.video_clock.paused(now, self.video_stream.time_base), ..self }
    }
}

impl Playback {
    pub open spec fn with_core(self, core: PlaybackCore) -> Playback {
        Playback { core, ..self }
    }

    pub open spec fn with_command(self, command: PlaybackCommand) -> Playback {
        Playback { commands: self.commands.push(command), ..self }
    }

    /// The command, where there is an audio output to take it.
    pub open spec fn with_audio_command(self, command: PlaybackCommand) -> Playback {
        if self.core.audio_open { self.with_command(command) } else { self }
    }

    /// Playback after a failure: the decoder is told to stop, everything stands, and the
    /// error is what shows.
    pub open spec fn failed(self, message: String, now: Instant) -> Playback {
        let aborted = if self.core.executor {
            self.with_command(PlaybackCommand::Abort)
        } else {
            self
        };
        let core = PlaybackCore { starvation_started_at: None, ..self.core };
        let stopped = core.clock_paused(now).positioned(now);
        aborted.with_audio_command(PlaybackCommand::PauseAudio(true)).with_core(
            PlaybackCore { state: PlaybackState::Error(message), ..stopped },
        )
    }

    /// Playback once the user asked for it to run.
    pub open spec fn played(self, now: Instant) -> Playback {
        if self.core.state is Seeking {
            match self.core.seek_pending {
                Some(pending) => self.with_core(
                    PlaybackCore {
                        seek_pending: Some(PendingSeek { resume_playing: true, ..pending }),
                        ..self.core
                    },
                ),
                None => self,
            }
        } else if self.core.state is Paused {
            self.with_audio_command(PlaybackCommand::PauseAudio(false)).with_core(
                PlaybackCore {
                    video_clock: self.core.video_clock.played(now),
                    state: PlaybackState::Playing,
                    ..self.core
                },
            )
        } else {
            self
        }
    }

    /// Playback once the user asked for it to stand.
    pub open spec fn paused(self, now: Instant) -> Playback {
        if self.core.state is Seeking {
            match self.core.seek_pending {
                Some(pending) => self.with_core(
                    PlaybackCore {
                        seek_pending: Some(PendingSeek { resume_playing: false, ..pending }),
                        ..self.core
                    },
                ),
                None => self,
            }
        } else if self.core.state is Playing || self.core.state is Buffering {
            let core = self.core.clock_paused(now).positioned(now);
            self.with_audio_command(PlaybackCommand::PauseAudio(true)).with_core(
                PlaybackCore { starvation_started_at: None, state: PlaybackState::Paused, ..core },
            )
        } else {
            self
        }
    }

    /// Whether playback runs, or will once a seek is done.
    pub open spec fn wants_to_play(self) -> bool {
        self.core.state is Playing || self.core.state is Buffering || (self.core.seek_pending is Some
            && self.core.seek_pending.unwrap().resume_playing)
    }

    /// The position that shows at `now`.
    pub open spec fn shown_position(self, now: Instant) -> Duration {
        if self.core.state is Seeking || self.core.state is Error {
            self.core.position
        } else {
            match self.core.clock_position(now) {
                Some(position) => self.core.within_duration(position),
                None => self.core.position,
            }
        }
    }
}

impl OxidePlayback {
    fn push_audio_command(&mut self, command: PlaybackCommand)
        ensures
            final(self)@ == old(self)@.with_audio_command(command),
    {
        if self.core.audio_open {
            self.commands.push(command);
        }
    }

    /// The commands left so far, which are then no longer there.
    pub fn take_commands(&mut self) -> (commands: Vec<PlaybackCommand>)
        ensures
            commands@ == old(self)@.commands,
            final(self)@ == (Playback { commands: Seq::empty(), ..old(self)@ }),
    {
        let mut commands: Vec<PlaybackCommand> = Vec::new();
        std::mem::swap(&mut commands, &mut self.commands);
        commands
    }

    pub fn frame_position_for_kind(&self, kind: MediaType, pts: Option<i64>) -> (position: Option<Duration>)
        ensures
            position == self.core.frame_position(kind, pts),
    {
        let track = match kind {
            MediaType::Video => Some(self.core.video_stream),
            MediaType::Audio => self.core.audio_stream,
            _ => None,
        };
        match (track, pts, self.core.timeline_origin) {
            (Some(track), Some(pts), Some(origin)) => stream::relative_stream_position(
                &track,
                pts,
                origin,
            ),
            _ => None,
        }
    }

    fn video_position_at(&self, now: Instant) -> (position: Option<Duration>)
        ensures
            position == self.core.clock_position(now),
    {
        match self.core.video_clock.pts_at(now, self.core.video_stream.time_base) {
            Some(pts) => self.frame_position_for_kind(MediaType::Video, Some(pts)),
            None => None,
        }
    }

    fn bounded_by_duration(&self, position: Duration) -> (bounded: Duration)
        ensures
            bounded == self.core.within_duration(position),
    {
        match self.core.duration {
            Some(duration) => position.min(duration),
            None => position,
        }
    }

    pub fn update_position_at(&mut self, now: Instant)
        ensures
            final(self)@ == old(self)@.with_core(old(self).core.positioned(now)),
    {
        if matches!(self.core.state, PlaybackState::Seeking) {
            return;
        }
        let position = match self.video_position_at(now) {
            Some(position) => position,
            None => self.core.position,
        };
        self.core.position = self.bounded_by_duration(position);
    }

    /// Stops playback on a failure.
    pub fn fail(&mut self, message: String, now: Instant)
        ensures
            final(self)@ == old(self)@.failed(message, now),
    {
        self.core.starvation_started_at = None;
        if self.core.executor {
            self.commands.push(PlaybackCommand::Abort);
        }
        self.push_audio_command(PlaybackCommand::PauseAudio(true));
        self.core.video_clock.pause(now, self.core.video_stream.time_base);
        self.update_position_at(now);
        self.core.state = PlaybackState::Error(message);
    }

    pub fn intends_playing(&self) -> (intends: bool)
        ensures
            intends == self@.wants_to_play(),
    {
        matches!(self.core.state, PlaybackState::Playing | PlaybackState::Buffering)
            || match self.core.seek_pending {
            Some(pending) => pending.resume_playing,
            None => false,
        }
    }

    pub fn play(&mut self, now: Instant)
        ensures
            final(self)@ == old(self)@.played(now),
    {
        if matches!(self.core.state, PlaybackState::Seeking) {
            match self.core.seek_pending {
                Some(pending) => {
                    self.core.seek_pending = Some(PendingSeek { resume_playing: true, ..pending });
                },
                None => {},
            }
            return;
        }
        if !matches!(self.core.state, PlaybackState::Paused) {
            return;
        }
        self.push_audio_command(PlaybackCommand::PauseAudio(false));
        self.core.video_clock.play(now);
        self.core.state = PlaybackState::Playing;
    }

    pub fn pause(&mut self, now: Instant)
        ensures
            final(self)@ == old(self)@.paused(now),
    {
        if matches!(self.core.state, PlaybackState::Seeking) {
            match self.core.seek_pending {
                Some(pending) => {
                    self.core.seek_pending = Some(PendingSeek { resume_playing: false, ..pending });
                },
                None => {},
            }
            return;
        }
        if !matches!(self.core.state, PlaybackState::Playing | PlaybackState::Buffering) {
            return;
        }
        self.push_audio_command(PlaybackCommand::PauseAudio(true));
        self.core.video_clock.pause(now, self.core.video_stream.time_base);
        self.update_position_at(now);
        self.core.starvation_started_at = None;
        self.core.state = PlaybackState::Paused;
    }

    pub fn position(&self, now: Instant) -> (position: Duration)
        ensures
            position == self@.shown_position(now),
    {
        if !matches!(self.core.state, PlaybackState::Seeking | PlaybackState::Error(_)) {
            match self.video_position_at(now) {
                Some(position) => {
                    return self.bounded_by_duration(position);
                },
                None => {},
            }
        }
        self.core.position
    }
}

} // verus!
