//! Seeking: one seek at a time is under way, and the latest target waits behind it.

use crate::model::PlaybackState;
use crate::playback::clock::VideoClock;
use crate::playback::engine::{
    BarrierKind, OxidePlayback, PendingSeek, Playback, PlaybackCommand, PlaybackCore,
    PlaybackError, PostSeekEpoch, SeekRequest, SessionStep,
};
use crate::playback::stream;
use crate::playback::stream::{MediaType, StreamInfo};
use crate::time::{Duration, Instant};
use crate::time_base;
use crate::time_base::TimeBase;
use vstd::prelude::*;

verus! {

impl BarrierKind {
    pub open spec fn generation(self) -> u32 {
        match self {
            BarrierKind::SeekFlush { generation, .. } => generation,
            BarrierKind::SeekRejected { generation } => generation,
        }
    }
}

impl PendingSeek {
    /// The seek once one more barrier has come. The first landing counts.
    pub open spec fn noted(self, barrier: BarrierKind) -> PendingSeek {
        PendingSeek {
            landing: match barrier {
                BarrierKind::SeekFlush { landed_pts, time_base, .. } => if self.landing is Some {
                    self.landing
                } else {
                    Some((landed_pts, time_base))
                },
                BarrierKind::SeekRejected { .. } => self.landing,
            },
            rejected: self.rejected || barrier is SeekRejected,
            barriers_remaining: if self.barriers_remaining == 0 {
                0
            } else {
                (self.barriers_remaining - 1) as usize
            },
            ..self
        }
    }
}

impl PlaybackCore {
    /// The core once a flush has come: its track, or each where it names none, is no
    /// longer at its end.
    pub open spec fn flushed(self, kind: Option<MediaType>, barrier: BarrierKind) -> PlaybackCore {
        if barrier is SeekRejected {
            self
        } else {
            PlaybackCore {
                video_eof: self.video_eof && kind is Some && !(kind.unwrap() is Video),
                audio_eof: self.audio_eof && kind is Some && !(kind.unwrap() is Audio),
                ..self
            }
        }
    }

    /// Where a seek landed in the media.
    pub open spec fn landed(self, landing: Option<(i64, TimeBase)>) -> Result<Duration, PlaybackError> {
        match (landing, self.timeline_origin) {
            (None, _) => Err(PlaybackError::NoLandingTimestamp),
            (_, None) => Err(PlaybackError::LandedBeforeOrigin),
            (Some((pts, base)), Some(origin)) => match time_base::ticks_nanos(
                pts,
                base,
            ) {
                None => Err(PlaybackError::LandingOutOfRange),
                Some(nanos) => Ok(
                    Duration { nanos: if nanos < origin { 0 } else { (nanos - origin) as u128 } },
                ),
            },
        }
    }

    /// The seek to hand to the decoder for a target.
    pub open spec fn seek_request(
        self,
        target: Duration,
        prior_position: Duration,
        resume_playing: bool,
        first: bool,
    ) -> Result<SeekRequest, PlaybackError> {
        match self.timeline_origin {
            None => Err(PlaybackError::NoTimelineOrigin),
            Some(origin) => match stream::pts_of_position(
                self.video_stream.time_base,
                target,
                origin,
            ) {
                None => Err(PlaybackError::InvalidTimeBase),
                Some(pts) => if !self.executor {
                    Err(PlaybackError::NoExecutor)
                } else {
                    Ok(
                        SeekRequest {
                            stream_index: self.video_stream.index,
                            pts,
                            time_base: self.video_stream.time_base,
                            target,
                            prior_position,
                            resume_playing,
                            first,
                        },
                    )
                },
            },
        }
    }

    /// How many tracks send a barrier for a seek.
    pub open spec fn routes(self) -> usize {
        if self.audio_stream is Some { 2 } else { 1 }
    }
}

impl Playback {
    /// Playback at the landing of a seek.
    pub open spec fn seek_completed(self, landed: Duration, resume_playing: bool, now: Instant) -> Playback {
        let at_landing = Playback {
            core: PlaybackCore {
                video_clock: VideoClock::unset(),
                first_frame_presented: false,
                position: landed,
                state: PlaybackState::Paused,
                ..self.core
            },
            queue: Seq::empty(),
            ..self
        };
        if resume_playing { at_landing.played(now) } else { at_landing }
    }

    /// Playback back where it was before a seek that the source refused; it will not be
    /// asked again.
    pub open spec fn seek_refused(self, pending: PendingSeek, now: Instant) -> Playback {
        let back = self.with_core(
            PlaybackCore {
                seek_supported: false,
                queued_seek: None,
                position: pending.prior_position,
                state: PlaybackState::Paused,
                ..self.core
            },
        );
        if pending.resume_playing { back.played(now) } else { back }
    }

    /// Playback once the source has landed: frames before the landing are to be dropped,
    /// and the audio starts anew.
    pub open spec fn seek_landed(self, landed: Duration) -> Playback {
        self.with_audio_command(PlaybackCommand::PauseAudio(true)).with_core(
            PlaybackCore {
                audio_anchor: None,
                post_seek_epoch: Some(
                    PostSeekEpoch {
                        floor: landed,
                        audio_aligned: self.core.audio_stream is None,
                        video_aligned: false,
                        dropped_audio_frames: 0,
                        dropped_video_frames: 0,
                    },
                ),
                ..self.core
            },
        )
    }

    /// Playback without an audio output.
    pub open spec fn audio_closed(self) -> Playback {
        self.with_audio_command(PlaybackCommand::CloseAudio).with_core(
            PlaybackCore { audio_open: false, ..self.core },
        )
    }

    /// The last barrier of a seek has come.
    pub open spec fn seek_settled(self, pending: PendingSeek, now: Instant) -> (
        Result<SessionStep, PlaybackError>,
        Playback,
    ) {
        if pending.rejected {
            (Ok(SessionStep::Done), self.seek_refused(pending, now))
        } else {
            match self.core.landed(pending.landing) {
                Err(error) => (Err(error), self),
                Ok(landed) => {
                    let free = self.with_core(PlaybackCore { queued_seek: None, ..self.core });
                    if self.core.queued_seek is Some && self.core.queued_seek.unwrap()
                        != pending.requested {
                        match free.core.seek_request(
                            self.core.queued_seek.unwrap(),
                            pending.prior_position,
                            pending.resume_playing,
                            false,
                        ) {
                            Ok(request) => (
                                Ok(SessionStep::Dispatch(request)),
                                free.seek_begun(request),
                            ),
                            Err(error) => (Err(error), free),
                        }
                    } else {
                        let there = free.seek_landed(landed);
                        match there.core.audio_stream {
                            None => (
                                Ok(SessionStep::Done),
                                there.seek_completed(landed, pending.resume_playing, now),
                            ),
                            Some(track) => if stream::is_authoritative(track) {
                                (
                                    Ok(
                                        SessionStep::Reopen {
                                            landed,
                                            resume_playing: pending.resume_playing,
                                        },
                                    ),
                                    there,
                                )
                            } else {
                                (
                                    Ok(SessionStep::Done),
                                    there.audio_closed().seek_completed(
                                        landed,
                                        pending.resume_playing,
                                        now,
                                    ),
                                )
                            },
                        }
                    }
                },
            }
        }
    }

    /// A barrier has come: one of another seek is ignored, and the last one settles the
    /// seek.
    pub open spec fn barrier_handled(
        self,
        kind: Option<MediaType>,
        barrier: BarrierKind,
        now: Instant,
    ) -> (Result<SessionStep, PlaybackError>, Playback) {
        match self.core.seek_pending {
            None => (Ok(SessionStep::Done), self),
            Some(pending) => if pending.generation != Some(barrier.generation()) {
                (Ok(SessionStep::Done), self)
            } else {
                let noted = pending.noted(barrier);
                let core = self.core.flushed(kind, barrier);
                if noted.barriers_remaining != 0 {
                    (
                        Ok(SessionStep::Done),
                        self.with_core(PlaybackCore { seek_pending: Some(noted), ..core }),
                    )
                } else {
                    self.with_core(PlaybackCore { seek_pending: None, ..core }).seek_settled(
                        noted,
                        now,
                    )
                }
            },
        }
    }

    /// Playback once a seek is under way: it shows as such and stands at its target, while
    /// the decoder has yet to be handed it.
    pub open spec fn seek_begun(self, request: SeekRequest) -> Playback {
        self.with_core(
            PlaybackCore {
                position: request.target,
                state: PlaybackState::Seeking,
                seek_pending: Some(
                    PendingSeek {
                        generation: None,
                        requested: request.target,
                        prior_position: request.prior_position,
                        resume_playing: request.resume_playing,
                        barriers_remaining: self.core.routes(),
                        landing: None,
                        rejected: false,
                    },
                ),
                ..self.core
            },
        )
    }

    /// Playback once the decoder has taken the seek under way: nothing from before it is
    /// left.
    pub open spec fn seek_dispatched(self, generation: u32) -> Playback {
        match self.core.seek_pending {
            Some(pending) if pending.generation is None => Playback {
                core: PlaybackCore {
                    pending_audio_frame: None,
                    post_seek_epoch: None,
                    video_clock: VideoClock::unset(),
                    first_frame_presented: false,
                    starvation_started_at: None,
                    seek_pending: Some(
                        PendingSeek {
                            generation: Some(generation),
                            barriers_remaining: self.core.routes(),
                            ..pending
                        },
                    ),
                    ..self.core
                },
                queue: Seq::empty(),
                ..self
            },
            _ => self,
        }
    }

    /// Playback without the seek that the decoder did not take. Out of ordinary playback it
    /// is back where it was, with the sound on if there was sound.
    pub open spec fn seek_withdrawn(self, request: SeekRequest) -> Playback {
        let free = self.with_core(
            PlaybackCore { seek_pending: None, queued_seek: None, ..self.core },
        );
        if !request.first {
            free
        } else {
            let back = free.with_core(
                PlaybackCore {
                    position: request.prior_position,
                    state: PlaybackState::Paused,
                    ..free.core
                },
            );
            if request.resume_playing {
                back.with_audio_command(PlaybackCommand::PauseAudio(false))
            } else {
                back
            }
        }
    }

    /// What a request to seek leads to: nothing where it cannot be done, another target
    /// behind the seek under way, or a seek for the decoder.
    pub open spec fn sought(self, position: Duration, now: Instant) -> Sought {
        let target = self.core.within_duration(position);
        if !self.core.seek_supported || self.core.timeline_origin is None {
            Sought::Now(None, self)
        } else if self.core.seek_pending is Some {
            Sought::Now(
                None,
                self.with_core(
                    PlaybackCore { queued_seek: Some(target), position: target, ..self.core },
                ),
            )
        } else if !self.core.executor {
            Sought::Now(None, self)
        } else {
            let resume = self.core.state is Playing || self.core.state is Buffering;
            let silent = self.with_audio_command(PlaybackCommand::PauseAudio(true)).with_core(
                PlaybackCore { queued_seek: None, ..self.core },
            );
            match silent.core.seek_request(target, self.core.position, resume, true) {
                Ok(request) => Sought::Now(Some(request), silent.seek_begun(request)),
                Err(error) => Sought::Failed(
                    error,
                    if resume {
                        silent.with_audio_command(PlaybackCommand::PauseAudio(false))
                    } else {
                        silent
                    },
                ),
            }
        }
    }

    /// A track has changed: what is left to do, and playback with it.
    pub open spec fn stream_updated(self, track: StreamInfo) -> (Result<bool, PlaybackError>, Playback) {
        match track.media_type {
            MediaType::Video => (
                Ok(false),
                self.with_core(PlaybackCore { video_stream: track, ..self.core }),
            ),
            MediaType::Audio => if self.core.audio_stream is Some && self.core.audio_open
                && !self.core.audio_stream.unwrap().params.same_format(track.params) {
                (
                    Err(
                        PlaybackError::AudioFormatChanged {
                            from: self.core.audio_stream.unwrap().params.described,
                            to: track.params.described,
                        },
                    ),
                    self,
                )
            } else {
                (
                    Ok(stream::is_authoritative(track) && !self.core.audio_open),
                    self.with_core(PlaybackCore { audio_stream: Some(track), ..self.core }),
                )
            },
            _ => (Ok(false), self),
        }
    }

    /// Playback with an audio output that has just been opened.
    pub open spec fn audio_opened(self) -> Playback {
        self.with_core(PlaybackCore { audio_open: true, ..self.core }).with_command(
            PlaybackCommand::PauseAudio(!(self.core.state is Playing)),
        )
    }

    /// A track has reached its end.
    pub open spec fn track_ended(self, kind: MediaType) -> Playback {
        match kind {
            MediaType::Video => self.with_core(PlaybackCore { video_eof: true, ..self.core }),
            MediaType::Audio => self.with_audio_command(
                PlaybackCommand::FinishAudioInput,
            ).with_core(PlaybackCore { audio_eof: true, ..self.core }),
            _ => self,
        }
    }

    /// The session has nothing more to say.
    pub open spec fn session_finished(self) -> Playback {
        self.with_audio_command(PlaybackCommand::FinishAudioInput).with_core(
            PlaybackCore { sink_finished: true, ..self.core },
        )
    }
}

/// What a request to seek led to.
pub enum Sought {
    Now(Option<SeekRequest>, Playback),
    Failed(PlaybackError, Playback),
}

fn barrier_generation(barrier: BarrierKind) -> (generation: u32)
    ensures
        generation == barrier.generation(),
{
    match barrier {
        BarrierKind::SeekFlush { generation, .. } => generation,
        BarrierKind::SeekRejected { generation } => generation,
    }
}

fn note_barrier(pending: PendingSeek, barrier: BarrierKind) -> (noted: PendingSeek)
    ensures
        noted == pending.noted(barrier),
{
    let mut noted = pending;
    match barrier {
        BarrierKind::SeekFlush { landed_pts, time_base, .. } => {
            if noted.landing.is_none() {
                noted.landing = Some((landed_pts, time_base));
            }
        },
        BarrierKind::SeekRejected { .. } => {
            noted.rejected = true;
        },
    }
    if noted.barriers_remaining != 0 {
        noted.barriers_remaining = noted.barriers_remaining - 1;
    }
    noted
}

impl OxidePlayback {
    /// The seek to hand to the decoder for a target.
    pub fn dispatch_seek(
        &self,
        target: Duration,
        prior_position: Duration,
        resume_playing: bool,
        first: bool,
    ) -> (request: Result<SeekRequest, PlaybackError>)
        ensures
            request == self.core.seek_request(target, prior_position, resume_playing, first),
    {
        let origin = match self.core.timeline_origin {
            Some(origin) => origin,
            None => {
                return Err(PlaybackError::NoTimelineOrigin);
            },
        };
        let pts = match stream::stream_pts_for_media_position(
            &self.core.video_stream,
            target,
            origin,
        ) {
            Some(pts) => pts,
            None => {
                return Err(PlaybackError::InvalidTimeBase);
            },
        };
        if !self.core.executor {
            return Err(PlaybackError::NoExecutor);
        }
        Ok(
            SeekRequest {
                stream_index: self.core.video_stream.index,
                pts,
                time_base: self.core.video_stream.time_base,
                target,
                prior_position,
                resume_playing,
                first,
            },
        )
    }

    fn route_count(&self) -> (routes: usize)
        ensures
            routes == self.core.routes(),
    {
        if self.core.audio_stream.is_some() { 2 } else { 1 }
    }

    fn begin_seek(&mut self, request: SeekRequest)
        ensures
            final(self)@ == old(self)@.seek_begun(request),
    {
        let barriers_remaining = self.route_count();
        self.core.position = request.target;
        self.core.state = PlaybackState::Seeking;
        self.core.seek_pending = Some(
            PendingSeek {
                generation: None,
                requested: request.target,
                prior_position: request.prior_position,
                resume_playing: request.resume_playing,
                barriers_remaining,
                landing: None,
                rejected: false,
            },
        );
    }

    /// Takes note of the generation that the decoder gave the seek under way.
    pub fn seek_dispatched(&mut self, generation: u32)
        ensures
            final(self)@ == old(self)@.seek_dispatched(generation),
    {
        let pending = match self.core.seek_pending {
            Some(pending) => pending,
            None => {
                return;
            },
        };
        if pending.generation.is_some() {
            return;
        }
        let barriers_remaining = self.route_count();
        self.core.pending_audio_frame = None;
        self.core.post_seek_epoch = None;
        self.video_queue.clear();
        self.core.video_clock.reset();
        self.core.first_frame_presented = false;
        self.core.starvation_started_at = None;
        self.core.seek_pending = Some(
            PendingSeek { generation: Some(generation), barriers_remaining, ..pending },
        );
    }

    /// Stops playback because the decoder did not take a seek.
    pub fn seek_failed(&mut self, request: SeekRequest, error: &str, now: Instant)
        ensures
            exists|message: String|
                message@ == "dispatch OxideAV seek: "@ + error@ && final(self)@
                    == #[trigger] old(self)@.seek_withdrawn(request).failed(message, now),
    {
        self.core.seek_pending = None;
        self.core.queued_seek = None;
        if request.first {
            self.core.position = request.prior_position;
            self.core.state = PlaybackState::Paused;
            if request.resume_playing && self.core.audio_open {
                self.commands.push(PlaybackCommand::PauseAudio(false));
            }
        }
        let mut message = "dispatch OxideAV seek: ".to_owned();
        message.append(error);
        self.fail(message, now);
    }

    /// Seeks to a position: returns the seek for the decoder, where there is one to make.
    pub fn seek(&mut self, position: Duration, now: Instant) -> (request: Option<SeekRequest>)
        ensures
            match old(self)@.sought(position, now) {
                Sought::Now(r, after) => request == r && final(self)@ == after,
                Sought::Failed(error, silent) => request is None && exists|message: String|
                    message@ == error.text(Seq::empty()) && final(self)@ == #[trigger] silent.failed(message, now),
            },
    {
        if !self.core.seek_supported || self.core.timeline_origin.is_none() {
            return None;
        }
        let target = match self.core.duration {
            Some(duration) => position.min(duration),
            None => position,
        };
        if self.core.seek_pending.is_some() {
            self.core.queued_seek = Some(target);
            self.core.position = target;
            return None;
        }
        if !self.core.executor {
            return None;
        }
        let prior_position = self.core.position;
        let resume_playing: bool = matches!(
            self.core.state,
            PlaybackState::Playing | PlaybackState::Buffering
        );
        if self.core.audio_open {
            self.commands.push(PlaybackCommand::PauseAudio(true));
        }
        self.core.queued_seek = None;
        match self.dispatch_seek(target, prior_position, resume_playing, true) {
            Ok(request) => {
                self.begin_seek(request);
                Some(request)
            },
            Err(error) => {
                if resume_playing && self.core.audio_open {
                    self.commands.push(PlaybackCommand::PauseAudio(false));
                }
                self.fail(error.message(&Vec::new()), now);
                None
            },
        }
    }

    /// Completes a seek at its landing.
    pub fn complete_seek(&mut self, landed: Duration, resume_playing: bool, now: Instant)
        ensures
            final(self)@ == old(self)@.seek_completed(landed, resume_playing, now),
    {
        self.video_queue.clear();
        self.core.video_clock.reset();
        self.core.first_frame_presented = false;
        self.core.position = landed;
        self.core.state = PlaybackState::Paused;
        if resume_playing {
            self.play(now);
        }
    }

    /// Completes a seek whose audio output has been opened anew.
    pub fn complete_reopened_seek(&mut self, landed: Duration, resume_playing: bool, now: Instant)
        ensures
            final(self)@ == old(self)@.with_core(
                PlaybackCore { audio_open: true, ..old(self).core },
            ).seek_completed(landed, resume_playing, now),
    {
        self.core.audio_open = true;
        self.complete_seek(landed, resume_playing, now);
    }

    fn refuse_seek(&mut self, pending: PendingSeek, now: Instant)
        ensures
            final(self)@ == old(self)@.seek_refused(pending, now),
    {
        self.core.seek_supported = false;
        self.core.queued_seek = None;
        self.core.position = pending.prior_position;
        self.core.state = PlaybackState::Paused;
        if pending.resume_playing {
            self.play(now);
        }
    }

    fn landed_position(&self, landing: Option<(i64, TimeBase)>) -> (landed: Result<Duration, PlaybackError>)
        ensures
            landed == self.core.landed(landing),
    {
        let (pts, base) = match landing {
            Some(landing) => landing,
            None => {
                return Err(PlaybackError::NoLandingTimestamp);
            },
        };
        let origin: i128 = match self.core.timeline_origin {
            Some(origin) => origin,
            None => {
                return Err(PlaybackError::LandedBeforeOrigin);
            },
        };
        match base.nanos_of(pts) {
            None => Err(PlaybackError::LandingOutOfRange),
            Some(nanos) => if nanos < origin {
                Ok(Duration { nanos: 0 })
            } else {
                Ok(Duration { nanos: time_base::apart(nanos, origin) })
            },
        }
    }

    fn land_seek(&mut self, landed: Duration)
        ensures
            final(self)@ == old(self)@.seek_landed(landed),
    {
        if self.core.audio_open {
            self.commands.push(PlaybackCommand::PauseAudio(true));
        }
        self.core.audio_anchor = None;
        self.core.post_seek_epoch = Some(
            PostSeekEpoch {
                floor: landed,
                audio_aligned: self.core.audio_stream.is_none(),
                video_aligned: false,
                dropped_audio_frames: 0,
                dropped_video_frames: 0,
            },
        );
    }

    fn close_audio(&mut self)
        ensures
            final(self)@ == old(self)@.audio_closed(),
    {
        if self.core.audio_open {
            self.commands.push(PlaybackCommand::CloseAudio);
        }
        self.core.audio_open = false;
    }

    fn settle_seek(&mut self, pending: PendingSeek, now: Instant) -> (step: Result<SessionStep, PlaybackError>)
        ensures
            step == old(self)@.seek_settled(pending, now).0,
            final(self)@ == old(self)@.seek_settled(pending, now).1,
    {
        if pending.rejected {
            self.refuse_seek(pending, now);
            return Ok(SessionStep::Done);
        }
        let landed = match self.landed_position(pending.landing) {
            Ok(landed) => landed,
            Err(error) => {
                return Err(error);
            },
        };
        let queued = self.core.queued_seek;
        self.core.queued_seek = None;
        match queued {
            Some(target) => {
                if target != pending.requested {
                    return match self.dispatch_seek(
                        target,
                        pending.prior_position,
                        pending.resume_playing,
                        false,
                    ) {
                        Ok(request) => {
                            self.begin_seek(request);
                            Ok(SessionStep::Dispatch(request))
                        },
                        Err(error) => Err(error),
                    };
                }
            },
            None => {},
        }
        self.land_seek(landed);
        match self.core.audio_stream {
            None => {},
            Some(track) => {
                if stream::audio_stream_is_authoritative(&track) {
                    return Ok(
                        SessionStep::Reopen { landed, resume_playing: pending.resume_playing },
                    );
                }
                self.close_audio();
            },
        }
        self.complete_seek(landed, pending.resume_playing, now);
        Ok(SessionStep::Done)
    }

    fn flush_track(&mut self, kind: Option<MediaType>, barrier: BarrierKind)
        ensures
            final(self)@ == old(self)@.with_core(old(self).core.flushed(kind, barrier)),
    {
        match barrier {
            BarrierKind::SeekFlush { .. } => match kind {
                Some(MediaType::Video) => {
                    self.core.video_eof = false;
                },
                Some(MediaType::Audio) => {
                    self.core.audio_eof = false;
                },
                None => {
                    self.core.video_eof = false;
                    self.core.audio_eof = false;
                },
                Some(_) => {},
            },
            BarrierKind::SeekRejected { .. } => {},
        }
    }

    /// Takes in a barrier.
    pub fn handle_seek_barrier(
        &mut self,
        kind: Option<MediaType>,
        barrier: BarrierKind,
        now: Instant,
    ) -> (step: Result<SessionStep, PlaybackError>)
        ensures
            step == old(self)@.barrier_handled(kind, barrier, now).0,
            final(self)@ == old(self)@.barrier_handled(kind, barrier, now).1,
    {
        let pending = match self.core.seek_pending {
            Some(pending) => pending,
            None => {
                return Ok(SessionStep::Done);
            },
        };
        let expected: bool = match pending.generation {
            Some(generation) => generation == barrier_generation(barrier),
            None => false,
        };
        if !expected {
            return Ok(SessionStep::Done);
        }
        let noted = note_barrier(pending, barrier);
        self.flush_track(kind, barrier);
        if noted.barriers_remaining != 0 {
            self.core.seek_pending = Some(noted);
            return Ok(SessionStep::Done);
        }
        self.core.seek_pending = None;
        self.settle_seek(noted, now)
    }

    /// Takes in a change of a track; says whether the audio output is to be opened.
    pub fn handle_stream_update(&mut self, track: StreamInfo) -> (open: Result<bool, PlaybackError>)
        ensures
            ({
                let (o, after) = old(self)@.stream_updated(track);
                open == o && final(self)@ == after
            }),
    {
        match track.media_type {
            MediaType::Video => {
                self.core.video_stream = track;
                Ok(false)
            },
            MediaType::Audio => {
                match self.core.audio_stream {
                    Some(previous) => {
                        if self.core.audio_open && !previous.params.matches_core(&track.params) {
                            return Err(
                                PlaybackError::AudioFormatChanged {
                                    from: previous.params.described,
                                    to: track.params.described,
                                },
                            );
                        }
                    },
                    None => {},
                }
                self.core.audio_stream = Some(track);
                Ok(stream::audio_stream_is_authoritative(&track) && !self.core.audio_open)
            },
            _ => Ok(false),
        }
    }

    /// Takes note that the audio output has been opened.
    pub fn audio_opened(&mut self)
        ensures
            final(self)@ == old(self)@.audio_opened(),
    {
        self.core.audio_open = true;
        let paused: bool = !matches!(self.core.state, PlaybackState::Playing);
        self.commands.push(PlaybackCommand::PauseAudio(paused));
    }

    /// Takes note that a track has reached its end.
    pub fn handle_end_of_stream(&mut self, kind: MediaType)
        ensures
            final(self)@ == old(self)@.track_ended(kind),
    {
        match kind {
            MediaType::Video => {
                self.core.video_eof = true;
            },
            MediaType::Audio => {
                self.core.audio_eof = true;
                if self.core.audio_open {
                    self.commands.push(PlaybackCommand::FinishAudioInput);
                }
            },
            _ => {},
        }
    }

    /// Takes note that the session has finished.
    pub fn handle_finished(&mut self)
        ensures
            final(self)@ == old(self)@.session_finished(),
    {
        if self.core.audio_open {
            self.commands.push(PlaybackCommand::FinishAudioInput);
        }
        self.core.sink_finished = true;
    }
}

} // verus!
