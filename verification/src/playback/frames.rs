//! Decoded frames: what is kept, what is dropped and what is shown when.

use crate::model::PlaybackState;
use crate::playback::engine;
use crate::playback::engine::{
    AudioLevels, MediaFrame, OxidePlayback, Playback, PlaybackCommand, PlaybackCore,
    PlaybackDiagnostics, PlaybackError, PostSeekEpoch, BUFFERING_GRACE_NANOS, VIDEO_QUEUE_CAP,
};
use crate::playback::stream;
use crate::playback::stream::MediaType;
use crate::time::{Duration, Instant};
use crate::time_base;
use vstd::prelude::*;

verus! {

/// Whether the second frame of a queue is due, so that the first is of no use any more.
pub open spec fn front_is_stale(queue: Seq<MediaFrame>, due: i64) -> bool {
    queue.len() >= 2 && queue[1].pts is Some && queue[1].pts.unwrap() <= due
}

/// A queue without the frames that a later one has overtaken.
pub open spec fn without_stale(queue: Seq<MediaFrame>, due: i64) -> Seq<MediaFrame>
    decreases queue.len(),
{
    if front_is_stale(queue, due) { without_stale(queue.drop_first(), due) } else { queue }
}

/// A count raised by `n`, up to the largest.
pub open spec fn counted_by(count: u64, n: int) -> u64 {
    if count + n > u64::MAX { u64::MAX } else { (count + n) as u64 }
}

impl PlaybackCore {
    pub open spec fn with_dropped(self, n: int) -> PlaybackCore {
        PlaybackCore {
            diagnostics: PlaybackDiagnostics {
                dropped_video_frames: counted_by(self.diagnostics.dropped_video_frames, n),
                ..self.diagnostics
            },
            ..self
        }
    }

    pub open spec fn with_received(self, kind: MediaType) -> PlaybackCore {
        let d = self.diagnostics;
        PlaybackCore {
            diagnostics: match kind {
                MediaType::Video => PlaybackDiagnostics {
                    received_video_frames: engine::counted(d.received_video_frames),
                    ..d
                },
                MediaType::Audio => PlaybackDiagnostics {
                    received_audio_frames: engine::counted(d.received_audio_frames),
                    ..d
                },
                _ => d,
            },
            ..self
        }
    }

    /// Whether a frame comes before the landing of the last seek on a track that has not
    /// reached it yet, and the core once that is settled. Audio without a position is
    /// before the landing; video without one is not.
    pub open spec fn epoch_step(self, kind: MediaType, pts: Option<i64>) -> (bool, PlaybackCore) {
        match self.post_seek_epoch {
            None => (false, self),
            Some(epoch) => match kind {
                MediaType::Subtitle | MediaType::Data | MediaType::Unknown => (false, self),
                MediaType::Audio => if epoch.audio_aligned {
                    (false, self)
                } else {
                    let position = self.frame_position(kind, pts);
                    if position is None || position.unwrap().nanos < epoch.floor.nanos {
                        let dropped = PostSeekEpoch {
                            dropped_audio_frames: engine::counted(epoch.dropped_audio_frames),
                            ..epoch
                        };
                        (true, PlaybackCore { post_seek_epoch: Some(dropped), ..self })
                    } else {
                        let aligned = PostSeekEpoch { audio_aligned: true, ..epoch };
                        let left = if epoch.video_aligned { None } else { Some(aligned) };
                        (false, PlaybackCore { post_seek_epoch: left, ..self })
                    }
                },
                MediaType::Video => if epoch.video_aligned {
                    (false, self)
                } else {
                    let position = self.frame_position(kind, pts);
                    if position is None {
                        (false, self)
                    } else if position.unwrap().nanos < epoch.floor.nanos {
                        let dropped = PostSeekEpoch {
                            dropped_video_frames: engine::counted(epoch.dropped_video_frames),
                            ..epoch
                        };
                        (
                            true,
                            PlaybackCore {
                                post_seek_epoch: Some(dropped),
                                ..self.with_dropped(1)
                            },
                        )
                    } else {
                        let aligned = PostSeekEpoch { video_aligned: true, ..epoch };
                        let left = if epoch.audio_aligned { None } else { Some(aligned) };
                        (false, PlaybackCore { post_seek_epoch: left, ..self })
                    }
                },
            },
        }
    }

    /// The core once a frame's time stamp has been seen: the first one of each track, the
    /// audio anchor, and with them the origin of the media timeline.
    pub open spec fn observed(self, kind: MediaType, pts: Option<i64>) -> PlaybackCore {
        let track = match kind {
            MediaType::Video => Some(self.video_stream),
            MediaType::Audio => self.audio_stream,
            _ => None,
        };
        match (pts, track) {
            (Some(pts), Some(track)) => match time_base::ticks_nanos(
                pts,
                track.time_base,
            ) {
                Some(nanos) => {
                    let first_video = if kind is Video && self.first_video is None {
                        Some(nanos)
                    } else {
                        self.first_video
                    };
                    let first_audio = if kind is Audio && self.first_audio is None {
                        Some(nanos)
                    } else {
                        self.first_audio
                    };
                    let audio_anchor = if kind is Audio && self.audio_anchor is None {
                        Some(nanos)
                    } else {
                        self.audio_anchor
                    };
                    let timeline_origin = if self.timeline_origin is None {
                        stream::origin_of(first_video, first_audio, self.audio_stream is Some)
                    } else {
                        self.timeline_origin
                    };
                    PlaybackCore { first_video, first_audio, audio_anchor, timeline_origin, ..self }
                },
                None => self,
            },
            _ => self,
        }
    }
}

impl Playback {
    /// The audio output is told where in the media it starts, once that is known.
    pub open spec fn audio_origin_synced(self) -> Playback {
        match (self.core.timeline_origin, self.core.audio_anchor) {
            (Some(origin), Some(anchor)) => self.with_audio_command(
                PlaybackCommand::SetMediaOrigin(
                    Duration { nanos: if anchor < origin { 0 } else { (anchor - origin) as u128 } },
                ),
            ),
            _ => self,
        }
    }

    /// A frame offered to the queue at `now`: what the queue becomes, and whether it took
    /// the frame.
    pub open spec fn video_queued(self, frame: MediaFrame, now: Instant) -> (bool, Playback) {
        let due = self.core.due_pts(now);
        let queue = if self.queue.len() >= VIDEO_QUEUE_CAP && due is Some {
            without_stale(self.queue, due.unwrap())
        } else {
            self.queue
        };
        let core = self.core.with_dropped(self.queue.len() - queue.len());
        if queue.len() >= VIDEO_QUEUE_CAP {
            (false, Playback { core, queue, ..self })
        } else {
            (true, Playback { core, queue: queue.push(frame), ..self })
        }
    }

    /// A decoded frame, taken in at `now`.
    pub open spec fn frame_handled(self, kind: MediaType, frame: MediaFrame, now: Instant) -> (
        Result<(), PlaybackError>,
        Playback,
    ) {
        if self.core.seek_pending is Some {
            (
                Ok(()),
                if kind is Video { self.with_core(self.core.with_dropped(1)) } else { self },
            )
        } else if !(kind is Audio || kind is Video) {
            (Ok(()), self)
        } else {
            let (early, core) = self.core.with_received(kind).epoch_step(kind, frame.pts);
            if early {
                (Ok(()), self.with_core(core))
            } else {
                let seen = self.with_core(core.observed(kind, frame.pts)).audio_origin_synced();
                if kind is Video {
                    if frame.pts is None {
                        (Ok(()), seen.with_core(seen.core.with_dropped(1)))
                    } else {
                        let (taken, after) = seen.video_queued(frame, now);
                        (
                            if taken { Ok(()) } else { Err(PlaybackError::LookaheadExceeded) },
                            after,
                        )
                    }
                } else if seen.core.audio_open {
                    (Ok(()), seen.with_command(PlaybackCommand::QueueAudio(frame)))
                } else {
                    (Err(PlaybackError::NoAudioOutput), seen)
                }
            }
        }
    }

    /// Whether both tracks have enough ahead to go on.
    pub open spec fn buffers_ready(self, levels: AudioLevels) -> bool {
        self.queue.len() >= VIDEO_QUEUE_CAP && (self.core.audio_stream is Some ==> self.core.audio_open
            && levels.preroll_ready && levels.queued_samples >= levels.target_samples)
    }

    /// Playback that has run out of frames for longer than the grace becomes buffering.
    pub open spec fn starved(self, now: Instant) -> Playback {
        if !(self.core.state is Playing) || !self.core.first_frame_presented || self.queue.len() > 0 {
            self.with_core(PlaybackCore { starvation_started_at: None, ..self.core })
        } else {
            let started = match self.core.starvation_started_at {
                Some(started) => started,
                None => now,
            };
            if now.since(started).nanos < BUFFERING_GRACE_NANOS {
                self.with_core(PlaybackCore { starvation_started_at: Some(started), ..self.core })
            } else {
                let core = self.core.clock_paused(now).positioned(now);
                self.with_audio_command(PlaybackCommand::PauseAudio(true)).with_core(
                    PlaybackCore {
                        starvation_started_at: None,
                        state: PlaybackState::Buffering,
                        ..core
                    },
                )
            }
        }
    }

    /// Buffering ends once both tracks have enough ahead.
    pub open spec fn rebuffered(self, now: Instant, levels: AudioLevels) -> Playback {
        if self.core.state is Buffering && self.buffers_ready(levels) {
            self.with_audio_command(PlaybackCommand::PauseAudio(false)).with_core(
                PlaybackCore {
                    video_clock: self.core.video_clock.played(now),
                    state: PlaybackState::Playing,
                    ..self.core
                },
            )
        } else {
            self
        }
    }

    /// Playback ends once every track has, and nothing is left to show or to hear.
    pub open spec fn end_checked(self, queued_samples: u64) -> Playback {
        let finished = self.core.sink_finished || (self.core.video_eof && (self.core.audio_stream is None
            || self.core.audio_eof));
        if finished && self.queue.len() == 0 && self.core.pending_audio_frame is None && !(
        self.core.audio_open && queued_samples != 0) && !(self.core.state is Error)
            && !(self.core.state is Ended) && !(self.core.state is Seeking) {
            self.with_core(PlaybackCore { state: PlaybackState::Ended, ..self.core })
        } else {
            self
        }
    }

    /// The clock, started at the first frame if it shows nothing yet; the time stamp that
    /// is due then, if a frame is to be shown at all.
    pub open spec fn presentation_begun(self, now: Instant) -> (Option<i64>, Playback) {
        let begun = if self.core.due_pts(now) is Some {
            self
        } else if self.queue.len() > 0 && self.queue[0].pts is Some {
            let clock = crate::playback::clock::VideoClock::at(
                self.queue[0].pts.unwrap(),
                now,
                self.core.state is Playing,
            );
            self.with_core(PlaybackCore { video_clock: clock, ..self.core }.positioned(now))
        } else {
            self
        };
        if self.core.due_pts(now) is None && !(self.queue.len() > 0 && self.queue[0].pts is Some) {
            (None, self)
        } else if begun.core.first_frame_presented && !(begun.core.state is Playing) {
            (None, begun)
        } else {
            (begun.core.due_pts(now), begun)
        }
    }

    /// The frame at the front, shown if it is due.
    pub open spec fn presented(self, due: i64) -> (Option<MediaFrame>, Playback) {
        if self.queue.len() > 0 && self.queue[0].pts is Some && self.queue[0].pts.unwrap() <= due {
            let frame = self.queue[0];
            let position = if self.core.state is Playing {
                self.core.position
            } else {
                match self.core.frame_position(MediaType::Video, frame.pts) {
                    Some(position) => position,
                    None => self.core.position,
                }
            };
            let core = PlaybackCore {
                first_frame_presented: true,
                position,
                diagnostics: PlaybackDiagnostics {
                    presented_video_frames: engine::counted(
                        self.core.diagnostics.presented_video_frames,
                    ),
                    ..self.core.diagnostics
                },
                ..self.core
            };
            (Some(frame), Playback { core, queue: self.queue.drop_first(), ..self })
        } else {
            (None, self)
        }
    }

    /// When the event loop has to look after the video next.
    pub open spec fn wake_deadline(self, now: Instant) -> Option<Instant> {
        if !(self.core.state is Playing) {
            None
        } else if self.core.starvation_started_at is Some {
            let end = self.core.starvation_started_at.unwrap().plus(
                Duration { nanos: BUFFERING_GRACE_NANOS },
            );
            Some(if end.nanos < now.nanos { now } else { end })
        } else if self.queue.len() == 0 || self.queue[0].pts is None {
            None
        } else {
            match self.core.due_pts(now) {
                None => Some(now),
                Some(due) => if self.queue[0].pts.unwrap() <= due {
                    Some(now)
                } else {
                    self.core.video_clock.deadline(
                        self.queue[0].pts.unwrap(),
                        self.core.video_stream.time_base,
                    )
                },
            }
        }
    }
}

fn more_by_one(count: u64) -> (more: u64)
    ensures
        more == engine::counted(count),
        more == counted_by(count, 1),
{
    if count == u64::MAX { count } else { count + 1 }
}

impl OxidePlayback {
    fn count_dropped(&mut self)
        ensures
            final(self)@ == old(self)@.with_core(old(self).core.with_dropped(1)),
    {
        self.core.diagnostics.dropped_video_frames = more_by_one(
            self.core.diagnostics.dropped_video_frames,
        );
    }

    /// Offers a frame to the queue; gives it back if there is no room.
    pub fn queue_video_frame_at(&mut self, frame: MediaFrame, now: Instant) -> (back: Option<MediaFrame>)
        ensures
            ({
                let (taken, after) = old(self)@.video_queued(frame, now);
                &&& final(self)@ == after
                &&& back == (if taken { None } else { Some(frame) })
            }),
    {
        let ghost before = self@;
        if self.video_queue.len() >= VIDEO_QUEUE_CAP {
            match self.core.video_clock.pts_at(now, self.core.video_stream.time_base) {
                Some(due) => {
                    while self.drop_stale_frame(due)
                        invariant
                            before.queue.len() >= self.video_queue@.len(),
                            without_stale(before.queue, due) == without_stale(self.video_queue@, due),
                            self@ == (Playback {
                                core: before.core.with_dropped(
                                    before.queue.len() - self.video_queue@.len(),
                                ),
                                queue: self.video_queue@,
                                commands: before.commands,
                            }),
                        decreases self.video_queue.len(),
                    {
                    }
                },
                None => {},
            }
        }
        if self.video_queue.len() >= VIDEO_QUEUE_CAP {
            Some(frame)
        } else {
            self.video_queue.push(frame);
            None
        }
    }

    /// Whether a frame comes before the landing of the last seek.
    pub fn drop_before_post_seek_epoch(&mut self, kind: MediaType, pts: Option<i64>) -> (early: bool)
        ensures
            ({
                let (e, core) = old(self).core.epoch_step(kind, pts);
                early == e && final(self)@ == old(self)@.with_core(core)
            }),
    {
        let epoch = match self.core.post_seek_epoch {
            Some(epoch) => epoch,
            None => {
                return false;
            },
        };
        let position = self.frame_position_for_kind(kind, pts);
        match kind {
            MediaType::Subtitle | MediaType::Data | MediaType::Unknown => false,
            MediaType::Audio => {
                if epoch.audio_aligned {
                    return false;
                }
                let early: bool = match position {
                    Some(position) => position.nanos < epoch.floor.nanos,
                    None => true,
                };
                if early {
                    self.core.post_seek_epoch = Some(
                        PostSeekEpoch {
                            dropped_audio_frames: more_by_one(epoch.dropped_audio_frames),
                            ..epoch
                        },
                    );
                } else {
                    self.core.post_seek_epoch = if epoch.video_aligned {
                        None
                    } else {
                        Some(PostSeekEpoch { audio_aligned: true, ..epoch })
                    };
                }
                early
            },
            MediaType::Video => {
                if epoch.video_aligned {
                    return false;
                }
                match position {
                    None => false,
                    Some(position) => {
                        if position.nanos < epoch.floor.nanos {
                            self.core.post_seek_epoch = Some(
                                PostSeekEpoch {
                                    dropped_video_frames: more_by_one(epoch.dropped_video_frames),
                                    ..epoch
                                },
                            );
                            self.count_dropped();
                            true
                        } else {
                            self.core.post_seek_epoch = if epoch.audio_aligned {
                                None
                            } else {
                                Some(PostSeekEpoch { video_aligned: true, ..epoch })
                            };
                            false
                        }
                    },
                }
            },
        }
    }

    /// Takes note of a frame's time stamp.
    pub fn observe_frame_timestamp(&mut self, kind: MediaType, pts: Option<i64>)
        ensures
            final(self)@ == old(self)@.with_core(old(self).core.observed(kind, pts)),
    {
        let track = match kind {
            MediaType::Video => Some(self.core.video_stream),
            MediaType::Audio => self.core.audio_stream,
            _ => None,
        };
        let nanos = match (pts, track) {
            (Some(pts), Some(track)) => match track.time_base.nanos_of(pts) {
                Some(nanos) => nanos,
                None => {
                    return;
                },
            },
            _ => {
                return;
            },
        };
        if matches!(kind, MediaType::Video) && self.core.first_video.is_none() {
            self.core.first_video = Some(nanos);
        }
        if matches!(kind, MediaType::Audio) && self.core.first_audio.is_none() {
            self.core.first_audio = Some(nanos);
        }
        if matches!(kind, MediaType::Audio) && self.core.audio_anchor.is_none() {
            self.core.audio_anchor = Some(nanos);
        }
        if self.core.timeline_origin.is_none() {
            self.core.timeline_origin = stream::timeline_origin(
                self.core.first_video,
                self.core.first_audio,
                self.core.audio_stream.is_some(),
            );
        }
    }

    fn sync_audio_origin(&mut self)
        ensures
            final(self)@ == old(self)@.audio_origin_synced(),
    {
        match (self.core.timeline_origin, self.core.audio_anchor) {
            (Some(origin), Some(anchor)) => {
                if self.core.audio_open {
                    let relative: u128 = if anchor < origin {
                        0
                    } else {
                        time_base::apart(anchor, origin)
                    };
                    self.commands.push(
                        PlaybackCommand::SetMediaOrigin(Duration { nanos: relative }),
                    );
                }
            },
            _ => {},
        }
    }

    /// Takes in a decoded frame.
    pub fn handle_frame(&mut self, kind: MediaType, frame: MediaFrame, now: Instant) -> (result: Result<
        (),
        PlaybackError,
    >)
        ensures
            ({
                let (r, after) = old(self)@.frame_handled(kind, frame, now);
                result == r && final(self)@ == after
            }),
    {
        if self.core.seek_pending.is_some() {
            if matches!(kind, MediaType::Video) {
                self.count_dropped();
            }
            return Ok(());
        }
        match kind {
            MediaType::Subtitle | MediaType::Data | MediaType::Unknown => {
                return Ok(());
            },
            MediaType::Video => {
                self.core.diagnostics.received_video_frames = more_by_one(
                    self.core.diagnostics.received_video_frames,
                );
            },
            MediaType::Audio => {
                self.core.diagnostics.received_audio_frames = more_by_one(
                    self.core.diagnostics.received_audio_frames,
                );
            },
        }
        if self.drop_before_post_seek_epoch(kind, frame.pts) {
            return Ok(());
        }
        self.observe_frame_timestamp(kind, frame.pts);
        self.sync_audio_origin();
        if matches!(kind, MediaType::Video) {
            if frame.pts.is_none() {
                self.count_dropped();
                return Ok(());
            }
            match self.queue_video_frame_at(frame, now) {
                Some(_) => Err(PlaybackError::LookaheadExceeded),
                None => Ok(()),
            }
        } else if self.core.audio_open {
            self.commands.push(PlaybackCommand::QueueAudio(frame));
            Ok(())
        } else {
            Err(PlaybackError::NoAudioOutput)
        }
    }

    pub fn forward_buffers_ready(&self, levels: AudioLevels) -> (ready: bool)
        ensures
            ready == self@.buffers_ready(levels),
    {
        self.video_queue.len() >= VIDEO_QUEUE_CAP && (self.core.audio_stream.is_none() || (
        self.core.audio_open && levels.preroll_ready && levels.queued_samples
            >= levels.target_samples))
    }

    pub fn note_or_enter_buffering(&mut self, now: Instant)
        ensures
            final(self)@ == old(self)@.starved(now),
    {
        if !matches!(self.core.state, PlaybackState::Playing) || !self.core.first_frame_presented
            || self.video_queue.len() > 0 {
            self.core.starvation_started_at = None;
            return;
        }
        let started = match self.core.starvation_started_at {
            Some(started) => started,
            None => now,
        };
        if now.saturating_duration_since(started).nanos < BUFFERING_GRACE_NANOS {
            self.core.starvation_started_at = Some(started);
            return;
        }
        self.core.video_clock.pause(now, self.core.video_stream.time_base);
        self.update_position_at(now);
        if self.core.audio_open {
            self.commands.push(PlaybackCommand::PauseAudio(true));
        }
        self.core.starvation_started_at = None;
        self.core.state = PlaybackState::Buffering;
    }

    pub fn resume_from_buffering_if_ready(&mut self, now: Instant, levels: AudioLevels)
        ensures
            final(self)@ == old(self)@.rebuffered(now, levels),
    {
        if !matches!(self.core.state, PlaybackState::Buffering) || !self.forward_buffers_ready(levels) {
            return;
        }
        if self.core.audio_open {
            self.commands.push(PlaybackCommand::PauseAudio(false));
        }
        self.core.video_clock.play(now);
        self.core.state = PlaybackState::Playing;
    }

    pub fn update_end_state(&mut self, queued_samples: u64)
        ensures
            final(self)@ == old(self)@.end_checked(queued_samples),
    {
        let finished: bool = self.core.sink_finished || (self.core.video_eof && (
        self.core.audio_stream.is_none() || self.core.audio_eof));
        if !finished || self.video_queue.len() > 0 || self.core.pending_audio_frame.is_some() {
            return;
        }
        if self.core.audio_open && queued_samples != 0 {
            return;
        }
        if matches!(
            self.core.state,
            PlaybackState::Error(_) | PlaybackState::Ended | PlaybackState::Seeking
        ) {
            return;
        }
        self.core.state = PlaybackState::Ended;
    }

    /// Starts the clock if it shows nothing yet, and says which time stamp is due if a
    /// frame is to be shown.
    pub fn begin_presentation(&mut self, now: Instant) -> (due: Option<i64>)
        ensures
            ({
                let (d, after) = old(self)@.presentation_begun(now);
                due == d && final(self)@ == after
            }),
    {
        if self.core.video_clock.pts_at(now, self.core.video_stream.time_base).is_none() {
            if self.video_queue.len() == 0 {
                return None;
            }
            match self.video_queue[0].pts {
                Some(pts) => {
                    let playing: bool = matches!(self.core.state, PlaybackState::Playing);
                    self.core.video_clock.establish(pts, now, playing);
                    self.update_position_at(now);
                },
                None => {
                    return None;
                },
            }
        }
        if self.core.first_frame_presented && !matches!(self.core.state, PlaybackState::Playing) {
            return None;
        }
        self.core.video_clock.pts_at(now, self.core.video_stream.time_base)
    }

    /// Drops the front frame if the one behind it is due.
    pub fn drop_stale_frame(&mut self, due: i64) -> (dropped: bool)
        ensures
            dropped == front_is_stale(old(self)@.queue, due),
            final(self)@ == (if dropped {
                Playback {
                    core: old(self).core.with_dropped(1),
                    queue: old(self)@.queue.drop_first(),
                    ..old(self)@
                }
            } else {
                old(self)@
            }),
    {
        if self.video_queue.len() < 2 {
            return false;
        }
        let stale: bool = match self.video_queue[1].pts {
            Some(pts) => pts <= due,
            None => false,
        };
        if !stale {
            return false;
        }
        self.video_queue.remove(0);
        assert(self.video_queue@ =~= old(self)@.queue.drop_first());
        self.count_dropped();
        true
    }

    /// Takes the front frame if it is due.
    pub fn present_frame(&mut self, due: i64) -> (frame: Option<MediaFrame>)
        ensures
            ({
                let (f, after) = old(self)@.presented(due);
                frame == f && final(self)@ == after
            }),
    {
        if self.video_queue.len() == 0 {
            return None;
        }
        let is_due: bool = match self.video_queue[0].pts {
            Some(pts) => pts <= due,
            None => false,
        };
        if !is_due {
            return None;
        }
        let frame = self.video_queue.remove(0);
        assert(self.video_queue@ =~= old(self)@.queue.drop_first());
        self.core.first_frame_presented = true;
        self.core.diagnostics.presented_video_frames = more_by_one(
            self.core.diagnostics.presented_video_frames,
        );
        if !matches!(self.core.state, PlaybackState::Playing) {
            match self.frame_position_for_kind(MediaType::Video, frame.pts) {
                Some(position) => {
                    self.core.position = position;
                },
                None => {},
            }
        }
        Some(frame)
    }

    pub fn next_video_wake_deadline_at(&self, now: Instant) -> (deadline: Option<Instant>)
        ensures
            deadline == self@.wake_deadline(now),
    {
        if !matches!(self.core.state, PlaybackState::Playing) {
            return None;
        }
        match self.core.starvation_started_at {
            Some(started) => {
                let end = started.after(Duration { nanos: BUFFERING_GRACE_NANOS });
                return Some(if end.nanos < now.nanos { now } else { end });
            },
            None => {},
        }
        if self.video_queue.len() == 0 {
            return None;
        }
        let pts = match self.video_queue[0].pts {
            Some(pts) => pts,
            None => {
                return None;
            },
        };
        match self.core.video_clock.pts_at(now, self.core.video_stream.time_base) {
            None => Some(now),
            Some(due) => if pts <= due {
                Some(now)
            } else {
                self.core.video_clock.deadline_for(pts, self.core.video_stream.time_base)
            },
        }
    }
}

/// Frames that come in are counted by their track, and those that are left out as dropped.
pub proof fn frames_are_counted(core: PlaybackCore, n: int)
    requires
        core.diagnostics.received_video_frames < u64::MAX,
        core.diagnostics.received_audio_frames < u64::MAX,
        0 <= n,
        core.diagnostics.dropped_video_frames + n <= u64::MAX,
    ensures
        core.with_received(MediaType::Video).diagnostics.received_video_frames
            == core.diagnostics.received_video_frames + 1,
        core.with_received(MediaType::Video).diagnostics.received_audio_frames
            == core.diagnostics.received_audio_frames,
        core.with_received(MediaType::Audio).diagnostics.received_audio_frames
            == core.diagnostics.received_audio_frames + 1,
        core.with_received(MediaType::Audio).diagnostics.received_video_frames
            == core.diagnostics.received_video_frames,
        core.with_dropped(n).diagnostics.dropped_video_frames
            == core.diagnostics.dropped_video_frames + n,
        core.with_dropped(n).diagnostics.presented_video_frames
            == core.diagnostics.presented_video_frames,
{
}

} // verus!
