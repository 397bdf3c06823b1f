//! What playback promises to whoever watches: where a seek goes, what is heard and seen when,
//! and how it comes through a stall.

use crate::model::PlaybackState;
use crate::playback::clock;
use crate::playback::engine::{
    AudioLevels, MediaFrame, PendingSeek, Playback, PlaybackCommand, PlaybackCore, PlaybackError,
    PostSeekEpoch, SessionStep,
};
use crate::playback::frames;
use crate::playback::pump::SessionMsg;
use crate::playback::seek::Sought;
use crate::playback::stream;
use crate::playback::stream::MediaType;
use crate::time::{Duration, Instant};
use crate::time_base;
use crate::time_base::TimeBase;
use vstd::prelude::*;

verus! {

/// What the audio output was last told: to stand, or not to.
pub open spec fn last_pause(commands: Seq<PlaybackCommand>) -> Option<bool>
    decreases commands.len(),
{
    if commands.len() == 0 {
        None
    } else {
        match commands.last() {
            PlaybackCommand::PauseAudio(paused) => Some(paused),
            _ => last_pause(commands.drop_last()),
        }
    }
}

/// Whether the sound goes along with the picture over a step: it is on once the picture runs,
/// and off once it no longer does but for having ended.
pub open spec fn sound_goes_along(before: Playback, after: Playback) -> bool {
    &&& !(before.core.state is Playing) && after.core.state is Playing && after.core.audio_open
        ==> last_pause(after.commands) == Some(false)
    &&& before.core.state is Playing && before.core.audio_open && (after.core.state is Paused
        || after.core.state is Buffering || after.core.state is Seeking || after.core.state is Error)
        ==> last_pause(after.commands) == Some(true)
}

proof fn last_command_counts(commands: Seq<PlaybackCommand>, command: PlaybackCommand)
    ensures
        last_pause(commands.push(command)) == (match command {
            PlaybackCommand::PauseAudio(paused) => Some(paused),
            _ => last_pause(commands),
        }),
{
    assert(commands.push(command).drop_last() =~= commands);
}

/// Whatever the user or a stall does to playback, the sound goes along with the picture: a
/// device that is open runs once playback runs, and stands once it does not.
pub proof fn sound_follows_the_picture(
    playback: Playback,
    position: Duration,
    message: String,
    levels: AudioLevels,
    now: Instant,
)
    ensures
        sound_goes_along(playback, playback.played(now)),
        sound_goes_along(playback, playback.paused(now)),
        sound_goes_along(playback, playback.starved(now)),
        sound_goes_along(playback, playback.rebuffered(now, levels)),
        sound_goes_along(playback, playback.failed(message, now)),
        playback.sought(position, now) matches Sought::Now(_, after) ==> sound_goes_along(
            playback,
            after,
        ),
{
    let c = playback.commands;
    last_command_counts(c, PlaybackCommand::PauseAudio(true));
    last_command_counts(c, PlaybackCommand::PauseAudio(false));
    last_command_counts(c.push(PlaybackCommand::Abort), PlaybackCommand::PauseAudio(true));
}

/// A landed or refused seek that plays on has its sound on, and one that does not play on
/// leaves it off.
pub proof fn sound_follows_a_seek(
    playback: Playback,
    pending: PendingSeek,
    landed: Duration,
    resume_playing: bool,
    now: Instant,
)
    ensures
        sound_goes_along(
            playback.with_core(PlaybackCore { state: PlaybackState::Seeking, ..playback.core }),
            playback.seek_completed(landed, resume_playing, now),
        ),
        sound_goes_along(
            playback.with_core(PlaybackCore { state: PlaybackState::Seeking, ..playback.core }),
            playback.seek_refused(pending, now),
        ),
        !(playback.core.state is Playing) ==> sound_goes_along(
            playback,
            playback.seek_settled(pending, now).1,
        ),
        playback.core.audio_open ==> last_pause(playback.seek_landed(landed).commands) == Some(true),
        last_pause(playback.audio_opened().commands) == Some(!(playback.core.state is Playing)),
        playback.audio_opened().core.audio_open,
{
    let c = playback.commands;
    let quiet = c.push(PlaybackCommand::PauseAudio(true));
    last_command_counts(c, PlaybackCommand::PauseAudio(true));
    last_command_counts(c, PlaybackCommand::PauseAudio(false));
    last_command_counts(quiet, PlaybackCommand::PauseAudio(false));
    last_command_counts(quiet, PlaybackCommand::CloseAudio);
    last_command_counts(
        quiet.push(PlaybackCommand::CloseAudio),
        PlaybackCommand::PauseAudio(false),
    );
}

/// No message of the decoder turns the sound against the picture.
pub proof fn sound_follows_messages(playback: Playback, message: SessionMsg, now: Instant)
    requires
        playback.core.seek_pending is Some ==> playback.core.state is Seeking
            || playback.core.state is Error,
        message is Barrier ==> !(playback.core.state is Playing),
    ensures
        sound_goes_along(playback, playback.message_handled(message, now).1),
{
    match message {
        SessionMsg::Barrier { kind, barrier } => {
            match playback.core.seek_pending {
                Some(pending) => {
                    let noted = pending.noted(barrier);
                    let free = playback.with_core(
                        PlaybackCore {
                            seek_pending: None,
                            ..playback.core.flushed(kind, barrier)
                        },
                    );
                    sound_follows_a_seek(free, noted, Duration { nanos: 0 }, false, now);
                },
                None => {},
            }
        },
        _ => {},
    }
}

/// Playback that has run out of frames and has them back ends up running, with the sound on.
pub proof fn stall_ends_with_picture_and_sound(
    playback: Playback,
    refilled: Playback,
    levels: AudioLevels,
    now: Instant,
    later: Instant,
)
    requires
        playback.core.state is Playing,
        playback.core.audio_open,
        playback.starved(now).core.state is Buffering,
        refilled.core == playback.starved(now).core,
        refilled.queue.len() >= 2,
        levels.preroll_ready,
        levels.queued_samples >= levels.target_samples,
    ensures
        last_pause(playback.starved(now).commands) == Some(true),
        refilled.rebuffered(later, levels).core.state is Playing,
        last_pause(refilled.rebuffered(later, levels).commands) == Some(false),
        playback.core.due_pts(now) is Some ==> refilled.rebuffered(later, levels).core.due_pts(later)
            == (PlaybackCore {
            video_clock: clock::VideoClock::at(playback.core.due_pts(now).unwrap(), later, true),
            ..playback.core
        }).due_pts(later),
{
    last_command_counts(playback.commands, PlaybackCommand::PauseAudio(true));
    last_command_counts(refilled.commands, PlaybackCommand::PauseAudio(false));
}

/// Playback buffers once it has had nothing to show for a quarter of a second, and not before;
/// with a frame at hand it never does.
pub proof fn playback_buffers_after_a_quarter_second(playback: Playback, started: Instant, now: Instant)
    ensures
        playback.queue.len() > 0 || !playback.core.first_frame_presented ==> playback.starved(
            now,
        ).core.state == playback.core.state,
        playback.core.state is Playing && playback.core.first_frame_presented
            && playback.queue.len() == 0 ==> {
            &&& playback.core.starvation_started_at is None ==> playback.starved(
                now,
            ).core.state is Playing && playback.starved(now).core.starvation_started_at == Some(now)
            &&& playback.core.starvation_started_at == Some(started) && now.nanos < started.nanos
                + 250_000_000 ==> playback.starved(now).core.state is Playing && playback.starved(
                now,
            ).core.starvation_started_at == Some(started)
            &&& playback.core.starvation_started_at == Some(started) && now.nanos >= started.nanos
                + 250_000_000 ==> playback.starved(now).core.state is Buffering
        },
        !(playback.core.state is Playing) ==> playback.starved(now).core.state
            == playback.core.state,
{
}

/// Buffering ends exactly when two frames wait and, where there is sound, it is ready and there
/// is as much of it as there should be.
pub proof fn buffering_ends_when_both_are_back(playback: Playback, levels: AudioLevels, now: Instant)
    requires
        playback.core.state is Buffering,
    ensures
        ({
            let ready = playback.queue.len() >= 2 && (playback.core.audio_stream is None || (
            playback.core.audio_open && levels.preroll_ready && levels.queued_samples
                >= levels.target_samples));
            let after = playback.rebuffered(now, levels);
            &&& ready ==> after.core.state is Playing
            &&& !ready ==> after == playback
            &&& after.queue == playback.queue
            &&& after.core.position == playback.core.position
        }),
{
}

/// The time at which a seek goes: the one that was asked for, or the end of the video where
/// that comes before.
pub open spec fn is_target(asked: Duration, duration: Option<Duration>, target: Duration) -> bool {
    match duration {
        None => target.nanos == asked.nanos,
        Some(duration) => {
            &&& target.nanos <= duration.nanos
            &&& asked.nanos <= duration.nanos ==> target.nanos == asked.nanos
            &&& asked.nanos > duration.nanos ==> target.nanos == duration.nanos
        },
    }
}

/// A seek goes to the time that was asked for, as far as the video reaches. Where one is under
/// way it waits behind it, as the only one that does; otherwise the decoder is asked for the
/// tick nearest to it, and playback shows it at once. Where nothing can be sought, nothing
/// changes.
pub proof fn seeks_go_where_they_are_asked(playback: Playback, position: Duration, now: Instant)
    requires
        position.nanos <= 18_446_744_073_709_551_615_999_999_999,
    ensures
        !playback.core.seek_supported || playback.core.timeline_origin is None || (
        playback.core.seek_pending is None && !playback.core.executor) ==> playback.sought(position, now)
            == Sought::Now(None, playback),
        playback.core.seek_supported && playback.core.timeline_origin is Some
            && playback.core.seek_pending is Some ==> (playback.sought(position, now) matches Sought::Now(
            request,
            after,
        ) && {
            &&& request is None
            &&& is_target(position, playback.core.duration, after.core.position)
            &&& after.core.queued_seek == Some(after.core.position)
            &&& after.shown_position(now) == after.core.position || !(
            playback.core.state is Seeking || playback.core.state is Error)
            &&& after.core.seek_pending == playback.core.seek_pending
            &&& after.core.state == playback.core.state
            &&& after.queue == playback.queue
            &&& after.commands == playback.commands
        }),
        playback.core.seek_supported && playback.core.timeline_origin is Some
            && playback.core.seek_pending is None && playback.core.executor
            && playback.core.video_stream.time_base.positive() ==> (playback.sought(
            position,
            now,
        ) matches Sought::Now(Some(request), after) && {
            let plays = playback.core.state is Playing || playback.core.state is Buffering;
            &&& is_target(position, playback.core.duration, request.target)
            &&& request.pts == time_base::nearest_tick(
                playback.core.timeline_origin.unwrap() + (if request.target.nanos
                    > 18_446_744_073_709_551_615_999_999_999 {
                    18_446_744_073_709_551_615_999_999_999
                } else {
                    request.target.nanos as int
                }),
                playback.core.video_stream.time_base,
            )
            &&& request.stream_index == playback.core.video_stream.index
            &&& request.time_base == playback.core.video_stream.time_base
            &&& request.prior_position == playback.core.position
            &&& request.resume_playing == plays
            &&& after.core.state is Seeking
            &&& after.core.position == request.target
            &&& after.shown_position(now) == request.target
            &&& after.core.queued_seek is None
            &&& after.wants_to_play() == plays
            &&& (after.core.seek_pending matches Some(pending) && pending.requested == request.target
                && pending.prior_position == playback.core.position && pending.resume_playing == plays
                && pending.barriers_remaining == (if playback.core.audio_stream is Some {
                2int
            } else {
                1
            }) && pending.landing is None && !pending.rejected)
        }),
{
}

/// What runs shows where its clock stands on the media's timeline, as far as the video reaches;
/// what is sought shows where it was sought.
pub proof fn shown_position_is_the_clocks(playback: Playback, pts: i64, origin: i128, now: Instant)
    requires
        playback.core.timeline_origin == Some(origin),
    ensures
        playback.core.state is Seeking || playback.core.state is Error ==> playback.shown_position(now)
            == playback.core.position,
        !(playback.core.state is Seeking || playback.core.state is Error)
            && playback.core.video_clock.pts(now, playback.core.video_stream.time_base) == Some(pts)
            ==> match time_base::ticks_nanos(pts, playback.core.video_stream.time_base) {
            Some(nanos) => nanos >= origin ==> is_target(
                Duration { nanos: (nanos - origin) as u128 },
                playback.core.duration,
                playback.shown_position(now),
            ),
            None => playback.shown_position(now) == playback.core.position,
        },
        playback.core.video_clock.pts(now, playback.core.video_stream.time_base) is None
            ==> playback.shown_position(now) == playback.core.position,
{
}

/// Play starts what stands and pause stops what runs, where it is: the picture goes on from the
/// time stamp at which it stood, and stands at the one that was due.
pub proof fn play_and_pause_keep_the_place(
    playback: Playback,
    pts: i64,
    now: Instant,
    later: Instant,
)
    requires
        playback.core.due_pts(now) == Some(pts),
    ensures
        playback.core.state is Paused && playback.core.video_clock.origin is None ==> {
            let after = playback.played(now);
            &&& after.core.state is Playing
            &&& after.core.video_clock == clock::VideoClock::at(pts, now, true)
            &&& after.queue == playback.queue
            &&& after.wants_to_play()
        },
        playback.core.state is Playing || playback.core.state is Buffering ==> {
            let after = playback.paused(now);
            &&& after.core.state is Paused
            &&& after.core.due_pts(later) == Some(pts)
            &&& after.shown_position(later) == after.shown_position(now)
            &&& after.queue == playback.queue
            &&& after.core.starvation_started_at is None
            &&& !after.wants_to_play() || after.core.seek_pending is Some
        },
        playback.core.state is Playing ==> playback.played(now) == playback,
        playback.core.state is Paused ==> playback.paused(now) == playback,
{
}

/// A seek that has landed stands at its landing, with nothing from before left to show, and
/// plays on if it is to.
pub proof fn landed_seeks_stand_at_their_landing(
    playback: Playback,
    landed: Duration,
    resume_playing: bool,
    now: Instant,
)
    ensures
        ({
            let after = playback.seek_completed(landed, resume_playing, now);
            &&& after.core.position == landed
            &&& after.core.state is Playing <==> resume_playing
            &&& after.core.state is Paused <==> !resume_playing
            &&& after.shown_position(now) == landed
            &&& after.queue.len() == 0
            &&& !after.core.first_frame_presented
            &&& after.core.due_pts(now) is None
        }),
{
}

/// The last barrier of a seek that was not refused lands it where the source says, counted from
/// where the media begins, and what comes before is dropped on both tracks. Without sound
/// playback goes on at once; with sound its output is opened anew first.
pub proof fn last_barrier_lands_the_seek(
    playback: Playback,
    pending: PendingSeek,
    pts: i64,
    base: TimeBase,
    origin: i128,
    nanos: i128,
    now: Instant,
)
    requires
        !pending.rejected,
        pending.landing == Some((pts, base)),
        playback.core.timeline_origin == Some(origin),
        time_base::ticks_nanos(pts, base) == Some(nanos),
        playback.core.queued_seek is None || playback.core.queued_seek == Some(pending.requested),
    ensures
        ({
            let (step, after) = playback.seek_settled(pending, now);
            let landed = Duration { nanos: if nanos < origin { 0 } else { (nanos - origin) as u128 } };
            &&& after.core.queued_seek is None
            &&& after.core.post_seek_epoch == Some(
                PostSeekEpoch {
                    floor: landed,
                    audio_aligned: playback.core.audio_stream is None,
                    video_aligned: false,
                    dropped_audio_frames: 0,
                    dropped_video_frames: 0,
                },
            )
            &&& after.core.audio_anchor is None
            &&& playback.core.audio_stream is None ==> {
                &&& step == Ok::<SessionStep, PlaybackError>(SessionStep::Done)
                &&& after.core.position == landed
                &&& after.core.state == (if pending.resume_playing {
                    PlaybackState::Playing
                } else {
                    PlaybackState::Paused
                })
            }
            &&& step == Ok::<SessionStep, PlaybackError>(
                SessionStep::Reopen { landed, resume_playing: pending.resume_playing },
            ) || (step == Ok::<SessionStep, PlaybackError>(SessionStep::Done)
                && after.core.position == landed)
            &&& playback.core.audio_stream matches Some(track) ==> (step matches Ok(
                SessionStep::Reopen { .. },
            )) == (track.params.sample_rate is Some && track.params.sample_rate.unwrap() > 0
                && track.params.channel_count() is Some && track.params.channel_count().unwrap() > 0
                && track.params.sample_format is Some)
        }),
{
}

/// A refused seek leaves playback where it was before, doing what it did or was told since, and
/// no other is tried.
pub proof fn refused_seeks_go_back(playback: Playback, pending: PendingSeek, now: Instant)
    requires
        pending.rejected,
    ensures
        ({
            let (step, after) = playback.seek_settled(pending, now);
            &&& step == Ok::<SessionStep, PlaybackError>(SessionStep::Done)
            &&& after.core.position == pending.prior_position
            &&& after.core.state is Playing <==> pending.resume_playing
            &&& after.core.state is Paused <==> !pending.resume_playing
            &&& !after.core.seek_supported
            &&& after.core.queued_seek is None
            &&& after.queue == playback.queue
        }),
{
}

/// A barrier counts once, the first landing counts, and one refusal refuses the seek.
pub proof fn barriers_are_counted(
    pending: PendingSeek,
    generation: u32,
    pts: i64,
    base: TimeBase,
)
    requires
        pending.barriers_remaining > 0,
    ensures
        ({
            flush_noted(pending, generation, pts, base).barriers_remaining
                == pending.barriers_remaining - 1
        }),
        pending.landing is None ==> flush_noted(pending, generation, pts, base).landing == Some(
            (pts, base),
        ),
        pending.landing is Some ==> flush_noted(pending, generation, pts, base).landing
            == pending.landing,
        flush_noted(pending, generation, pts, base).rejected == pending.rejected,
        ({
            let refused = pending.noted(
                crate::playback::engine::BarrierKind::SeekRejected { generation },
            );
            &&& refused.rejected
            &&& refused.barriers_remaining == pending.barriers_remaining - 1
            &&& refused.landing == pending.landing
            &&& refused.resume_playing == pending.resume_playing
        }),
{
}

/// A seek once a flush has been noted.
pub open spec fn flush_noted(
    pending: PendingSeek,
    generation: u32,
    pts: i64,
    base: TimeBase,
) -> PendingSeek {
    pending.noted(
        crate::playback::engine::BarrierKind::SeekFlush {
            generation,
            landed_pts: pts,
            time_base: base,
        },
    )
}

/// Playback has ended once every track has, nothing waits to be shown or heard, and no seek or
/// failure is in the way; until then it has not.
pub proof fn playback_ends_when_nothing_is_left(playback: Playback, queued_samples: u64)
    requires
        !(playback.core.state is Ended),
    ensures
        playback.end_checked(queued_samples).core.state is Ended <==> {
            &&& playback.core.sink_finished || (playback.core.video_eof && (
            playback.core.audio_stream is None || playback.core.audio_eof))
            &&& playback.queue.len() == 0
            &&& playback.core.pending_audio_frame is None
            &&& !playback.core.audio_open || queued_samples == 0
            &&& !(playback.core.state is Seeking) && !(playback.core.state is Error)
        },
        !(playback.end_checked(queued_samples).core.state is Ended) ==> playback.end_checked(
            queued_samples,
        ) == playback,
        playback.end_checked(queued_samples).queue == playback.queue,
        playback.end_checked(queued_samples).commands == playback.commands,
{
}

/// What the decoder sends while a seek is under way is from before it: none of it is shown or
/// heard.
pub proof fn frames_during_a_seek_are_dropped(
    playback: Playback,
    kind: MediaType,
    frame: MediaFrame,
    now: Instant,
)
    requires
        playback.core.seek_pending is Some,
    ensures
        ({
            let (result, after) = playback.frame_handled(kind, frame, now);
            &&& result is Ok
            &&& after.queue == playback.queue
            &&& after.commands == playback.commands
            &&& after.core.post_seek_epoch == playback.core.post_seek_epoch
            &&& after.core.timeline_origin == playback.core.timeline_origin
            &&& after.core.position == playback.core.position
        }),
{
}

/// In ordinary playback a video frame joins the queue last and a sound goes to the output.
pub proof fn frames_are_taken_in(playback: Playback, frame: MediaFrame, now: Instant)
    requires
        playback.core.seek_pending is None,
        playback.core.post_seek_epoch is None,
    ensures
        frame.pts is Some && playback.queue.len() < 2 ==> {
            let (result, after) = playback.frame_handled(MediaType::Video, frame, now);
            result is Ok && after.queue == playback.queue.push(frame)
        },
        frame.pts is None ==> {
            let (result, after) = playback.frame_handled(MediaType::Video, frame, now);
            result is Ok && after.queue == playback.queue
        },
        playback.core.audio_open ==> {
            let (result, after) = playback.frame_handled(MediaType::Audio, frame, now);
            result is Ok && after.queue == playback.queue && after.commands.len() > 0
                && after.commands.last() == PlaybackCommand::QueueAudio(frame)
        },
        !playback.core.audio_open ==> playback.frame_handled(MediaType::Audio, frame, now).0
            == Err::<(), PlaybackError>(PlaybackError::NoAudioOutput),
{
}

/// After a seek, what reaches the landing is taken in: from then on its track is through.
pub proof fn frames_from_the_landing_on_are_taken_in(
    playback: Playback,
    epoch: PostSeekEpoch,
    frame: MediaFrame,
    position: Duration,
    now: Instant,
)
    requires
        playback.core.seek_pending is None,
        playback.core.post_seek_epoch == Some(epoch),
        position.nanos >= epoch.floor.nanos,
        playback.queue.len() < 2,
    ensures
        playback.core.frame_position(MediaType::Video, frame.pts) == Some(position) ==> {
            let (result, after) = playback.frame_handled(MediaType::Video, frame, now);
            &&& result is Ok
            &&& after.queue == playback.queue.push(frame)
            &&& epoch.video_aligned || epoch.audio_aligned ==> (after.core.post_seek_epoch is None
                || epoch.video_aligned)
            &&& after.core.post_seek_epoch matches Some(left) ==> left.video_aligned && left.floor
                == epoch.floor && left.audio_aligned == epoch.audio_aligned
        },
        playback.core.frame_position(MediaType::Audio, frame.pts) == Some(position)
            && playback.core.audio_open ==> {
            let (result, after) = playback.frame_handled(MediaType::Audio, frame, now);
            &&& result is Ok
            &&& after.commands.len() > 0 && after.commands.last() == PlaybackCommand::QueueAudio(
                frame,
            )
            &&& after.core.post_seek_epoch matches Some(left) ==> left.audio_aligned && left.floor
                == epoch.floor && left.video_aligned == epoch.video_aligned
        },
{
}

/// The media begin with the earlier of the first time stamps of the two tracks, once both are
/// known; a video without sound begins with its own.
pub proof fn media_begin_with_the_earlier_track(video: i128, audio: i128)
    ensures
        stream::origin_of(Some(video), Some(audio), true) matches Some(origin) && origin <= video
            && origin <= audio && (origin == video || origin == audio),
        stream::origin_of(Some(video), None, false) == Some(video),
        stream::origin_of(Some(video), Some(audio), false) == Some(video),
        stream::origin_of(Some(video), None, true) is None,
        stream::origin_of(None, Some(audio), true) is None,
        stream::origin_of(None, None, true) is None,
        stream::origin_of(None, None, false) is None,
{
}

/// The first time stamp of each track is kept, and where the media begin does not change once it
/// is known.
pub proof fn first_time_stamps_are_kept(core: PlaybackCore, kind: MediaType, pts: i64, nanos: i128)
    requires
        kind is Video ==> time_base::ticks_nanos(pts, core.video_stream.time_base) == Some(nanos),
        kind is Audio ==> (core.audio_stream matches Some(track) && time_base::ticks_nanos(
            pts,
            track.time_base,
        ) == Some(nanos)),
    ensures
        ({
            let after = core.observed(kind, Some(pts));
            &&& core.first_video is Some ==> after.first_video == core.first_video
            &&& core.first_audio is Some ==> after.first_audio == core.first_audio
            &&& core.audio_anchor is Some ==> after.audio_anchor == core.audio_anchor
            &&& core.timeline_origin is Some ==> after.timeline_origin == core.timeline_origin
            &&& kind is Video && core.first_video is None ==> after.first_video == Some(nanos)
            &&& kind is Audio && core.first_audio is None ==> after.first_audio == Some(nanos)
            &&& kind is Audio && core.audio_anchor is None ==> after.audio_anchor == Some(nanos)
            &&& kind is Video ==> after.first_audio == core.first_audio && after.audio_anchor
                == core.audio_anchor
            &&& kind is Audio ==> after.first_video == core.first_video
            &&& core.timeline_origin is None && after.first_video is Some && after.first_audio is Some
                && core.audio_stream is Some && (kind is Audio || kind is Video) ==> (
            after.timeline_origin matches Some(origin) && origin <= after.first_video.unwrap()
                && origin <= after.first_audio.unwrap())
        }),
        core.observed(kind, None) == core,
{
}

/// The output is told how far behind the beginning of the media its sound starts.
pub proof fn output_is_told_where_it_starts(playback: Playback, origin: i128, anchor: i128)
    requires
        playback.core.timeline_origin == Some(origin),
        playback.core.audio_anchor == Some(anchor),
        playback.core.audio_open,
        anchor >= origin,
    ensures
        playback.audio_origin_synced().commands == playback.commands.push(
            PlaybackCommand::SetMediaOrigin(Duration { nanos: (anchor - origin) as u128 }),
        ),
{
}

/// What is dropped from a full queue are frames that a later one has overtaken: what is left is
/// the end of the queue, beginning with the latest that is due or with all of it.
pub proof fn only_overtaken_frames_go(queue: Seq<MediaFrame>, due: i64)
    ensures
        ({
            let left = frames::without_stale(queue, due);
            &&& left.len() <= queue.len()
            &&& left == queue.skip(queue.len() - left.len())
            &&& queue.len() > 0 ==> left.len() > 0
            &&& left.len() >= 2 ==> (left[1].pts is None || left[1].pts.unwrap() > due)
            &&& left.len() < queue.len() ==> left[0].pts is Some && left[0].pts.unwrap() <= due
        }),
    decreases queue.len(),
{
    let left = frames::without_stale(queue, due);
    if queue.len() >= 2 && queue[1].pts is Some && queue[1].pts.unwrap() <= due {
        only_overtaken_frames_go(queue.drop_first(), due);
        assert(queue.drop_first().skip(queue.len() - 1 - left.len()) =~= queue.skip(
            queue.len() - left.len(),
        ));
    } else {
        assert(queue.skip(0) =~= queue);
    }
}

/// The event loop is woken for the next frame when it is due, or for the end of the grace that
/// a stall is given, never in the past, and not at all while nothing runs.
pub proof fn playback_wakes_for_what_comes_next(playback: Playback, started: Instant, now: Instant)
    ensures
        !(playback.core.state is Playing) ==> playback.wake_deadline(now) is None,
        playback.core.state is Playing && playback.core.starvation_started_at == Some(started)
            && started.nanos + 250_000_000 <= u128::MAX ==> (playback.wake_deadline(now) matches Some(
            at,
        ) && at.nanos >= now.nanos && (at == now || at.nanos == started.nanos + 250_000_000)
            && (started.nanos + 250_000_000 >= now.nanos ==> at.nanos == started.nanos
            + 250_000_000)),
        playback.core.state is Playing && playback.core.starvation_started_at is None
            && playback.queue.len() > 0 && (playback.queue[0].pts matches Some(pts) && (
        playback.core.due_pts(now) matches Some(due) && pts <= due)) ==> playback.wake_deadline(now)
            == Some(now),
        playback.core.state is Playing && playback.core.starvation_started_at is None
            && playback.queue.len() == 0 ==> playback.wake_deadline(now) is None,
{
}

/// The first frame starts the clock at its own time stamp, and is the one that shows: running
/// if playback runs, and otherwise standing there.
pub proof fn first_frame_starts_the_clock(playback: Playback, pts: i64, now: Instant)
    requires
        playback.core.due_pts(now) is None,
        playback.queue.len() > 0,
        playback.queue[0].pts == Some(pts),
        !playback.core.first_frame_presented,
        time_base::rescaled(
            0,
            TimeBase::nanos(),
            playback.core.video_stream.time_base,
            time_base::Rounding::Floor,
        ) == 0,
    ensures
        ({
            let (due, begun) = playback.presentation_begun(now);
            &&& due == Some(pts)
            &&& begun.queue == playback.queue
            &&& begun.presented(pts).0 == Some(playback.queue[0])
            &&& begun.presented(pts).1.core.first_frame_presented
            &&& begun.presented(pts).1.queue == playback.queue.drop_first()
            &&& begun.core.video_clock.origin is Some <==> playback.core.state is Playing
        }),
{
}

/// Paused playback that has shown a frame shows no other.
pub proof fn paused_playback_shows_one_frame(playback: Playback, now: Instant)
    requires
        playback.core.first_frame_presented,
        !(playback.core.state is Playing),
    ensures
        playback.presentation_begun(now).0 is None,
{
}

/// Where a seek has landed is counted from where the source begins, and is the beginning for
/// what lies before it; a landing without a time stamp, or before it is known where the source
/// begins, is none.
pub proof fn landings_count_from_the_beginning(
    core: PlaybackCore,
    pts: i64,
    base: TimeBase,
    nanos: i128,
    origin: i128,
)
    requires
        core.timeline_origin == Some(origin),
        time_base::ticks_nanos(pts, base) == Some(nanos),
    ensures
        core.landed(Some((pts, base))) matches Ok(landed) && {
            &&& nanos >= origin ==> origin + landed.nanos == nanos
            &&& nanos < origin ==> landed.nanos == 0
        },
        core.landed(None) is Err,
        (PlaybackCore { timeline_origin: None, ..core }).landed(Some((pts, base))) is Err,
{
}

/// Once a seek is on its way to the decoder, nothing of before is left to show, and one answer
/// is waited for from each track.
pub proof fn dispatched_seeks_clear_what_was_there(
    playback: Playback,
    pending: PendingSeek,
    generation: u32,
)
    requires
        playback.core.seek_pending == Some(pending),
        pending.generation is None,
    ensures
        ({
            let after = playback.seek_dispatched(generation);
            &&& after.queue.len() == 0
            &&& after.core.pending_audio_frame is None
            &&& after.core.post_seek_epoch is None
            &&& after.core.video_clock.origin is None && after.core.video_clock.frozen_pts is None
            &&& !after.core.first_frame_presented
            &&& after.core.starvation_started_at is None
            &&& after.core.position == playback.core.position
            &&& after.core.state == playback.core.state
            &&& after.core.seek_pending matches Some(sent) && {
                &&& sent.generation == Some(generation)
                &&& sent.barriers_remaining == (if playback.core.audio_stream is Some {
                    2usize
                } else {
                    1usize
                })
                &&& sent.requested == pending.requested
                &&& sent.resume_playing == pending.resume_playing
                &&& sent.prior_position == pending.prior_position
            }
        }),
{
}

/// A seek that could not be handed to the decoder goes back to where playback stood, and the
/// sound goes on if it was playing.
pub proof fn withdrawn_seeks_go_back(playback: Playback, request: crate::playback::engine::SeekRequest)
    ensures
        ({
            let after = playback.seek_withdrawn(request);
            &&& after.core.seek_pending is None
            &&& after.core.queued_seek is None
            &&& request.first ==> after.core.position == request.prior_position
                && after.core.state is Paused
            &&& !request.first ==> after.core.position == playback.core.position
                && after.core.state == playback.core.state
            &&& request.first && request.resume_playing && playback.core.audio_open
                ==> after.commands == playback.commands.push(PlaybackCommand::PauseAudio(false))
            &&& !request.first || !request.resume_playing || !playback.core.audio_open
                ==> after.commands == playback.commands
        }),
{
}

/// After a seek, sound and picture are taken up from the landing on, and the sound stands
/// until then.
pub proof fn landed_seeks_wait_for_both_tracks(playback: Playback, landed: Duration)
    ensures
        ({
            let after = playback.seek_landed(landed);
            &&& after.core.audio_anchor is None
            &&& after.core.post_seek_epoch matches Some(epoch) && {
                &&& epoch.floor == landed
                &&& !epoch.video_aligned
                &&& epoch.audio_aligned == (playback.core.audio_stream is None)
                &&& epoch.dropped_audio_frames == 0
                &&& epoch.dropped_video_frames == 0
            }
            &&& playback.core.audio_open ==> after.commands == playback.commands.push(
                PlaybackCommand::PauseAudio(true),
            )
        }),
{
}

/// Each track ends by itself, and the output is told when the sound does.
pub proof fn tracks_end_by_themselves(playback: Playback)
    ensures
        ({
            let after = playback.track_ended(MediaType::Video);
            &&& after.core.video_eof
            &&& after.core.audio_eof == playback.core.audio_eof
            &&& after.commands == playback.commands
        }),
        ({
            let after = playback.track_ended(MediaType::Audio);
            &&& after.core.audio_eof
            &&& after.core.video_eof == playback.core.video_eof
            &&& playback.core.audio_open ==> after.commands == playback.commands.push(
                PlaybackCommand::FinishAudioInput,
            )
        }),
        ({
            let after = playback.session_finished();
            &&& after.core.sink_finished
            &&& after.core.state == playback.core.state
            &&& playback.core.audio_open ==> after.commands == playback.commands.push(
                PlaybackCommand::FinishAudioInput,
            )
        }),
{
}

/// What is learnt of a track is kept. An output is opened once the sound is known well enough,
/// and sound that changes its format under an open one is refused.
pub proof fn tracks_are_kept_up_to_date(playback: Playback, track: stream::StreamInfo)
    ensures
        track.media_type is Video ==> playback.stream_updated(track).0 == Ok::<
            bool,
            crate::playback::engine::PlaybackError,
        >(false) && playback.stream_updated(track).1.core.video_stream == track,
        track.media_type is Audio && !playback.core.audio_open ==> playback.stream_updated(track).0
            == Ok::<bool, crate::playback::engine::PlaybackError>(stream::is_authoritative(track))
            && playback.stream_updated(track).1.core.audio_stream == Some(track),
        track.media_type is Audio && playback.core.audio_open && playback.core.audio_stream is Some
            && (playback.core.audio_stream.unwrap().params.sample_rate != track.params.sample_rate
            || playback.core.audio_stream.unwrap().params.channels != track.params.channels
            || playback.core.audio_stream.unwrap().params.sample_format
            != track.params.sample_format || playback.core.audio_stream.unwrap().params.codec
            != track.params.codec) ==> playback.stream_updated(track).0 is Err
            && playback.stream_updated(track).1 == playback,
{
}

/// An output that was opened plays if playback does, and stands if it does not.
pub proof fn opened_outputs_follow_playback(playback: Playback)
    ensures
        ({
            let after = playback.audio_opened();
            &&& after.core.audio_open
            &&& after.commands == playback.commands.push(
                PlaybackCommand::PauseAudio(!(playback.core.state is Playing)),
            )
            &&& after.core.state == playback.core.state
        }),
        !playback.audio_closed().core.audio_open,
        playback.core.audio_open ==> playback.audio_closed().commands == playback.commands.push(
            PlaybackCommand::CloseAudio,
        ),
{
}

/// Playback that fails says why, stops the decoder and the sound, and shows where it failed.
pub proof fn failures_stop_playback(playback: Playback, message: String, now: Instant)
    ensures
        ({
            let after = playback.failed(message, now);
            &&& after.core.state == PlaybackState::Error(message)
            &&& after.core.starvation_started_at is None
            &&& playback.core.executor && playback.core.audio_open ==> after.commands
                == playback.commands.push(PlaybackCommand::Abort).push(
                PlaybackCommand::PauseAudio(true),
            )
            &&& playback.core.executor && !playback.core.audio_open ==> after.commands
                == playback.commands.push(PlaybackCommand::Abort)
            &&& !playback.core.executor && !playback.core.audio_open ==> after.commands
                == playback.commands
            &&& after.queue == playback.queue
            &&& !(playback.core.state is Seeking) && !(playback.core.state is Error)
                && playback.core.clock_position(now) is Some ==> after.shown_position(now)
                == playback.shown_position(now)
        }),
{
}

/// A frame that is due is shown, counted, and no longer waits; while playback stands, it says
/// where it stands.
pub proof fn due_frames_are_shown(playback: Playback, due: i64, pts: i64)
    requires
        playback.queue.len() > 0,
        playback.queue[0].pts == Some(pts),
        playback.core.diagnostics.presented_video_frames < u64::MAX,
    ensures
        pts > due ==> playback.presented(due) == (None::<MediaFrame>, playback),
        pts <= due ==> {
            let (frame, after) = playback.presented(due);
            &&& frame == Some(playback.queue[0])
            &&& after.queue == playback.queue.skip(1)
            &&& after.core.first_frame_presented
            &&& after.core.diagnostics.presented_video_frames
                == playback.core.diagnostics.presented_video_frames + 1
            &&& playback.core.state is Playing ==> after.core.position == playback.core.position
            &&& !(playback.core.state is Playing) && playback.core.frame_position(
                MediaType::Video,
                Some(pts),
            ) is Some ==> Some(after.core.position) == playback.core.frame_position(
                MediaType::Video,
                Some(pts),
            )
        },
{
    assert(playback.queue.drop_first() =~= playback.queue.skip(1));
}

} // verus!
