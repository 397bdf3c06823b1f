//! What holds of the playback engine whatever it is told.

use crate::playback::clock;
use crate::playback::engine::{
    AudioLevels, BarrierKind, MediaFrame, PendingSeek, Playback, PlaybackCore, PlaybackError,
    PostSeekEpoch, SeekRequest, SessionStep, VIDEO_QUEUE_CAP,
};
use crate::playback::frames;
use crate::playback::pump::SessionMsg;
use crate::playback::seek::Sought;
use crate::playback::stream::MediaType;
use crate::time::{Duration, Instant};
use vstd::prelude::*;

verus! {

proof fn without_stale_is_no_longer(queue: Seq<MediaFrame>, due: i64)
    ensures
        frames::without_stale(queue, due).len() <= queue.len(),
    decreases queue.len(),
{
    if frames::front_is_stale(queue, due) {
        without_stale_is_no_longer(queue.drop_first(), due);
    }
}

/// The lookahead stays bounded: whatever message comes, no more frames wait than there is
/// room for.
pub proof fn lookahead_stays_bounded(playback: Playback, message: SessionMsg, now: Instant)
    requires
        playback.queue.len() <= VIDEO_QUEUE_CAP,
    ensures
        playback.message_handled(message, now).1.queue.len() <= VIDEO_QUEUE_CAP,
{
    match message {
        SessionMsg::Frame { kind, frame } => {
            let (early, core) = playback.core.with_received(kind).epoch_step(kind, frame.pts);
            let seen = playback.with_core(
                core.observed(kind, frame.pts),
            ).audio_origin_synced();
            match seen.core.due_pts(now) {
                Some(due) => {
                    without_stale_is_no_longer(seen.queue, due);
                },
                None => {},
            }
        },
        _ => {},
    }
}

/// A frame is refused only where the lookahead is full of frames that are still to be
/// shown, and is in it otherwise.
pub proof fn frames_with_room_are_kept(playback: Playback, frame: MediaFrame, now: Instant)
    requires
        playback.queue.len() < VIDEO_QUEUE_CAP,
    ensures
        playback.video_queued(frame, now).0,
        playback.video_queued(frame, now).1.queue == playback.queue.push(frame),
{
}

/// A seek takes effect at once: playback shows as seeking and stands at the target, and once
/// the decoder has told the generation nothing from before the seek is left.
pub proof fn seek_takes_effect_at_once(
    playback: Playback,
    position: Duration,
    request: SeekRequest,
    generation: u32,
    now: Instant,
)
    requires
        playback.sought(position, now) matches Sought::Now(Some(r), _) && r == request,
    ensures
        playback.sought(position, now) matches Sought::Now(Some(_), begun) && {
            let target = playback.core.within_duration(position);
            &&& begun.core.state is Seeking
            &&& begun.shown_position(now) == target
            &&& begun.wants_to_play() == (playback.core.state is Playing
                || playback.core.state is Buffering)
            &&& begun.seek_dispatched(generation) == (Playback {
                core: PlaybackCore {
                    pending_audio_frame: None,
                    post_seek_epoch: None,
                    video_clock: clock::VideoClock::unset(),
                    first_frame_presented: false,
                    starvation_started_at: None,
                    queued_seek: None,
                    position: target,
                    state: crate::model::PlaybackState::Seeking,
                    seek_pending: Some(
                        PendingSeek {
                            generation: Some(generation),
                            requested: target,
                            prior_position: playback.core.position,
                            resume_playing: playback.core.state is Playing
                                || playback.core.state is Buffering,
                            barriers_remaining: playback.core.routes(),
                            landing: None,
                            rejected: false,
                        },
                    ),
                    ..playback.core
                },
                queue: Seq::empty(),
                commands: playback.with_audio_command(
                    crate::playback::engine::PlaybackCommand::PauseAudio(true),
                ).commands,
            })
        },
{
}

/// What the user does between a seek and the decoder's answer counts as if the decoder had
/// answered before: the order of the two makes no difference.
pub proof fn answer_of_the_decoder_can_wait(
    playback: Playback,
    pending: PendingSeek,
    generation: u32,
    position: Duration,
    now: Instant,
)
    requires
        playback.core.state is Seeking,
        playback.core.seek_pending == Some(pending),
        pending.generation is None,
    ensures
        playback.played(now).seek_dispatched(generation) == playback.seek_dispatched(
            generation,
        ).played(now),
        playback.paused(now).seek_dispatched(generation) == playback.seek_dispatched(
            generation,
        ).paused(now),
        playback.sought(position, now) matches Sought::Now(None, after) && after.seek_dispatched(
            generation,
        ) == playback.seek_dispatched(generation).sought(position, now)->Now_1,
{
}

/// A seek that the decoder does not take leaves playback as it was, stopped by the failure.
pub proof fn failed_seek_restores_playback(
    playback: Playback,
    position: Duration,
    request: SeekRequest,
    message: String,
    now: Instant,
)
    requires
        playback.sought(position, now) matches Sought::Now(Some(r), _) && r == request,
        !(playback.core.state is Seeking),
    ensures
        playback.sought(position, now) matches Sought::Now(Some(_), begun) && {
            let failed = begun.seek_withdrawn(request).failed(message, now);
            &&& failed.core == playback.with_core(
                PlaybackCore { queued_seek: None, ..playback.core },
            ).failed(message, now).core
            &&& failed.queue == playback.queue
        },
{
}

/// While a seek is under way, another one only replaces the target: nothing more is asked
/// of the decoder, and the position shows the latest target.
pub proof fn seeks_coalesce_to_the_latest_target(
    playback: Playback,
    first: Duration,
    second: Duration,
    now: Instant,
    later: Instant,
)
    requires
        playback.core.seek_pending is Some,
        playback.core.seek_supported,
        playback.core.timeline_origin is Some,
    ensures
        playback.sought(first, now) matches Sought::Now(request, after) && {
            &&& request is None
            &&& after.core.seek_pending == playback.core.seek_pending
            &&& after.core.queued_seek == Some(playback.core.within_duration(first))
            &&& after.sought(second, later) matches Sought::Now(request, last) && {
                &&& request is None
                &&& last.core.queued_seek == Some(playback.core.within_duration(second))
                &&& last.core.position == playback.core.within_duration(second)
            }
        },
{
}

/// Once the seek under way has settled, the latest target is what the decoder is asked for
/// next, and what playback did before the first one is what it comes back to.
pub proof fn latest_target_is_sought_next(playback: Playback, pending: PendingSeek, target: Duration, now: Instant)
    requires
        !pending.rejected,
        playback.core.landed(pending.landing) is Ok,
        playback.core.queued_seek == Some(target),
        target != pending.requested,
    ensures
        playback.seek_settled(pending, now).0 matches Ok(SessionStep::Dispatch(request)) ==> {
            &&& request.target == target
            &&& request.prior_position == pending.prior_position
            &&& request.resume_playing == pending.resume_playing
            &&& playback.seek_settled(pending, now).1.core.state is Seeking
            &&& playback.seek_settled(pending, now).1.core.position == target
        },
        playback.seek_settled(pending, now).1.core.queued_seek is None,
{
}

/// Play and pause during a seek change nothing but what playback comes back to.
pub proof fn transport_during_a_seek_sets_the_intent(playback: Playback, pending: PendingSeek, now: Instant)
    requires
        playback.core.state is Seeking,
        playback.core.seek_pending == Some(pending),
    ensures
        playback.played(now) == playback.with_core(
            PlaybackCore {
                seek_pending: Some(PendingSeek { resume_playing: true, ..pending }),
                ..playback.core
            },
        ),
        playback.paused(now) == playback.with_core(
            PlaybackCore {
                seek_pending: Some(PendingSeek { resume_playing: false, ..pending }),
                ..playback.core
            },
        ),
        playback.played(now).wants_to_play(),
        !playback.paused(now).wants_to_play(),
        playback.played(now).paused(now) == playback.paused(now),
        playback.paused(now).played(now) == playback.played(now),
{
}

/// A failure freezes the position: it shows the same from then on, and neither play nor
/// pause brings playback back.
pub proof fn failure_freezes_playback(playback: Playback, message: String, now: Instant, a: Instant, b: Instant)
    ensures
        ({
            let failed = playback.failed(message, now);
            &&& failed.core.state == crate::model::PlaybackState::Error(message)
            &&& failed.shown_position(a) == failed.shown_position(b)
            &&& failed.played(a) == failed
            &&& failed.paused(a) == failed
            &&& playback.core.due_pts(now) is Some ==> failed.core.due_pts(a)
                == playback.core.due_pts(now)
        }),
{
    clock::paused_clock_stands(
        playback.core.video_clock,
        now,
        a,
        playback.core.video_stream.time_base,
    );
}

/// A video that has ended does not start again by being played or paused.
pub proof fn ended_playback_stays_ended(playback: Playback, now: Instant)
    requires
        playback.core.state is Ended,
    ensures
        playback.played(now) == playback,
        playback.paused(now) == playback,
{
}

/// After a seek, no audio frame from before its landing is handed to the output: as long as
/// the track has not reached the landing, such a frame is dropped and counted.
pub proof fn audio_before_the_landing_is_dropped(
    playback: Playback,
    epoch: PostSeekEpoch,
    frame: MediaFrame,
    now: Instant,
)
    requires
        playback.core.seek_pending is None,
        playback.core.post_seek_epoch == Some(epoch),
        !epoch.audio_aligned,
        playback.core.frame_position(MediaType::Audio, frame.pts) matches Some(position)
            ==> position.nanos < epoch.floor.nanos,
    ensures
        ({
            let (result, after) = playback.frame_handled(MediaType::Audio, frame, now);
            &&& result is Ok
            &&& after.commands == playback.commands
            &&& after.queue == playback.queue
            &&& after.core.post_seek_epoch matches Some(left) && !left.audio_aligned
                && left.floor == epoch.floor
        }),
{
}

/// After a seek, no video frame from before its landing is shown.
pub proof fn video_before_the_landing_is_dropped(
    playback: Playback,
    epoch: PostSeekEpoch,
    frame: MediaFrame,
    now: Instant,
)
    requires
        playback.core.seek_pending is None,
        playback.core.post_seek_epoch == Some(epoch),
        !epoch.video_aligned,
        playback.core.frame_position(MediaType::Video, frame.pts) matches Some(position)
            && position.nanos < epoch.floor.nanos,
    ensures
        ({
            let (result, after) = playback.frame_handled(MediaType::Video, frame, now);
            &&& result is Ok
            &&& after.queue == playback.queue
            &&& after.core.post_seek_epoch matches Some(left) && !left.video_aligned
                && left.floor == epoch.floor
        }),
{
}

/// A barrier of another seek than the one under way changes nothing.
pub proof fn foreign_barriers_are_ignored(
    playback: Playback,
    kind: Option<MediaType>,
    barrier: BarrierKind,
    now: Instant,
)
    requires
        playback.core.seek_pending matches Some(pending) ==> pending.generation
            != Some(barrier.generation()),
    ensures
        playback.barrier_handled(kind, barrier, now) == (
            Ok::<SessionStep, PlaybackError>(SessionStep::Done),
            playback,
        ),
{
}

/// A seek waits for the barrier of every track: until the last one has come, it stays under
/// way.
pub proof fn seek_waits_for_every_barrier(
    playback: Playback,
    pending: PendingSeek,
    kind: Option<MediaType>,
    barrier: BarrierKind,
    now: Instant,
)
    requires
        playback.core.seek_pending == Some(pending),
        pending.generation == Some(barrier.generation()),
        pending.barriers_remaining > 1,
    ensures
        ({
            let (step, after) = playback.barrier_handled(kind, barrier, now);
            &&& step == Ok::<SessionStep, PlaybackError>(SessionStep::Done)
            &&& after.core.seek_pending matches Some(left) && left.barriers_remaining
                == pending.barriers_remaining - 1
            &&& after.core.state == playback.core.state
            &&& after.core.position == playback.core.position
        }),
{
}

/// A source that refuses a seek is not asked again: playback is back where it was, and
/// further seeks change nothing.
pub proof fn refused_seeks_are_not_repeated(
    playback: Playback,
    pending: PendingSeek,
    target: Duration,
    now: Instant,
    later: Instant,
)
    requires
        pending.rejected,
        !pending.resume_playing,
    ensures
        ({
            let (step, after) = playback.seek_settled(pending, now);
            &&& step == Ok::<SessionStep, PlaybackError>(SessionStep::Done)
            &&& after.core.position == pending.prior_position
            &&& after.core.state is Paused
            &&& after.sought(target, later) == Sought::Now(None, after)
        }),
{
}

/// Whether a seek under way shows in the state.
pub open spec fn seek_shows(playback: Playback) -> bool {
    playback.core.seek_pending is Some ==> playback.core.state is Seeking
        || playback.core.state is Error
}

/// A seek under way shows as such, through everything that can happen to it.
pub proof fn pending_seek_shows(
    playback: Playback,
    message: SessionMsg,
    request: SeekRequest,
    generation: u32,
    levels: AudioLevels,
    failure: String,
    now: Instant,
)
    requires
        seek_shows(playback),
    ensures
        seek_shows(playback.seek_begun(request)),
        seek_shows(playback.seek_dispatched(generation)),
        seek_shows(playback.seek_withdrawn(request)),
        seek_shows(playback.message_handled(message, now).1),
        seek_shows(playback.played(now)),
        seek_shows(playback.paused(now)),
        seek_shows(playback.starved(now)),
        seek_shows(playback.rebuffered(now, levels)),
        seek_shows(playback.end_checked(levels.queued_samples)),
        seek_shows(playback.failed(failure, now)),
{
    match message {
        SessionMsg::Barrier { kind, barrier } => {},
        SessionMsg::Frame { kind, frame } => {},
        _ => {},
    }
}

} // verus!
