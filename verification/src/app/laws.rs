//! What holds of the application whatever is asked of it.

use crate::app::saves;
use crate::app::saves::Saves;
use crate::app::state::App;
use crate::app::ui;
use crate::app::ui::Controls;
use crate::app::update::{Events, ShutdownStep};
use crate::model::{AppCommand, Quality};
use crate::playback::backend::Player;
use crate::playback::dummy;
use crate::time::{Duration, Instant};
use crate::session::Session;
use crate::video::{Video, VideoPlatform};
use vstd::prelude::*;

verus! {

proof fn quality_with_id_is_there(qualities: Seq<Quality>, id: Seq<char>, from: int)
    ensures
        dummy::quality_with_id(qualities, id, from) matches Some(index) ==> 0 <= index
            < qualities.len(),
    decreases qualities.len() - from,
{
    if 0 <= from < qualities.len() && qualities[from].id@ != id {
        quality_with_id_is_there(qualities, id, from + 1);
    }
}

proof fn with_quality_keeps_wf(player: Player, id: Seq<char>)
    requires
        player.wf(),
    ensures
        player.with_quality(id).wf(),
{
    quality_with_id_is_there(player.qualities(), id, 0);
    match player {
        Player::Dummy(dummy) => {
            assert(dummy.qualities.len() == dummy.qualities@.len());
        },
        _ => {},
    }
}

/// A command leaves the player with a quality that there is.
pub proof fn commands_keep_the_player_valid(app: App, command: AppCommand, now: Instant, after: Player)
    requires
        app.playback.wf(),
        app.plays_on(command, now, after),
    ensures
        after.wf(),
{
    if !app.is_blocked(command) {
        match command {
            AppCommand::SetQuality(quality) => {
                with_quality_keeps_wf(app.playback, quality@);
            },
            AppCommand::SetFavouriteQualities(qualities) => {
                match crate::playback::hls::favourite(app.playback.qualities(), qualities@) {
                    Some(index) => {
                        with_quality_keeps_wf(
                            app.playback,
                            app.playback.qualities()[index].id@,
                        );
                    },
                    None => {},
                }
            },
            _ => {},
        }
    }
}

proof fn flushing_keeps_distinct_keys(app: App, now: Instant)
    requires
        saves::distinct_keys(app.saves.queue),
    ensures
        saves::distinct_keys(app.save_forced(now).saves.queue),
{
    let refreshed = app.pause_cancelled().safe_refreshed(now);
    let queued = refreshed.position_queued(true);
    match refreshed.sessions.last_safe {
        Some(session) => {
            saves::queue_keeps_distinct_keys(
                refreshed.saves,
                refreshed.user_id,
                refreshed.device_id,
                session,
                true,
                false,
                false,
                now,
            );
            saves::queue_keeps_distinct_keys(
                queued.saves,
                refreshed.user_id,
                refreshed.device_id,
                session,
                true,
                false,
                false,
                now,
            );
        },
        None => {
            let queue = app.saves.queue;
            if queue.len() > 0 {
                assert forall|i: int, j: int| 0 <= i < j < queue.skip(1).len() implies !saves::same_key(
                    #[trigger] queue.skip(1)[i],
                    #[trigger] queue.skip(1)[j],
                ) by {
                    assert(!saves::same_key(queue[i + 1], queue[j + 1]));
                }
            }
        },
    }
}

/// Writing down what would be lost keeps the state valid.
pub proof fn flushing_keeps_the_state_valid(app: App, now: Instant)
    requires
        app.wf(),
    ensures
        app.session_flushed(now).save_forced(now).wf(),
        app.session_flushed(now).save_forced(now).playback == app.playback,
        app.session_flushed(now).save_forced(now).ui == app.ui,
{
    flushing_keeps_distinct_keys(app.session_flushed(now), now);
}

proof fn asking_for_a_video_keeps_the_rest_valid(app: App, source: Video, now: Instant, after: Player)
    requires
        app.wf(),
    ensures
        saves::distinct_keys(app.video_asked(source, now, after).saves.queue),
        app.video_asked(source, now, after).ui.controls.wf(),
        app.video_asked(source, now, after).playback == (if source.platform
            == VideoPlatform::Twitch {
            after
        } else {
            app.playback
        }),
{
    reveal(App::video_asked);
    flushing_keeps_distinct_keys(app.session_flushed(now), now);
}

proof fn pausing_keeps_the_rest(app: App, now: Instant, after: Player)
    ensures
        app.user_paused(now, after).saves.queue == app.saves.queue,
        app.user_paused(now, after).ui == app.ui,
        app.user_paused(now, after).playback == after,
        app.requests.is_prefix_of(app.user_paused(now, after).requests),
{
    reveal(App::user_paused);
}

proof fn changing_the_account_keeps_the_rest(app: App, user_id: Seq<char>, device_id: Seq<char>, now: Instant)
    ensures
        app.signed_in_as(user_id, device_id, now).saves.queue.len() == 0,
        app.signed_in_as(user_id, device_id, now).ui == app.ui,
        app.signed_in_as(user_id, device_id, now).playback == app.playback,
        app.requests.is_prefix_of(app.signed_in_as(user_id, device_id, now).requests),
        app.signed_out().saves.queue.len() == 0,
        app.signed_out().ui == app.ui,
        app.signed_out().playback == app.playback,
        app.requests.is_prefix_of(app.signed_out().requests),
{
    reveal(App::signed_in_as);
    reveal(App::signed_out);
}

/// Every command keeps the state valid.
pub proof fn commands_keep_the_state_valid(app: App, command: AppCommand, now: Instant, after: Player)
    requires
        app.wf(),
        app.plays_on(command, now, after),
    ensures
        app.applied(command, now, after).wf(),
{
    commands_keep_the_player_valid(app, command, now, after);
    if !app.is_blocked(command) {
        match command {
            AppCommand::OpenVideo(source) => {
                asking_for_a_video_keeps_the_rest_valid(app, source@, now, after);
            },
            AppCommand::SignIn { user_id, device_id } => {
                changing_the_account_keeps_the_rest(app, user_id@, device_id@, now);
            },
            AppCommand::SignOut => {
                changing_the_account_keeps_the_rest(app, Seq::empty(), Seq::empty(), now);
            },
            AppCommand::Pause | AppCommand::TogglePlayback => {
                pausing_keeps_the_rest(app, now, after);
            },
            _ => {},
        }
        assert(app.carried_out(command, now, after).wf());
    }
}

/// Locked controls block every command but those that unlock or show them.
pub proof fn locked_controls_block_commands(app: App, command: AppCommand, now: Instant, after: Player)
    requires
        app.ui.controls.locked,
        !(command is ToggleControlsLock),
        !(command is ToggleControlsVisibility),
        app.plays_on(command, now, after),
    ensures
        after == app.playback,
        app.applied(command, now, after) == app,
{
}

/// To lock and unlock again leaves nothing locked, and closes the menu.
pub proof fn unlocking_undoes_locking(app: App, now: Instant)
    ensures
        ({
            let locked = app.applied(AppCommand::ToggleControlsLock, now, app.playback);
            let unlocked = locked.applied(AppCommand::ToggleControlsLock, now, app.playback);
            &&& locked.ui.controls.locked == !app.ui.controls.locked
            &&& unlocked.ui.controls.locked == app.ui.controls.locked
            &&& !unlocked.ui.controls.menu_open
            &&& unlocked.ui.controls.visible
        }),
{
}

/// What was asked to be done stays asked: a command only adds to it.
pub proof fn commands_only_add_requests(app: App, command: AppCommand, now: Instant, after: Player)
    ensures
        app.requests.is_prefix_of(app.applied(command, now, after).requests),
{
    match command {
        AppCommand::OpenVideo(source) => {
            reveal(App::video_asked);
            let flushed = app.session_flushed(now);
            assert(app.requests.is_prefix_of(flushed.requests));
            assert(app.requests.is_prefix_of(flushed.save_forced(now).requests));
        },
        AppCommand::SignIn { user_id, device_id } => {
            changing_the_account_keeps_the_rest(app, user_id@, device_id@, now);
        },
        AppCommand::SignOut => {
            changing_the_account_keeps_the_rest(app, Seq::empty(), Seq::empty(), now);
        },
        AppCommand::Pause | AppCommand::TogglePlayback => {
            pausing_keeps_the_rest(app, now, after);
        },
        _ => {},
    }
    assert(app.requests.is_prefix_of(app.carried_out(command, now, after).requests));
}

/// A video that has ended does not start again when playback is toggled.
pub proof fn ended_video_is_not_restarted(app: App, now: Instant, after: Player)
    requires
        app.playback.state() is Ended,
        app.plays_on(AppCommand::TogglePlayback, now, after),
    ensures
        after == app.playback,
        app.carried_out(AppCommand::TogglePlayback, now, after) == app,
{
}

/// Whoever signs in or out leaves nothing of an earlier account behind: no positions, none
/// that wait, and none known to have been sent. The preferences stay.
pub proof fn accounts_do_not_mix(app: App, user_id: Seq<char>, device_id: Seq<char>, now: Instant)
    ensures
        ({
            let other = app.signed_in_as(user_id, device_id, now);
            &&& other.user_id == Some(user_id)
            &&& other.device_id == Some(device_id)
            &&& other.cache.positions.len() == 0
            &&& other.cache.refresh_requested
            &&& other.saves.queue.len() == 0
            &&& other.saves.last_uploaded is None
            &&& other.favourite_qualities == app.favourite_qualities
        }),
        ({
            let out = app.signed_out();
            &&& out.user_id is None
            &&& out.device_id is None
            &&& out.cache.positions.len() == 0
            &&& !out.cache.refresh_requested
            &&& out.saves.queue.len() == 0
            &&& out.saves.last_uploaded is None
            &&& out.favourite_qualities == app.favourite_qualities
        }),
{
    reveal(App::signed_in_as);
    reveal(App::signed_out);
}

/// Only one video is waited for: opening another gives up the one before, and what comes of
/// it then changes nothing.
pub proof fn later_video_replaces_earlier(app: App, first: Player, second: Player, a: Video, b: Video)
    requires
        a.platform == VideoPlatform::Twitch,
        b.platform == VideoPlatform::Twitch,
    ensures
        app.opening(a, first).opening(b, second).pending_video_open != app.opening(
            a,
            first,
        ).pending_video_open,
{
}

proof fn completing_keeps_distinct_keys(saves: Saves, sent: bool, requeue_failure: bool, now: Instant)
    requires
        saves::distinct_keys(saves.queue),
    ensures
        saves::distinct_keys(saves.completed(sent, requeue_failure, now).queue),
        saves::distinct_keys(saves.started(now).1.queue),
{
    let blank = Session {
        source: Video { id: Seq::empty(), platform: VideoPlatform::Twitch, start_time: None },
        position: Duration { nanos: 0 },
    };
    saves::queue_keeps_distinct_keys(
        saves,
        None,
        None,
        blank,
        false,
        sent,
        requeue_failure,
        now,
    );
}

proof fn events_keep_the_rest(app: App, elapsed: Duration, now: Instant, events: Events)
    requires
        app.wf(),
    ensures
        ({
            let after = app.playback_updated(elapsed, now).aged(elapsed).informed(events, now)
                .fetch_started();
            &&& saves::distinct_keys(after.saves.queue)
            &&& after.playback == app.playback.updated(elapsed, now)
            &&& after.ui == app.ui
        }),
{
    let a = app.playback_updated(elapsed, now).aged(elapsed);
    assert(a.saves == app.saves && a.ui == app.ui && a.playback == app.playback.updated(
        elapsed,
        now,
    ));
    match events.saved {
        Some(saved) => {
            completing_keeps_distinct_keys(a.saves, saved is Ok, true, now);
        },
        None => {},
    }
    let b = a.informed(events, now);
    assert(saves::distinct_keys(b.saves.queue) && b.ui == app.ui && b.playback == a.playback);
}

proof fn saving_keeps_the_rest(app: App, now: Instant)
    requires
        saves::distinct_keys(app.saves.queue),
    ensures
        ({
            let after = app.pause_saved(now).progress_saved(now).save_started(now);
            &&& saves::distinct_keys(after.saves.queue)
            &&& after.playback == app.playback
            &&& after.ui == app.ui
        }),
{
    position_queued_keeps_distinct_keys(app.pause_cancelled().safe_refreshed(now), true);
    let a = app.pause_saved(now);
    assert(saves::distinct_keys(a.saves.queue) && a.playback == app.playback && a.ui == app.ui);
    position_queued_keeps_distinct_keys(a.safe_refreshed(now), false);
    let b = a.progress_saved(now);
    assert(saves::distinct_keys(b.saves.queue) && b.playback == app.playback && b.ui == app.ui);
    completing_keeps_distinct_keys(b.saves, false, false, now);
}

proof fn controls_stay_valid(controls: Controls, elapsed: Duration, has_video: bool, playing: bool, dialog_open: bool)
    requires
        controls.wf(),
    ensures
        controls.after(elapsed, has_video, playing, dialog_open).wf(),
{
    match controls.return_from {
        Some(from) => {
            let total = controls.return_elapsed.plus(elapsed);
            if total.nanos < ui::LOCK_SLIDE_BACK_NANOS {
                let left = ui::LOCK_SLIDE_BACK_NANOS - total.nanos;
                assert(0 <= from * left <= from * 500_000_000) by (nonlinear_arith)
                    requires
                        0 <= left <= 500_000_000,
                        0 <= from,
                ;
            }
        },
        None => {},
    }
}

/// Every update keeps the state valid.
pub proof fn updates_keep_the_state_valid(app: App, elapsed: Duration, now: Instant, events: Events)
    requires
        app.wf(),
    ensures
        app.updated(elapsed, now, events).wf(),
{
    reveal(App::observed);
    reveal(App::acted);
    let a = app.playback_updated(elapsed, now).aged(elapsed).informed(events, now).fetch_started();
    events_keep_the_rest(app, elapsed, now, events);
    let b = a.pause_saved(now).progress_saved(now).save_started(now);
    saving_keeps_the_rest(a, now);
    let c = b.autoplayed(now);
    assert(c.ui == app.ui && c.saves == b.saves && c.playback.wf());
    controls_stay_valid(
        c.ui.controls,
        elapsed,
        c.has_video(),
        c.playback.state() is Playing,
        c.ui.dialog is Some,
    );
}

/// A position that is queued takes the place of the one that waits under its key.
pub proof fn position_queued_keeps_distinct_keys(app: App, force: bool)
    requires
        saves::distinct_keys(app.saves.queue),
    ensures
        saves::distinct_keys(app.position_queued(force).saves.queue),
{
    match app.sessions.last_safe {
        Some(session) => {
            saves::queue_keeps_distinct_keys(
                app.saves,
                app.user_id,
                app.device_id,
                session,
                force,
                false,
                false,
                Instant { nanos: 0 },
            );
        },
        None => {},
    }
}

/// How many positions are still to be sent.
pub open spec fn unsent(saves: Saves) -> nat {
    saves.queue.len() + (if saves.pending is Some { 1nat } else { 0 })
}

/// The end of the application comes: each time a position under way has come to its end,
/// one fewer is to be sent.
pub proof fn shutdown_comes_to_an_end(app: App, now: Instant, later: Instant, deadline: Instant, sent: bool)
    requires
        app.shutdown_stepped(now, deadline).0 is Wait,
    ensures
        unsent(app.shutdown_stepped(now, deadline).1.saves) == unsent(app.saves),
        unsent(
            app.shutdown_stepped(now, deadline).1.save_completed(sent, false, later).saves,
        ) == unsent(app.saves) - 1,
{
}

/// The application waits for nothing once nothing is left to be sent, and never beyond the
/// deadline.
pub proof fn shutdown_does_not_wait_in_vain(app: App, now: Instant, deadline: Instant)
    ensures
        unsent(app.saves) == 0 ==> app.shutdown_stepped(now, deadline) == (ShutdownStep::Done, app),
        now.nanos >= deadline.nanos ==> app.shutdown_stepped(now, deadline).0 is Done,
        app.shutdown_stepped(now, deadline).0 matches ShutdownStep::Wait(span) ==> now.nanos
            + span.nanos == deadline.nanos,
{
}

} // verus!
