//! What the application promises to whoever uses it, said of what goes in and what comes out.

use crate::app::saves::{SaveRequest, Saves};
use crate::app::sessions::Write;
use crate::app::state::{App, Metadata, Request};
use crate::app::ui;
use crate::app::update::{Events, ShutdownStep};
use crate::model::AppCommand;
use crate::playback::backend::{OxideView, Player};
use crate::playback::seek::Sought;
use crate::session::Session;
use crate::settings::SettingsView;
use crate::time::{Duration, Instant};
use crate::video::{Video, VideoPlatform, VideoSource};
use vstd::prelude::*;

verus! {

/// Whether a seek is under way only while that is what playback is doing.
pub open spec fn seeks_show(player: Player) -> bool {
    match player {
        Player::Absent => true,
        Player::Dummy(player) => player.transport.pending_seek is Some
            <==> player.transport.state is Seeking,
        Player::Oxide(player) => player.engine.core.seek_pending is Some
            <==> player.engine.core.state is Seeking,
    }
}

/// Whether two players differ at most in where they stand and whether they play.
pub open spec fn same_choices(a: Player, b: Player) -> bool {
    match (a, b) {
        (Player::Absent, Player::Absent) => true,
        (Player::Dummy(a), Player::Dummy(b)) => a.source == b.source && a.rates == b.rates
            && a.qualities == b.qualities && a.transport.rate == b.transport.rate
            && a.transport.quality_index == b.transport.quality_index && a.transport.duration
            == b.transport.duration,
        (Player::Oxide(a), Player::Oxide(b)) => a.source == b.source && a.rates == b.rates
            && a.qualities == b.qualities && a.quality_urls == b.quality_urls && a.rate == b.rate
            && a.quality_index == b.quality_index && a.volume == b.volume && a.muted == b.muted
            && a.master_url == b.master_url && a.decode_mode == b.decode_mode,
        _ => false,
    }
}

/// A seek by a number of seconds is a seek to the position that shows and so many seconds
/// further on, or back, but not before the beginning.
pub proof fn relative_seeks_move_by_seconds(
    app: App,
    offset: i64,
    target: Duration,
    now: Instant,
    after: Player,
)
    requires
        app.plays_on(AppCommand::SeekRelative(offset), now, after),
        ({
            let to = app.playback.position(now).nanos + offset * 1_000_000_000;
            &&& to < 18_446_744_073_709_551_616_000_000_000
            &&& target.nanos == if to < 0 {
                0
            } else {
                to
            }
        }),
    ensures
        app.plays_on(AppCommand::SeekAbsolute(target), now, after),
        app.carried_out(AppCommand::SeekRelative(offset), now, after) == app.carried_out(
            AppCommand::SeekAbsolute(target),
            now,
            after,
        ),
{
}

/// A seek goes where it is asked to: without a decoder to the position, or to the end if
/// that comes before it; with one, what the decoder is to be handed is kept for it.
/// Everything that was chosen stays.
pub proof fn seeks_reach_the_player(app: App, target: Duration, now: Instant, after: Player)
    requires
        !app.ui.controls.locked,
        app.plays_on(AppCommand::SeekAbsolute(target), now, after),
    ensures
        same_choices(app.playback, after),
        app.carried_out(AppCommand::SeekAbsolute(target), now, after) == (App {
            playback: after,
            ..app
        }),
        app.playback matches Player::Dummy(player) ==> player.source is Some ==> {
            &&& after.state() is Seeking
            &&& target.nanos <= player.transport.duration.nanos ==> after.position(now) == target
            &&& target.nanos > player.transport.duration.nanos ==> after.position(now)
                == player.transport.duration
            &&& player.transport.state is Playing ==> after.wants_to_play()
        },
        app.playback matches Player::Oxide(player) ==> match player.engine.sought(target, now) {
            Sought::Now(request, engine) => after matches Player::Oxide(there) && there.engine
                == engine && (request is Some ==> there.request == request) && (request is None
                ==> there.request == player.request),
            Sought::Failed(_, _) => after.state() is Error,
        },
{
}

/// Toggling stops what plays and plays what stands still; what loads, seeks or has ended is
/// left as it is.
pub proof fn toggling_stops_and_goes_on(app: App, now: Instant, after: Player)
    requires
        !app.ui.controls.locked,
        app.has_video(),
        seeks_show(app.playback),
        app.plays_on(AppCommand::TogglePlayback, now, after),
    ensures
        app.playback.state() is Playing ==> after.state() is Paused && !after.wants_to_play(),
        app.playback.state() is Paused ==> after.state() is Playing && after.wants_to_play(),
        !(app.playback.state() is Playing) && !(app.playback.state() is Paused) ==> after
            == app.playback && app.carried_out(AppCommand::TogglePlayback, now, after) == app,
        app.playback.state() is Playing ==> app.carried_out(AppCommand::TogglePlayback, now, after)
            == app.carried_out(AppCommand::Pause, now, after),
        app.playback.state() is Paused ==> app.carried_out(AppCommand::TogglePlayback, now, after)
            == app.carried_out(AppCommand::Play, now, after),
        same_choices(app.playback, after),
        app.applied(AppCommand::TogglePlayback, now, after).playback == after,
{
    reveal(App::user_paused);
}

/// Playing plays what stands still, now or once a seek under way is done, and leaves no pause
/// to be saved.
pub proof fn playing_goes_on(app: App, now: Instant, after: Player)
    requires
        !app.ui.controls.locked,
        app.has_video(),
        seeks_show(app.playback),
        app.plays_on(AppCommand::Play, now, after),
    ensures
        app.playback.state() is Paused || app.playback.state() is Playing
            || app.playback.state() is Seeking ==> after.wants_to_play(),
        app.playback.state() is Paused ==> after.state() is Playing,
        app.playback.state() is Ended ==> after == app.playback,
        same_choices(app.playback, after),
        ({
            let done = app.applied(AppCommand::Play, now, after);
            &&& done.playback == after
            &&& done.saves.pause_due is None
            &&& done.saves.queue == app.saves.queue
            &&& done.requests == app.requests
        }),
{
}

/// Pausing stops what plays, now or once a seek under way is done, and half a second later
/// the pause is to be saved.
pub proof fn pausing_stops(app: App, now: Instant, after: Player)
    requires
        !app.ui.controls.locked,
        app.has_video(),
        seeks_show(app.playback),
        app.plays_on(AppCommand::Pause, now, after),
        now.nanos + 500_000_000 <= u128::MAX,
    ensures
        !after.wants_to_play(),
        app.playback.state() is Playing ==> after.state() is Paused,
        app.playback.state() is Ended ==> after == app.playback,
        same_choices(app.playback, after),
        ({
            let done = app.applied(AppCommand::Pause, now, after);
            &&& done.playback == after
            &&& done.saves.pause_due is Some
            &&& done.saves.pause_due.unwrap().nanos == now.nanos + 500_000_000
            &&& done.saves.queue == app.saves.queue
        }),
{
    reveal(App::user_paused);
}

/// Whether a session is of a video where a player shows it.
pub open spec fn is_session_of(session: Session, player: Player, now: Instant) -> bool {
    player.source() matches Some(source) && {
        &&& session.source.id == source@.id
        &&& session.source.platform == source@.platform
        &&& session.source.start_time is None
        &&& session.position == player.position(now)
    }
}

/// Whether playback stands where it can be come back to.
pub open spec fn can_be_come_back_to(player: Player) -> bool {
    player.source() is Some && (player.state() is Playing || player.state() is Paused
        || player.state() is Ended)
}

/// A session that is written down at once says what plays and where it stands, unless that
/// is what was written last.
pub proof fn flushed_sessions_say_what_plays(app: App, now: Instant)
    requires
        app.sessions.store is Some,
        can_be_come_back_to(app.playback),
    ensures
        ({
            let after = app.session_flushed(now);
            &&& after.sessions.last_persisted is Some
            &&& is_session_of(after.sessions.last_persisted.unwrap(), app.playback, now)
            &&& after.sessions.last_safe == after.sessions.last_persisted
            &&& after.requests == if app.sessions.last_persisted
                == after.sessions.last_persisted {
                app.requests
            } else {
                app.requests.push(
                    Request::WriteSession(
                        Write {
                            session: after.sessions.last_persisted.unwrap(),
                            previous: app.sessions.last_persisted,
                        },
                    ),
                )
            }
            &&& after.playback == app.playback
            &&& after.saves == app.saves
        }),
{
}

/// Pausing writes the session down at once.
pub proof fn pauses_are_written_down(app: App, now: Instant, after: Player)
    requires
        app.sessions.store is Some,
        can_be_come_back_to(after),
    ensures
        ({
            let done = app.carried_out(AppCommand::Pause, now, after);
            &&& done.sessions.last_persisted is Some
            &&& is_session_of(done.sessions.last_persisted.unwrap(), after, now)
        }),
{
    reveal(App::user_paused);
}

/// The volume is what was asked for, up to twice the usual.
pub proof fn volume_is_what_was_asked_for(app: App, volume: u32, now: Instant, after: Player)
    requires
        !app.ui.controls.locked,
        app.plays_on(AppCommand::SetVolume(volume), now, after),
    ensures
        app.playback matches Player::Oxide(player) ==> after == Player::Oxide(
            OxideView {
                volume: if volume <= 200 {
                    volume
                } else {
                    200
                },
                ..player
            },
        ),
        !(app.playback is Oxide) ==> after == app.playback,
        app.applied(AppCommand::SetVolume(volume), now, after).playback == after,
{
}

/// The rate is what was asked for if it is one of those there are, and stays if it is not.
pub proof fn rate_is_what_was_asked_for(app: App, rate: u32, now: Instant, after: Player)
    requires
        !app.ui.controls.locked,
        app.plays_on(AppCommand::SetPlaybackRate(rate), now, after),
    ensures
        app.playback.rates().contains(rate) ==> after.rate() == rate,
        !app.playback.rates().contains(rate) ==> after == app.playback,
        after.position(now) == app.playback.position(now),
        after.state() == app.playback.state(),
        after.source() == app.playback.source(),
        after.quality() == app.playback.quality(),
        after.rates() == app.playback.rates(),
        app.applied(AppCommand::SetPlaybackRate(rate), now, after).playback == after,
{
}

proof fn quality_is_found(qualities: Seq<crate::model::Quality>, id: Seq<char>)
    ensures
        match crate::playback::dummy::quality_with_id(qualities, id, 0) {
            Some(index) => 0 <= index < qualities.len() && qualities[index].id@ == id,
            None => forall|k: int| 0 <= k < qualities.len() ==> (#[trigger] qualities[k]).id@ != id,
        },
{
    crate::playback::dummy::qualities_are_found_by_their_identifier(qualities, id, 0);
}

/// The quality is what was asked for if there is one of that name, and stays if there is
/// not. Either way it counts as chosen.
pub proof fn quality_is_what_was_asked_for(
    app: App,
    quality: String,
    k: int,
    now: Instant,
    after: Player,
)
    requires
        !app.ui.controls.locked,
        app.has_video(),
        app.playback.qualities().len() <= usize::MAX,
        app.plays_on(AppCommand::SetQuality(quality), now, after),
    ensures
        0 <= k < app.playback.qualities().len() && app.playback.qualities()[k].id@ == quality@
            ==> after.quality() is Some && after.quality().unwrap().id@ == quality@,
        (forall|j: int|
            0 <= j < app.playback.qualities().len() ==> (#[trigger] app.playback.qualities()[j]).id@
                != quality@) ==> after == app.playback,
        after.position(now) == app.playback.position(now),
        after.state() == app.playback.state(),
        after.rate() == app.playback.rate(),
        app.applied(AppCommand::SetQuality(quality), now, after).manually_selected_quality,
        app.applied(AppCommand::SetQuality(quality), now, after).playback == after,
{
    quality_is_found(app.playback.qualities(), quality@);
}

/// New favourites are kept and written down, and a quality that the user chose stays.
pub proof fn favourites_are_written_down(app: App, qualities: String, now: Instant, after: Player)
    requires
        !app.ui.controls.locked,
        app.plays_on(AppCommand::SetFavouriteQualities(qualities), now, after),
    ensures
        app.manually_selected_quality ==> after == app.playback,
        after.position(now) == app.playback.position(now),
        ({
            let done = app.applied(AppCommand::SetFavouriteQualities(qualities), now, after);
            &&& done.favourite_qualities == qualities@
            &&& done.manually_selected_quality == app.manually_selected_quality
            &&& done.user_id == app.user_id
            &&& done.device_id == app.device_id
            &&& app.settings_path is None ==> done.requests == app.requests
            &&& app.settings_path is Some ==> done.requests == app.requests.push(
                Request::WriteSettings(
                    SettingsView {
                        user_id: app.user_id,
                        device_id: app.device_id,
                        favourite_qualities: qualities@,
                    },
                ),
            )
        }),
{
}

/// Who signs in is written down, and their positions are asked for and can be sent at once.
pub proof fn accounts_are_written_down(
    app: App,
    user_id: Seq<char>,
    device_id: Seq<char>,
    now: Instant,
)
    ensures
        ({
            let done = app.signed_in_as(user_id, device_id, now);
            &&& app.settings_path is None ==> done.requests == app.requests
            &&& app.settings_path is Some ==> done.requests == app.requests.push(
                Request::WriteSettings(
                    SettingsView {
                        user_id: Some(user_id),
                        device_id: Some(device_id),
                        favourite_qualities: app.favourite_qualities,
                    },
                ),
            )
            &&& done.saves.next_allowed == now
            &&& done.saves.pause_due is None
            &&& done.playback == app.playback
            &&& done.sessions == app.sessions
        }),
        ({
            let done = app.signed_out();
            &&& app.settings_path is None ==> done.requests == app.requests
            &&& app.settings_path is Some ==> done.requests == app.requests.push(
                Request::WriteSettings(
                    SettingsView {
                        user_id: None,
                        device_id: None,
                        favourite_qualities: app.favourite_qualities,
                    },
                ),
            )
            &&& done.playback == app.playback
            &&& done.sessions == app.sessions
        }),
{
    reveal(App::signed_in_as);
    reveal(App::signed_out);
}

/// A recording that is asked for is looked for outside, under a number of its own, with the
/// favourites and the way of decoding in use. Until it is there nothing plays and a dialog
/// says that it is looked for.
#[verifier::rlimit(40)]
pub proof fn recordings_are_looked_for(app: App, source: VideoSource, now: Instant, after: Player)
    requires
        !app.ui.controls.locked,
        source.platform == VideoPlatform::Twitch,
        app.plays_on(AppCommand::OpenVideo(source), now, after),
    ensures
        ({
            let done = app.applied(AppCommand::OpenVideo(source), now, after);
            &&& done.pending_video_open is Some
            &&& done.pending_video_open != Some(app.opens)
            &&& done.opens == done.pending_video_open.unwrap()
            &&& done.requests.len() > 0
            &&& done.requests.last() == (Request::OpenVideo {
                generation: done.pending_video_open.unwrap(),
                source: source@,
                initial_qualities: app.favourite_qualities,
                decode_mode: app.decode_mode,
                muted: app.muted,
            })
            &&& done.ui.dialog == Some(ui::Dialog::TwitchResolving { video_id: source@.id })
            &&& !done.ui.controls.menu_open
            &&& done.metadata is None
            &&& done.playback.source() is None
            &&& done.play_when_opened == app.play_when_opened
        }),
{
    reveal(App::video_asked);
    let session = app.session_flushed(now);
    assert(session.opens == app.opens && session.favourite_qualities == app.favourite_qualities
        && session.decode_mode == app.decode_mode && session.muted == app.muted
        && session.play_when_opened == app.play_when_opened && session.ui == app.ui);
    let saved = session.save_forced(now);
    assert(saved.opens == app.opens && saved.favourite_qualities == app.favourite_qualities
        && saved.decode_mode == app.decode_mode && saved.muted == app.muted
        && saved.play_when_opened == app.play_when_opened && saved.ui == app.ui);
    assert(app.applied(AppCommand::OpenVideo(source), now, after) == saved.opening(source@, after));
}

/// A video elsewhere is not opened: a message says so, and what plays goes on.
pub proof fn videos_elsewhere_are_not_opened(
    app: App,
    source: VideoSource,
    now: Instant,
    after: Player,
)
    requires
        !app.ui.controls.locked,
        source.platform == VideoPlatform::YouTube,
        app.plays_on(AppCommand::OpenVideo(source), now, after),
    ensures
        ({
            let done = app.applied(AppCommand::OpenVideo(source), now, after);
            &&& done.playback == app.playback
            &&& done.metadata == app.metadata
            &&& done.pending_video_open is None
            &&& done.opens == app.opens
            &&& done.ui.dialog matches Some(ui::Dialog::Message { title, message }) && title
                == "YouTube is not supported yet"@
        }),
{
    reveal(App::video_asked);
}

/// A save that is forced is on its way at once, with what plays and, in whole seconds,
/// where it stands, rounded to the nearest, as far as nothing was sent or waits.
pub proof fn forced_saves_are_on_their_way(
    app: App,
    user_id: Seq<char>,
    device_id: Seq<char>,
    now: Instant,
)
    requires
        can_be_come_back_to(app.playback),
        app.user_id == Some(user_id),
        app.device_id == Some(device_id),
        500_000_000 <= app.playback.position(now).nanos
            < 18_446_744_073_709_551_615_000_000_000,
        app.saves.pending is None,
        app.saves.queue.len() == 0,
        app.saves.last_uploaded is None,
        app.saves.next_allowed.nanos <= now.nanos,
    ensures
        ({
            let done = app.save_forced(now);
            let position = app.playback.position(now).nanos;
            &&& done.saves.pending is Some
            &&& done.saves.pending.unwrap().user_id == user_id
            &&& done.saves.pending.unwrap().device_id == device_id
            &&& done.saves.pending.unwrap().source.id == app.playback.source().unwrap()@.id
            &&& done.saves.pending.unwrap().position.nanos % 1_000_000_000 == 0
            &&& done.saves.pending.unwrap().position.nanos <= position + 500_000_000
                < done.saves.pending.unwrap().position.nanos + 1_000_000_000
            &&& done.saves.pause_due is None
            &&& done.requests == app.requests.push(
                Request::SavePosition(done.saves.pending.unwrap()),
            )
        }),
{
    let noted = app.pause_cancelled().safe_refreshed(now);
    let safe = noted.sessions.last_safe.unwrap();
    let request = SaveRequest {
        user_id,
        device_id,
        source: Video { start_time: None, ..safe.source },
        position: crate::app::saves::whole_seconds(safe.position),
    };
    assert(safe.position == app.playback.position(now));
    assert(noted.saves.latest(user_id, device_id, request.source.id) is None);
    assert(noted.saves.wants(request, true));
    assert(noted.position_queued(true).saves.queue =~= seq![request]);
}

/// Before another video is opened, the session is written down and the position is on its
/// way, as far as nothing keeps it.
pub proof fn places_are_kept_when_another_video_is_opened(
    app: App,
    user_id: Seq<char>,
    device_id: Seq<char>,
    source: Video,
    now: Instant,
    after: Player,
)
    requires
        app.sessions.store is Some,
        can_be_come_back_to(app.playback),
        app.user_id == Some(user_id),
        app.device_id == Some(device_id),
        500_000_000 <= app.playback.position(now).nanos
            < 18_446_744_073_709_551_615_000_000_000,
        app.saves.pending is None,
        app.saves.queue.len() == 0,
        app.saves.last_uploaded is None,
        app.saves.next_allowed.nanos <= now.nanos,
    ensures
        ({
            let done = app.video_asked(source, now, after);
            &&& done.sessions.last_persisted is Some
            &&& is_session_of(done.sessions.last_persisted.unwrap(), app.playback, now)
            &&& done.saves.pending matches Some(request) && request.user_id == user_id
                && request.device_id == device_id && request.source.id
                == app.playback.source().unwrap()@.id && request.position.nanos
                <= app.playback.position(now).nanos + 500_000_000 < request.position.nanos
                + 1_000_000_000
            &&& done.requests.contains(Request::SavePosition(done.saves.pending.unwrap()))
        }),
{
    reveal(App::video_asked);
    let session = app.session_flushed(now);
    flushed_sessions_say_what_plays(app, now);
    forced_saves_are_on_their_way(session, user_id, device_id, now);
    let saved = session.save_forced(now);
    let done = app.video_asked(source, now, after);
    assert(done.sessions == saved.sessions);
    assert(done.saves == saved.saves);
    assert(done.requests[saved.requests.len() - 1] == saved.requests.last());
}

/// A video that was looked for and is there starts where its link says, if that is not the
/// beginning, and otherwise plays if it was to be played. No quality counts as chosen, and
/// the dialog is gone.
pub proof fn opened_videos_start_where_their_link_says(
    app: App,
    player: Player,
    metadata: Option<Metadata>,
    source: VideoSource,
    now: Instant,
    after: Player,
)
    requires
        player.source() == Some(source),
        app.starts_with(player, now, after),
    ensures
        source.start_time is Some && source.start_time.unwrap().nanos > 0
            ==> player.becomes_by_seek(source.start_time.unwrap(), now, after),
        source.start_time is None || source.start_time.unwrap().nanos == 0 ==> after == (
        if app.play_when_opened {
            player.played(now)
        } else {
            player
        }),
        ({
            let done = app.opened(player, metadata, now, after);
            &&& done.playback == after
            &&& done.metadata == metadata
            &&& done.pending_video_open is None
            &&& !done.manually_selected_quality
            &&& done.ui.dialog is None
            &&& done.ui.controls.visible
            &&& done.saves == app.saves
            &&& source.start_time is Some && source.start_time.unwrap().nanos > 0
                ==> done.play_when_opened == app.play_when_opened
            &&& source.start_time is None ==> !done.play_when_opened
        }),
{
    reveal(App::opened);
}

/// A video that could not be opened leaves a message that says why, and nothing waits to be
/// played.
pub proof fn failures_to_open_are_told(app: App, message: Seq<char>)
    ensures
        ({
            let done = app.not_opened(message);
            &&& done.ui.dialog == Some(
                ui::Dialog::Message { title: "Unable to open Twitch video"@, message },
            )
            &&& done.pending_video_open is None
            &&& !done.play_when_opened
            &&& done.ui.controls.visible
            &&& done.playback == app.playback
        }),
{
}

/// A video that was to be played when it is there is played as soon as it stands ready, and
/// only once.
pub proof fn waiting_videos_are_played_once(app: App, now: Instant, later: Instant)
    requires
        app.play_when_opened,
        app.pending_video_open is None,
        app.has_video(),
        seeks_show(app.playback),
    ensures
        ({
            let done = app.autoplayed(now);
            &&& app.playback.state() is Paused ==> done.playback.state() is Playing
                && !done.play_when_opened && done.autoplayed(later) == done
            &&& app.playback.state() is Ended || app.playback.state() is Error ==> done.playback
                == app.playback && !done.play_when_opened
            &&& app.playback.state() is Loading || app.playback.state() is Seeking
                || app.playback.state() is Buffering || app.playback.state() is Playing ==> done
                == app
        }),
{
}

/// Nothing plays by itself that was not to be played, or while another video is looked for.
pub proof fn other_videos_do_not_play_by_themselves(app: App, now: Instant)
    requires
        !app.play_when_opened || app.pending_video_open is Some || !app.has_video(),
    ensures
        app.autoplayed(now) == app,
{
}

/// An interruption stops what plays and what would play, and writes down where it stands.
/// What stands still is left as it is.
pub proof fn interruptions_stop_playback(app: App, now: Instant)
    requires
        app.has_video(),
        seeks_show(app.playback),
    ensures
        ({
            let done = app.interrupted(now);
            &&& !done.playback.wants_to_play()
            &&& app.playback.state() is Playing ==> done.playback.state() is Paused
            &&& !app.playback.wants_to_play() ==> done == app
            &&& app.playback.state() is Playing && app.sessions.store is Some
                ==> done.sessions.last_persisted is Some && is_session_of(
                done.sessions.last_persisted.unwrap(),
                done.playback,
                now,
            )
            &&& same_choices(app.playback, done.playback)
        }),
        ({
            let done = app.uninterrupted(now);
            &&& app.playback.state() is Paused ==> done.playback.state() is Playing
            &&& !(app.playback.state() is Paused) ==> done == app
            &&& done.requests == app.requests
            &&& done.saves == app.saves
        }),
{
    reveal(App::interrupted);
}

/// Out of sight nothing plays, and where it stands is written down and on its way.
pub proof fn nothing_plays_out_of_sight(
    app: App,
    user_id: Seq<char>,
    device_id: Seq<char>,
    now: Instant,
)
    requires
        app.has_video(),
        seeks_show(app.playback),
    ensures
        ({
            let done = app.backgrounded(now);
            &&& !done.playback.wants_to_play()
            &&& done.saves.pause_due is None
            &&& done.playback == app.interrupted(now).playback
            &&& can_be_come_back_to(done.playback) && app.sessions.store is Some
                ==> done.sessions.last_persisted is Some && is_session_of(
                done.sessions.last_persisted.unwrap(),
                done.playback,
                now,
            )
        }),
        ({
            let done = app.backgrounded(now);
            can_be_come_back_to(done.playback) && app.user_id == Some(user_id) && app.device_id
                == Some(device_id) && 500_000_000 <= done.playback.position(now).nanos
                < 18_446_744_073_709_551_615_000_000_000 && app.saves.pending is None
                && app.saves.queue.len() == 0 && app.saves.last_uploaded is None
                && app.saves.next_allowed.nanos <= now.nanos ==> (done.saves.pending matches Some(
                request,
            ) && request.user_id == user_id && request.device_id == device_id
                && request.source.id == app.playback.source().unwrap()@.id
                && request.position.nanos <= done.playback.position(now).nanos + 500_000_000
                < request.position.nanos + 1_000_000_000)
        }),
{
    interruptions_stop_playback(app, now);
    reveal(App::interrupted);
    reveal(App::backgrounded);
    let session = app.interrupted(now).session_flushed(now);
    let done = app.backgrounded(now);
    if can_be_come_back_to(done.playback) && app.user_id == Some(user_id) && app.device_id == Some(
        device_id,
    ) && 500_000_000 <= done.playback.position(now).nanos
        < 18_446_744_073_709_551_615_000_000_000 && app.saves.pending is None
        && app.saves.queue.len() == 0 && app.saves.last_uploaded is None
        && app.saves.next_allowed.nanos <= now.nanos {
        forced_saves_are_on_their_way(session, user_id, device_id, now);
    }
}

/// A pause that has lasted is saved, however little it differs from what was sent; before
/// that it is not.
pub proof fn lasting_pauses_are_saved(app: App, due: Instant, now: Instant)
    requires
        app.saves.pause_due == Some(due),
    ensures
        now.nanos < due.nanos ==> app.pause_saved(now) == app,
        now.nanos >= due.nanos ==> {
            let done = app.pause_saved(now);
            let noted = app.sessions.refreshed(
                can_be_come_back_to(app.playback),
                app.playback.source(),
                app.playback.position(now),
            );
            &&& done.saves.pause_due is None
            &&& done.sessions == noted
            &&& noted.last_safe is Some ==> done.saves == (Saves {
                pause_due: None,
                ..app.saves
            }).queued(app.user_id, app.device_id, noted.last_safe.unwrap(), true)
            &&& noted.last_safe is None ==> done.saves.queue == app.saves.queue
        },
        (App { saves: Saves { pause_due: None, ..app.saves }, ..app }).pause_saved(now) == (App {
            saves: Saves { pause_due: None, ..app.saves },
            ..app
        }),
{
}

/// The position of playback that is settled is saved once it has got far enough; that of
/// playback that loads, seeks or buffers is not.
pub proof fn progress_of_settled_playback_is_saved(app: App, now: Instant)
    requires
        app.has_video(),
    ensures
        !can_be_come_back_to(app.playback) ==> app.progress_saved(now) == app,
        can_be_come_back_to(app.playback) ==> {
            let done = app.progress_saved(now);
            &&& done.sessions.last_safe is Some
            &&& is_session_of(done.sessions.last_safe.unwrap(), app.playback, now)
            &&& done.saves == app.saves.queued(
                app.user_id,
                app.device_id,
                done.sessions.last_safe.unwrap(),
                false,
            )
        },
{
}

/// A seek that lands is written down at once.
pub proof fn landed_seeks_are_written_down(app: App, elapsed: Duration, now: Instant)
    requires
        app.sessions.store is Some,
        app.playback.state() is Seeking,
        can_be_come_back_to(app.playback.updated(elapsed, now)),
    ensures
        ({
            let done = app.playback_updated(elapsed, now);
            &&& done.playback == app.playback.updated(elapsed, now)
            &&& done.sessions.last_persisted is Some
            &&& is_session_of(done.sessions.last_persisted.unwrap(), done.playback, now)
        }),
{
}

/// A position that was sent shows among those that are known if it is of who is signed in
/// on this device; one that was not sent, or is of another account, does not.
pub proof fn sent_positions_show(
    app: App,
    request: SaveRequest,
    sent: bool,
    requeue_failure: bool,
    now: Instant,
)
    requires
        app.saves.pending == Some(request),
    ensures
        ({
            let done = app.save_completed(sent, requeue_failure, now);
            &&& sent && app.user_id == Some(request.user_id) && app.device_id == Some(
                request.device_id,
            ) ==> done.cache.positions.len() > 0 && done.cache.positions[0].source
                == request.source && done.cache.positions[0].device_id == request.device_id
                && done.cache.positions[0].position == request.position
            &&& !sent || app.user_id != Some(request.user_id) || app.device_id != Some(
                request.device_id,
            ) ==> done.cache == app.cache
            &&& done.saves == app.saves.completed(sent, requeue_failure, now)
            &&& done.playback == app.playback
        }),
{
}

/// Positions that were asked for are fetched for who is signed in.
pub proof fn positions_are_fetched_for_the_user(app: App, user_id: Seq<char>)
    requires
        app.user_id == Some(user_id),
        app.cache.refresh_requested,
        app.cache.pending_fetch is None,
    ensures
        app.fetch_started().requests == app.requests.push(Request::FetchPositions(user_id)),
        app.fetch_started().cache.pending_fetch == Some(user_id),
        app.fetch_started().fetch_started() == app.fetch_started(),
{
}

/// What came of requests is taken in: positions that were fetched show, and one that was
/// sent is no longer under way. One that could not be sent waits again.
pub proof fn outcomes_are_taken_in(
    app: App,
    events: Events,
    user_id: Seq<char>,
    fetched: Seq<crate::services::Saved>,
    now: Instant,
)
    requires
        app.user_id == Some(user_id),
        app.cache.pending_fetch == Some(user_id),
        events.positions == Some(Ok::<Seq<crate::services::Saved>, Seq<char>>(fetched)),
    ensures
        events.saved is None ==> app.informed(events, now).cache.positions == fetched
            && app.informed(events, now).saves == app.saves,
        events.saved is Some ==> app.informed(events, now).saves == app.saves.completed(
            events.saved.unwrap() is Ok,
            true,
            now,
        ),
{
}

/// A recording grows older by the time that passes.
pub proof fn recordings_grow_older(app: App, metadata: Metadata, elapsed: Duration)
    requires
        app.metadata == Some(metadata),
        metadata.release_age.nanos + elapsed.nanos < 18_446_744_073_709_551_616_000_000_000,
    ensures
        app.aged(elapsed).metadata matches Some(after) && after.release_age.nanos
            == metadata.release_age.nanos + elapsed.nanos && after.title == metadata.title,
        app.aged(elapsed).playback == app.playback,
{
}

/// Before the application ends, what waits is sent without a further wait, one after the
/// other, and it is waited for no longer than there is time.
pub proof fn waiting_positions_are_sent_at_the_end(app: App, now: Instant, deadline: Instant)
    requires
        app.saves.pending is None,
        app.saves.queue.len() > 0,
        now.nanos < deadline.nanos,
    ensures
        ({
            let (step, done) = app.shutdown_stepped(now, deadline);
            &&& step is Wait
            &&& step matches ShutdownStep::Wait(span) ==> span.nanos == deadline.nanos - now.nanos
            &&& done.saves.pending == Some(app.saves.queue[0])
            &&& done.requests == app.requests.push(Request::SavePosition(app.saves.queue[0]))
            &&& done.saves.queue == app.saves.queue.skip(1)
        }),
{
}

/// Turning the debug information on and off again leaves everything as it was.
pub proof fn debug_information_is_turned_on_and_off(app: App, now: Instant)
    ensures
        ({
            let once = app.carried_out(AppCommand::ToggleDebugInfo, now, app.playback);
            &&& once.ui.debug_info == !app.ui.debug_info
            &&& once.carried_out(AppCommand::ToggleDebugInfo, now, app.playback) == app
        }),
{
}

/// Controls that were hidden come up again, and those that show are hidden with the menu.
pub proof fn controls_are_shown_and_hidden(app: App, now: Instant)
    ensures
        ({
            let once = app.applied(AppCommand::ToggleControlsVisibility, now, app.playback);
            &&& once.ui.controls.visible == !app.ui.controls.visible
            &&& app.ui.controls.visible ==> !once.ui.controls.menu_open
            &&& once.ui.controls.locked == app.ui.controls.locked
            &&& once.playback == app.playback
        }),
{
}

/// Every command but the one that shows and hides the controls brings them up while a video
/// is there.
pub proof fn commands_bring_the_controls_up(
    app: App,
    command: AppCommand,
    now: Instant,
    after: Player,
)
    requires
        !app.ui.controls.locked,
        !(command is ToggleControlsVisibility),
        app.carried_out(command, now, after).playback.source() is Some,
    ensures
        app.applied(command, now, after).ui.controls.visible,
        app.applied(command, now, after).ui.controls.idle.nanos == 0,
{
}

/// An update lets time pass for the video and for what is known, takes in what came of
/// requests, and asks for positions; then it saves what is due, sends what waits, plays what
/// was to be played, and lets the controls hide.
pub proof fn updates_do_their_work_in_turn(
    app: App,
    elapsed: Duration,
    now: Instant,
    events: Events,
)
    ensures
        ({
            let passed = app.playback_updated(elapsed, now).aged(elapsed);
            let known = passed.informed(events, now).fetch_started();
            let saved = known.pause_saved(now).progress_saved(now).save_started(now);
            app.updated(elapsed, now, events) == saved.autoplayed(now).controls_updated(elapsed)
        }),
{
    reveal(App::observed);
    reveal(App::acted);
}

/// Settings that were found say who is signed in, and their positions are then asked for;
/// what cannot be read changes nothing.
pub proof fn found_settings_sign_in(
    app: App,
    path: Seq<char>,
    read: Result<Option<Seq<char>>, Seq<char>>,
    found: SettingsView,
)
    ensures
        crate::settings::stored_settings(path, read) == Ok::<SettingsView, Seq<char>>(found) ==> {
            let after = app.with_settings(path, read);
            &&& after.user_id == found.user_id
            &&& after.device_id == found.device_id
            &&& after.favourite_qualities == found.favourite_qualities
            &&& after.settings_path == Some(path)
            &&& found.user_id is None ==> !after.cache.refresh_requested
            &&& found.user_id is Some && found.user_id.unwrap().len() > 0
                ==> after.cache.refresh_requested
            &&& after.playback == app.playback
        },
        crate::settings::stored_settings(path, read) is Err ==> app.with_settings(path, read)
            == (App { settings_path: Some(path), ..app }),
{
}

/// A session that was found is what the next start comes back to, and counts as written.
pub proof fn found_session_is_come_back_to(
    app: App,
    path: Seq<char>,
    read: Result<Option<Seq<char>>, Seq<char>>,
    found: Session,
)
    ensures
        crate::session::stored_session(path, read) == Ok::<Option<Session>, Seq<char>>(Some(found))
            ==> app.with_session(path, read).sessions.startup == Some(found) && app.with_session(
            path,
            read,
        ).sessions.last_persisted == Some(found),
        app.with_session(path, read).sessions.store == Some(path),
        crate::session::stored_session(path, read) is Err ==> app.with_session(
            path,
            read,
        ).sessions.startup == app.sessions.startup,
{
}

/// A save that is forced sends even a second's difference from what was sent last, and nothing
/// where there is none.
pub proof fn forced_saves_send_small_changes(
    app: App,
    sent: SaveRequest,
    user_id: Seq<char>,
    device_id: Seq<char>,
    seconds: nat,
    now: Instant,
)
    requires
        can_be_come_back_to(app.playback),
        app.user_id == Some(user_id),
        app.device_id == Some(device_id),
        0 < seconds < u64::MAX,
        seconds * 1_000_000_000 <= app.playback.position(now).nanos + 500_000_000 < (seconds + 1)
            * 1_000_000_000,
        app.saves.pending is None,
        app.saves.queue.len() == 0,
        app.saves.last_uploaded == Some(sent),
        sent.user_id == user_id,
        sent.device_id == device_id,
        sent.source.id == app.playback.source().unwrap()@.id,
        app.saves.next_allowed.nanos <= now.nanos,
    ensures
        sent.position.nanos != seconds * 1_000_000_000 ==> (
        app.save_forced(now).saves.pending matches Some(request) && request.user_id == user_id
            && request.device_id == device_id && request.source.id == sent.source.id
            && request.position.nanos == seconds * 1_000_000_000),
        sent.position.nanos == seconds * 1_000_000_000 ==> app.save_forced(now).requests
            == app.requests && app.save_forced(now).saves.pending is None,
{
    let noted = app.pause_cancelled().safe_refreshed(now);
    let safe = noted.sessions.last_safe.unwrap();
    let request = SaveRequest {
        user_id,
        device_id,
        source: Video { start_time: None, ..safe.source },
        position: crate::app::saves::whole_seconds(safe.position),
    };
    assert((safe.position.nanos + 500_000_000) / 1_000_000_000 == seconds);
    assert(request.position.nanos == seconds * 1_000_000_000);
    assert(noted.saves.latest(user_id, device_id, request.source.id) == Some(sent.position));
    if sent.position.nanos != seconds * 1_000_000_000 {
        assert(noted.saves.wants(request, true));
        assert(noted.position_queued(true).saves.queue =~= seq![request]);
    } else {
        assert(!noted.saves.wants(request, true));
    }
}

} // verus!
