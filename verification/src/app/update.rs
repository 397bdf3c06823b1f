//! What time, the outside world and the end of the application make of its state.

use crate::app::laws;
use crate::app::positions::PositionCache;
use crate::app::saves::{PositionSaver, Saves};
use crate::app::sessions::{Kept, SessionKeeper, SessionWrite};
use crate::app::state::{
    AccountState, App, AppRequest, AppState, Metadata, OpenedVideo, Preferences, Request,
};
use crate::app::state;
use crate::app::ui;
use crate::app::ui::{DialogState, Overlay, UiState};
use crate::model::PlaybackState;
use crate::persistence;
use crate::playback::backend::{PlaybackBackend, Player};
use crate::playback::decode_mode::DecodeMode;
use crate::playback::dummy::DummyPlayback;
use crate::playback::wake::{PendingPlaybackWakes, PlaybackWake};
use crate::services;
use crate::services::remote;
use crate::services::remote::age_since;
use crate::services::{Saved, SavedPosition, VideoMetadata};
use crate::session;
use crate::session::{Session, SessionStore};
use crate::settings;
use crate::settings::{SettingsStore, SettingsView};
use crate::time::{Duration, Instant};
use crate::video::{Video, VideoSource};
use vstd::prelude::*;
use vstd::string::*;

verus! {

/// What came of requests since the last update.
pub struct UpdateEvents {
    pub positions: Option<Result<Vec<SavedPosition>, String>>,
    pub saved: Option<Result<(), String>>,
}

/// What came of requests, as values.
pub struct Events {
    pub positions: Option<Result<Seq<Saved>, Seq<char>>>,
    pub saved: Option<Result<(), Seq<char>>>,
}

impl View for UpdateEvents {
    type V = Events;

    open spec fn view(&self) -> Events {
        Events {
            positions: match self.positions {
                Some(Ok(positions)) => Some(Ok(services::saved_view(positions@))),
                Some(Err(error)) => Some(Err(error@)),
                None => None,
            },
            saved: match self.saved {
                Some(Ok(())) => Some(Ok(())),
                Some(Err(error)) => Some(Err(error@)),
                None => None,
            },
        }
    }
}

/// What is left to be done before the application can end.
#[derive(Clone, Copy, Debug, PartialEq, Eq, Structural)]
pub enum ShutdownStep {
    /// Nothing, or nothing there is time for.
    Done,
    /// Wait for the position under way, but no longer than this.
    Wait(Duration),
}

/// Where a video that was opened is to be started from.
pub open spec fn start_of(player: Player) -> Option<Duration> {
    match player.source() {
        Some(source) => match source.start_time {
            Some(start) => if start.nanos == 0 { None } else { Some(start) },
            None => None,
        },
        None => None,
    }
}

impl App {
    /// The state once a video that was asked for is there. `after` is what plays then.
    #[verifier::opaque]
    pub open spec fn opened(
        self,
        player: Player,
        metadata: Option<Metadata>,
        now: Instant,
        after: Player,
    ) -> Self {
        let loaded = App {
            pending_video_open: None,
            playback: player,
            metadata,
            manually_selected_quality: false,
            ..self
        };
        let started = if start_of(player) is Some {
            App { playback: after, ..loaded }
        } else {
            App { playback: after, play_when_opened: false, ..loaded }.session_flushed(now)
        };
        App { ui: Overlay { dialog: None, ..started.ui }, ..started }.noted()
    }

    /// Whether `after` is what plays once a video that was asked for is there.
    pub open spec fn starts_with(self, player: Player, now: Instant, after: Player) -> bool {
        match start_of(player) {
            Some(start) => player.becomes_by_seek(start, now, after),
            None => after == (if self.play_when_opened { player.played(now) } else { player }),
        }
    }

    /// The state once a video that was asked for turned out not to be there.
    pub open spec fn not_opened(self, message: Seq<char>) -> Self {
        App {
            pending_video_open: None,
            play_when_opened: false,
            ui: Overlay {
                dialog: Some(
                    ui::Dialog::Message { title: "Unable to open Twitch video"@, message },
                ),
                ..self.ui
            },
            ..self
        }.noted()
    }

    /// The state once the position under way has come to its end.
    pub open spec fn save_completed(self, sent: bool, requeue_failure: bool, now: Instant) -> Self {
        let saves = self.saves.completed(sent, requeue_failure, now);
        match self.saves.pending {
            Some(request) => App {
                saves,
                cache: if sent && self.user_id == Some(request.user_id) && self.device_id == Some(
                    request.device_id,
                ) {
                    self.cache.with_saved(request.source, request.device_id, request.position)
                } else {
                    self.cache
                },
                ..self
            },
            None => App { saves, ..self },
        }
    }

    pub open spec fn fetch_started(self) -> Self {
        let (user_id, cache) = self.cache.fetch_begun(self.user_id);
        let begun = App { cache, ..self };
        match user_id {
            Some(user_id) => begun.with_request(Request::FetchPositions(user_id)),
            None => begun,
        }
    }

    /// Puts the position of a pause in the queue once it has lasted.
    pub open spec fn pause_saved(self, now: Instant) -> Self {
        match self.saves.pause_due {
            Some(due) => if now.nanos >= due.nanos {
                self.pause_cancelled().safe_refreshed(now).position_queued(true)
            } else {
                self
            },
            None => self,
        }
    }

    /// Puts the position of settled playback in the queue once it has got far enough.
    pub open spec fn progress_saved(self, now: Instant) -> Self {
        if self.playback.is_settled() {
            self.safe_refreshed(now).position_queued(false)
        } else {
            self
        }
    }

    /// Plays a video that was to be played once it was there and is now ready for it.
    pub open spec fn autoplayed(self, now: Instant) -> Self {
        if !self.play_when_opened || self.pending_video_open is Some || !self.has_video() {
            self
        } else if self.playback.state() is Paused {
            App { playback: self.playback.played(now), play_when_opened: false, ..self }
        } else if self.playback.state() is Ended || self.playback.state() is Error {
            App { play_when_opened: false, ..self }
        } else {
            self
        }
    }

    /// Playback after `elapsed`, and the session with it.
    pub open spec fn playback_updated(self, elapsed: Duration, now: Instant) -> Self {
        let playback = self.playback.updated(elapsed, now);
        let landed = self.playback.state() is Seeking && !(playback.state() is Seeking);
        App { playback, ..self }.safe_refreshed(now).session_persisted(landed, now)
    }

    pub open spec fn aged(self, elapsed: Duration) -> Self {
        App {
            cache: self.cache.aged(elapsed),
            metadata: match self.metadata {
                Some(metadata) => Some(
                    Metadata { release_age: metadata.release_age.plus(elapsed), ..metadata },
                ),
                None => None,
            },
            ..self
        }
    }

    pub open spec fn informed(self, events: Events, now: Instant) -> Self {
        let fetched = match events.positions {
            Some(result) => App { cache: self.cache.fetched(result, self.user_id), ..self },
            None => self,
        };
        match events.saved {
            Some(saved) => fetched.save_completed(saved is Ok, true, now),
            None => fetched,
        }
    }

    pub open spec fn controls_updated(self, elapsed: Duration) -> Self {
        App {
            ui: self.ui.with_controls(
                self.ui.controls.after(
                    elapsed,
                    self.has_video(),
                    self.playback.state() is Playing,
                    self.ui.dialog is Some,
                ),
            ),
            ..self
        }
    }

    /// The state once time has passed and what came of requests is known, with what is to be
    /// fetched.
    #[verifier::opaque]
    pub open spec fn observed(self, elapsed: Duration, now: Instant, events: Events) -> Self {
        self.playback_updated(elapsed, now).aged(elapsed).informed(events, now).fetch_started()
    }

    /// The state once the positions that are due are on their way, and a video that waited to
    /// be played is.
    #[verifier::opaque]
    pub open spec fn acted(self, now: Instant) -> Self {
        self.pause_saved(now).progress_saved(now).save_started(now).autoplayed(now)
    }

    /// The state after `elapsed`, at `now`, with what came of requests.
    pub open spec fn updated(self, elapsed: Duration, now: Instant, events: Events) -> Self {
        self.observed(elapsed, now, events).acted(now).controls_updated(elapsed)
    }

    /// What is left to do before the application can end, and the state with it.
    pub open spec fn shutdown_stepped(self, now: Instant, deadline: Instant) -> (ShutdownStep, Self) {
        let sending = if self.saves.pending is None && self.saves.queue.len() > 0 {
            App { saves: Saves { next_allowed: now, ..self.saves }, ..self }.save_started(now)
        } else {
            self
        };
        if sending.saves.pending is None || now.nanos >= deadline.nanos {
            (ShutdownStep::Done, sending)
        } else {
            (ShutdownStep::Wait(deadline.since(now)), sending)
        }
    }
}

/// What is known of a recording: its age is counted from when it was published.
pub open spec fn recording_age(published_millis: i64, now: Option<Duration>) -> Duration {
    match remote::age_of(Some(published_millis), now) {
        Some(age) => age,
        None => Duration { nanos: 0 },
    }
}

/// What is known of a recording that was published at a point in time.
pub fn video_metadata_from_twitch(title: String, published_millis: i64, now: Option<Duration>) -> (metadata:
    VideoMetadata)
    ensures
        metadata.title == title,
        metadata.release_age == recording_age(published_millis, now),
{
    let release_age = match age_since(Some(published_millis), now) {
        Some(age) => age,
        None => Duration::zero(),
    };
    VideoMetadata { title, release_age }
}

impl AppState {
    /// Nothing is loaded and no one is signed in.
    pub fn new(now: Instant) -> (state: Self)
        ensures
            state.wf(),
            state@.is_initial(DecodeMode::Cpu, now),
    {
        AppState::with_decode_mode(DecodeMode::Cpu, now)
    }

    pub fn with_decode_mode(decode_mode: DecodeMode, now: Instant) -> (state: Self)
        ensures
            state.wf(),
            state@.is_initial(decode_mode, now),
    {
        let state = AppState {
            playback: PlaybackBackend::Dummy(DummyPlayback::new()),
            cache: PositionCache::new(),
            saver: PositionSaver::new(now),
            sessions: SessionKeeper::new(now),
            settings_store: None,
            metadata: None,
            account: AccountState { user_id: None, device_id: None },
            preferences: Preferences {
                favourite_qualities: String::new(),
                manually_selected_quality: false,
            },
            playback_wake: PlaybackWake::noop(),
            decode_mode,
            pending_video_open: None,
            opens: 0,
            play_when_opened: false,
            muted: false,
            ui: UiState::new(),
            requests: Vec::new(),
        };
        assert(state@.requests =~= Seq::<Request>::empty());
        state
    }

    pub fn set_muted(&mut self, muted: bool)
        ensures
            final(self)@ == (App { muted, ..old(self)@ }),
            old(self).wf() ==> final(self).wf(),
    {
        self.muted = muted;
    }

    pub fn set_playback_wake(&mut self, wake: PlaybackWake)
        ensures
            final(self)@ == (App { wake, ..old(self)@ }),
            old(self).wf() ==> final(self).wf(),
    {
        self.playback_wake = wake;
    }

    pub fn take_playback_wakes(&mut self) -> (wakes: PendingPlaybackWakes)
        ensures
            wakes == old(self)@.wake.pending,
            final(self)@ == (App {
                wake: PlaybackWake {
                    pending: PendingPlaybackWakes::none(),
                    ..old(self)@.wake
                },
                ..old(self)@
            }),
            old(self).wf() ==> final(self).wf(),
    {
        self.playback_wake.take_pending()
    }

    /// Takes over the settings that were found in the file at `path`. What is wrong with
    /// the file is returned; settings are written to it all the same.
    pub fn set_settings_path(&mut self, path: String, read: Result<Option<&str>, &str>) -> (loaded:
        Result<(), String>)
        ensures
            final(self)@ == old(self)@.with_settings(path@, persistence::read_view(read)),
            match loaded {
                Ok(()) => settings::stored_settings(path@, persistence::read_view(read)) is Ok,
                Err(message) => settings::stored_settings(path@, persistence::read_view(read)) == Err::<
                    SettingsView,
                    Seq<char>,
                >(message@),
            },
            old(self).wf() ==> final(self).wf(),
    {
        let store = SettingsStore::new(path);
        let loaded = match store.load(read) {
            Ok(settings) => {
                self.account.user_id = settings.user_id;
                self.account.device_id = settings.device_id;
                self.preferences.favourite_qualities = settings.favourite_qualities;
                self.cache.refresh_requested = self.signed_in();
                Ok(())
            },
            Err(message) => Err(message),
        };
        self.settings_store = Some(store);
        loaded
    }

    /// Takes over the session that was found in the file at `path`. What is wrong with the
    /// file is returned; sessions are written to it all the same.
    pub fn set_session_path(&mut self, path: String, read: Result<Option<&str>, &str>) -> (loaded:
        Result<(), String>)
        ensures
            final(self)@ == old(self)@.with_session(path@, persistence::read_view(read)),
            match loaded {
                Ok(()) => session::stored_session(path@, persistence::read_view(read)) is Ok,
                Err(message) => session::stored_session(path@, persistence::read_view(read)) == Err::<
                    Option<Session>,
                    Seq<char>,
                >(message@),
            },
            old(self).wf() ==> final(self).wf(),
    {
        self.sessions.set_store(SessionStore::new(path), read)
    }

    /// The video to come back to; asked for again, there is none.
    pub fn take_startup_session_source(&mut self) -> (source: Option<VideoSource>)
        ensures
            final(self)@ == (App {
                sessions: Kept { startup: None, ..old(self)@.sessions },
                ..old(self)@
            }),
            match source {
                Some(source) => old(self)@.sessions.startup matches Some(session) && source@ == (
                Video {
                    start_time: if session.position.nanos == 0 {
                        None
                    } else {
                        Some(session.position)
                    },
                    ..session.source
                }),
                None => old(self)@.sessions.startup is None,
            },
            old(self).wf() ==> final(self).wf(),
    {
        self.sessions.take_startup_source()
    }

    pub fn signed_in(&self) -> (signed_in: bool)
        ensures
            signed_in == self@.signed_in(),
    {
        match &self.account.user_id {
            Some(user_id) => !user_id.as_str().is_empty(),
            None => false,
        }
    }

    /// Asks for the next video that is opened to be played as soon as it can be.
    pub fn play_when_opened(&mut self)
        ensures
            final(self)@ == (App { play_when_opened: true, ..old(self)@ }),
            old(self).wf() ==> final(self).wf(),
    {
        self.play_when_opened = true;
    }

    fn start_opened(&mut self, now: Instant)
        ensures
            old(self)@.playback.wf() ==> final(self)@.playback.wf(),
            ({
                let player = old(self)@.playback;
                let after = final(self)@.playback;
                &&& old(self)@.starts_with(player, now, after)
                &&& final(self)@ == (if start_of(player) is Some {
                    App { playback: after, ..old(self)@ }
                } else {
                    App { playback: after, play_when_opened: false, ..old(self)@ }.session_flushed(
                        now,
                    )
                })
            }),
    {
        let start = match self.playback.source() {
            Some(source) => match source.start_time {
                Some(start) => if start.is_zero() { None } else { Some(start) },
                None => None,
            },
            None => None,
        };
        match start {
            Some(start) => self.playback.seek(start, now),
            None => {
                if self.play_when_opened {
                    self.playback.play(now);
                    self.play_when_opened = false;
                }
                self.refresh_safe_session(now);
                self.persist_session(true, now);
            },
        }
    }

    fn take_over(&mut self, opened: OpenedVideo, now: Instant)
        ensures
            old(self)@.starts_with(opened.playback@, now, final(self)@.playback),
            final(self)@ == old(self)@.opened(
                opened.playback@,
                state::metadata_view(opened.metadata),
                now,
                final(self)@.playback,
            ),
            opened.playback@.wf() ==> final(self)@.playback.wf(),
            final(self)@.saves == old(self)@.saves,
            old(self)@.ui.controls.wf() ==> final(self)@.ui.controls.wf(),
    {
        proof {
            reveal(App::opened);
        }
        self.pending_video_open = None;
        self.playback = opened.playback;
        self.metadata = opened.metadata;
        self.preferences.manually_selected_quality = false;
        self.start_opened(now);
        self.ui.dialog = None;
        self.note_interaction();
    }

    fn give_up_opening(&mut self, message: String)
        ensures
            final(self)@ == old(self)@.not_opened(message@),
    {
        self.pending_video_open = None;
        self.play_when_opened = false;
        self.ui.dialog = Some(
            DialogState::Message { title: "Unable to open Twitch video".to_owned(), message },
        );
        self.note_interaction();
    }

    /// Takes over a video that was asked for under a number, or says why it is not there.
    /// One that was asked for before another is no longer wanted.
    pub fn finish_video_open(
        &mut self,
        generation: u64,
        result: Result<OpenedVideo, String>,
        now: Instant,
    )
        ensures
            if old(self)@.pending_video_open != Some(generation) {
                final(self)@ == old(self)@
            } else {
                match result {
                    Ok(opened) => {
                        &&& old(self)@.starts_with(opened.playback@, now, final(self)@.playback)
                        &&& final(self)@ == old(self)@.opened(
                            opened.playback@,
                            state::metadata_view(opened.metadata),
                            now,
                            final(self)@.playback,
                        )
                    },
                    Err(message) => final(self)@ == old(self)@.not_opened(message@),
                }
            },
            old(self).wf() && (result matches Ok(opened) ==> opened.playback@.wf())
                ==> final(self).wf(),
    {
        let wanted: bool = match self.pending_video_open {
            Some(pending) => pending == generation,
            None => false,
        };
        if !wanted {
            return;
        }
        match result {
            Ok(opened) => self.take_over(opened, now),
            Err(message) => self.give_up_opening(message),
        }
    }

    /// Takes back a session that could not be written.
    pub fn session_write_failed(&mut self, write: SessionWrite)
        ensures
            final(self)@ == (App {
                sessions: Kept { last_persisted: write@.previous, ..old(self)@.sessions },
                ..old(self)@
            }),
            old(self).wf() ==> final(self).wf(),
    {
        self.sessions.write_failed(write);
    }

    fn complete_position_save(&mut self, sent: bool, requeue_failure: bool, now: Instant)
        ensures
            final(self)@ == old(self)@.save_completed(sent, requeue_failure, now),
    {
        match self.saver.complete(sent, requeue_failure, now) {
            Some(request) => {
                let same_user: bool = match &self.account.user_id {
                    Some(user_id) => *user_id == request.user_id,
                    None => false,
                };
                let same_device: bool = match &self.account.device_id {
                    Some(device_id) => *device_id == request.device_id,
                    None => false,
                };
                if same_user && same_device {
                    self.cache.update_cached_saved_position(
                        request.source,
                        request.device_id,
                        request.position,
                    );
                }
            },
            None => {},
        }
    }

    fn update_playback(&mut self, elapsed: Duration, now: Instant)
        ensures
            final(self)@ == old(self)@.playback_updated(elapsed, now),
    {
        let was_seeking: bool = matches!(self.playback.state(), PlaybackState::Seeking);
        self.playback.update(elapsed, now);
        let landed: bool = was_seeking && !matches!(self.playback.state(), PlaybackState::Seeking);
        self.refresh_safe_session(now);
        self.persist_session(landed, now);
    }

    fn age(&mut self, elapsed: Duration)
        ensures
            final(self)@ == old(self)@.aged(elapsed),
    {
        self.cache.age_saved_positions(elapsed);
        let mut metadata: Option<VideoMetadata> = None;
        std::mem::swap(&mut metadata, &mut self.metadata);
        self.metadata = match metadata {
            Some(metadata) => Some(
                VideoMetadata {
                    title: metadata.title,
                    release_age: metadata.release_age.saturating_add(elapsed),
                },
            ),
            None => None,
        };
    }

    fn inform(&mut self, events: UpdateEvents, now: Instant)
        ensures
            final(self)@ == old(self)@.informed(events@, now),
    {
        match events.positions {
            Some(result) => self.cache.finish_fetch(result, &self.account.user_id),
            None => {},
        }
        match events.saved {
            Some(saved) => self.complete_position_save(saved.is_ok(), true, now),
            None => {},
        }
    }

    fn start_positions_fetch_if_requested(&mut self)
        ensures
            final(self)@ == old(self)@.fetch_started(),
    {
        match self.cache.begin_fetch(&self.account.user_id) {
            Some(user_id) => {
                self.requests.push(AppRequest::FetchPositions(user_id));
                assert(self@.requests =~= old(self)@.requests.push(
                    Request::FetchPositions(user_id@),
                ));
            },
            None => {},
        }
    }

    fn maybe_queue_paused_position(&mut self, now: Instant)
        ensures
            final(self)@ == old(self)@.pause_saved(now),
    {
        if !self.saver.pause_is_due(now) {
            return;
        }
        self.saver.cancel_pause();
        self.refresh_safe_session(now);
        self.queue_safe_position(true);
    }

    fn maybe_save_position(&mut self, now: Instant)
        ensures
            final(self)@ == old(self)@.progress_saved(now),
    {
        if !self.playback.is_settled() {
            return;
        }
        self.refresh_safe_session(now);
        self.queue_safe_position(false);
    }

    fn resume_deferred_autoplay(&mut self, now: Instant)
        ensures
            final(self)@ == old(self)@.autoplayed(now),
    {
        if !self.play_when_opened || self.pending_video_open.is_some() || !self.has_video() {
            return;
        }
        match self.playback.state() {
            PlaybackState::Paused => {
                self.playback.play(now);
                self.play_when_opened = false;
            },
            PlaybackState::Ended | PlaybackState::Error(_) => {
                self.play_when_opened = false;
            },
            _ => {},
        }
    }

    fn update_controls(&mut self, elapsed: Duration)
        requires
            old(self)@.ui.controls.wf(),
        ensures
            final(self)@ == old(self)@.controls_updated(elapsed),
    {
        let has_video = self.has_video();
        let playing: bool = matches!(self.playback.state(), PlaybackState::Playing);
        let dialog_open: bool = self.ui.dialog.is_some();
        self.ui.controls.update(elapsed, has_video, playing, dialog_open);
    }

    fn observe(&mut self, elapsed: Duration, now: Instant, events: UpdateEvents)
        ensures
            final(self)@ == old(self)@.observed(elapsed, now, events@),
            final(self)@.ui == old(self)@.ui,
    {
        proof {
            reveal(App::observed);
        }
        self.update_playback(elapsed, now);
        self.age(elapsed);
        self.inform(events, now);
        self.start_positions_fetch_if_requested();
    }

    fn act(&mut self, now: Instant)
        ensures
            final(self)@ == old(self)@.acted(now),
            final(self)@.ui == old(self)@.ui,
    {
        proof {
            reveal(App::acted);
        }
        self.maybe_queue_paused_position(now);
        self.maybe_save_position(now);
        self.start_next_position_save(now);
        self.resume_deferred_autoplay(now);
    }

    /// Lets `elapsed` pass up to `now`, and takes note of what came of requests.
    pub fn update(&mut self, elapsed: Duration, now: Instant, events: UpdateEvents)
        requires
            old(self).wf(),
        ensures
            final(self)@ == old(self)@.updated(elapsed, now, events@),
            final(self).wf(),
    {
        proof {
            laws::updates_keep_the_state_valid(self@, elapsed, now, events@);
        }
        self.observe(elapsed, now, events);
        self.act(now);
        self.update_controls(elapsed);
    }

    /// Writes everything down that would be lost if the application stopped now.
    pub fn flush_persistence_for_background(&mut self, now: Instant)
        ensures
            final(self)@ == old(self)@.session_flushed(now).save_forced(now),
            old(self).wf() ==> final(self).wf(),
    {
        proof {
            if self.wf() {
                laws::flushing_keeps_the_state_valid(self@, now);
            }
        }
        self.flush_local_session(now);
        self.force_remote_position_save(now);
    }

    /// Finds out what is left to do before the application can end at `deadline`.
    pub fn shutdown_step(&mut self, now: Instant, deadline: Instant) -> (step: ShutdownStep)
        ensures
            old(self)@.shutdown_stepped(now, deadline) == (step, final(self)@),
            old(self).wf() ==> final(self).wf(),
    {
        if self.saver.pending.is_none() && self.saver.queue.len() > 0 {
            self.saver.next_allowed = now;
            self.start_next_position_save(now);
        }
        if self.saver.pending.is_none() || now.nanos >= deadline.nanos {
            ShutdownStep::Done
        } else {
            ShutdownStep::Wait(deadline.saturating_duration_since(now))
        }
    }

    /// Takes note of how the position under way came to its end while the application
    /// ends: one that failed is not tried again.
    pub fn shutdown_save_completed(&mut self, sent: bool, now: Instant)
        ensures
            final(self)@ == old(self)@.save_completed(sent, false, now),
            old(self).wf() ==> final(self).wf(),
    {
        self.complete_position_save(sent, false, now);
    }

    /// When something that waits wants to be looked at again.
    pub fn persistence_wake_deadline(&self, now: Instant) -> (deadline: Option<Instant>)
        ensures
            deadline == self@.saves.wake_deadline(now),
    {
        self.saver.wake_deadline(now)
    }
}

impl App {
    /// Nothing is loaded, no one is signed in and nothing waits.
    pub open spec fn is_initial(self, decode_mode: DecodeMode, now: Instant) -> bool {
        &&& state::is_fresh(self.playback)
        &&& self.cache.positions.len() == 0
        &&& self.cache.error is None
        &&& !self.cache.refresh_requested
        &&& self.cache.pending_fetch is None
        &&& self.saves == (Saves {
            queue: Seq::empty(),
            pending: None,
            pause_due: None,
            last_uploaded: None,
            next_allowed: now,
        })
        &&& self.sessions == (Kept {
            store: None,
            startup: None,
            last_safe: None,
            last_persisted: None,
            next_save_allowed: now,
        })
        &&& self.settings_path is None
        &&& self.metadata is None
        &&& self.user_id is None
        &&& self.device_id is None
        &&& self.favourite_qualities.len() == 0
        &&& !self.manually_selected_quality
        &&& self.wake == (PlaybackWake { pending: PendingPlaybackWakes::none(), notifies: false })
        &&& self.decode_mode == decode_mode
        &&& self.pending_video_open is None
        &&& self.opens == 0
        &&& !self.play_when_opened
        &&& !self.muted
        &&& self.ui == Overlay::initial()
        &&& self.requests.len() == 0
    }

    /// The state with the settings of a document, the default ones without one; what cannot
    /// be read changes nothing.
    pub open spec fn with_settings(
        self,
        path: Seq<char>,
        read: Result<Option<Seq<char>>, Seq<char>>,
    ) -> Self {
        let stored = App { settings_path: Some(path), ..self };
        match settings::stored_settings(path, read) {
            Ok(found) => App {
                user_id: found.user_id,
                device_id: found.device_id,
                favourite_qualities: found.favourite_qualities,
                cache: crate::app::positions::Cached {
                    refresh_requested: found.user_id matches Some(user_id) && user_id.len() > 0,
                    ..self.cache
                },
                ..stored
            },
            Err(_) => stored,
        }
    }

    /// The state with the session of a document to come back to; what cannot be read
    /// changes nothing.
    pub open spec fn with_session(
        self,
        path: Seq<char>,
        read: Result<Option<Seq<char>>, Seq<char>>,
    ) -> Self {
        App { sessions: self.sessions.with_store(path, read), ..self }
    }
}

} // verus!
