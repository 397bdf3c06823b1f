//! The state of the application, and what the user's commands make of it.
//!
//! Nothing here reads a file, waits for a server or starts a decoder. What is to be done of
//! that is left behind as requests, in order; what came of it is handed back.

use crate::app::laws;
use crate::app::positions::{Cached, PositionCache};
use crate::app::saves;
use crate::app::saves::{PositionSaveRequest, PositionSaver, SaveRequest, Saves};
use crate::app::sessions::{Kept, SessionKeeper, SessionWrite, Write};
use crate::app::ui;
use crate::app::ui::{Controls, DialogState, Overlay, UiState};
use crate::model::{AppCommand, PlaybackState};
use crate::playback::backend::{PlaybackBackend, Player};
use crate::playback::decode_mode::DecodeMode;
use crate::playback::dummy;
use crate::playback::dummy::{DummyPlayback, DummyTransport};
use crate::playback::hls;
use crate::playback::hls::favourite_quality;
use crate::playback::wake::PlaybackWake;
use crate::services::VideoMetadata;
use crate::settings;
use crate::settings::{copy_optional, Settings, SettingsStore, SettingsView};
use crate::time::{Duration, Instant};
use crate::video::{Video, VideoPlatform, VideoSource};
use vstd::prelude::*;

verus! {

/// What only the platform can do.
#[derive(Clone, Copy, Debug, PartialEq, Eq, Structural)]
pub enum AppEffect {
    ToggleFullscreen,
}

/// What is to be done outside. A video is opened under a number, so that what comes of it
/// is told from what came of an earlier one.
#[derive(Debug, PartialEq, Eq)]
pub enum AppRequest {
    OpenVideo {
        generation: u64,
        source: VideoSource,
        initial_qualities: String,
        decode_mode: DecodeMode,
        muted: bool,
    },
    FetchPositions(String),
    SavePosition(PositionSaveRequest),
    WriteSettings(Settings),
    WriteSession(SessionWrite),
}

/// What is to be done outside, as values.
pub enum Request {
    OpenVideo {
        generation: u64,
        source: Video,
        initial_qualities: Seq<char>,
        decode_mode: DecodeMode,
        muted: bool,
    },
    FetchPositions(Seq<char>),
    SavePosition(SaveRequest),
    WriteSettings(SettingsView),
    WriteSession(Write),
}

impl View for AppRequest {
    type V = Request;

    open spec fn view(&self) -> Request {
        match self {
            AppRequest::OpenVideo {
                generation,
                source,
                initial_qualities,
                decode_mode,
                muted,
            } => Request::OpenVideo {
                generation: *generation,
                source: source@,
                initial_qualities: initial_qualities@,
                decode_mode: *decode_mode,
                muted: *muted,
            },
            AppRequest::FetchPositions(user_id) => Request::FetchPositions(user_id@),
            AppRequest::SavePosition(request) => Request::SavePosition(request@),
            AppRequest::WriteSettings(settings) => Request::WriteSettings(settings@),
            AppRequest::WriteSession(write) => Request::WriteSession(write@),
        }
    }
}

pub open spec fn requests_view(requests: Seq<AppRequest>) -> Seq<Request> {
    Seq::new(requests.len(), |i: int| requests[i]@)
}

/// Who is signed in, and on which device.
#[derive(Debug, PartialEq, Eq)]
pub struct AccountState {
    pub user_id: Option<String>,
    pub device_id: Option<String>,
}

/// What the user prefers.
#[derive(Debug, PartialEq, Eq)]
pub struct Preferences {
    pub favourite_qualities: String,
    pub manually_selected_quality: bool,
}

/// What is known of a video, as values.
pub struct Metadata {
    pub title: Seq<char>,
    pub release_age: Duration,
}

pub open spec fn metadata_view(metadata: Option<VideoMetadata>) -> Option<Metadata> {
    match metadata {
        Some(metadata) => Some(
            Metadata { title: metadata.title@, release_age: metadata.release_age },
        ),
        None => None,
    }
}

/// A video that has been opened, and what is known of it.
pub struct OpenedVideo {
    pub playback: PlaybackBackend,
    pub metadata: Option<VideoMetadata>,
}

/// The state of the application.
pub struct AppState {
    pub playback: PlaybackBackend,
    pub cache: PositionCache,
    pub saver: PositionSaver,
    pub sessions: SessionKeeper,
    pub settings_store: Option<SettingsStore>,
    pub metadata: Option<VideoMetadata>,
    pub account: AccountState,
    pub preferences: Preferences,
    pub playback_wake: PlaybackWake,
    pub decode_mode: DecodeMode,
    pub pending_video_open: Option<u64>,
    pub opens: u64,
    pub play_when_opened: bool,
    pub muted: bool,
    pub ui: UiState,
    pub requests: Vec<AppRequest>,
}

/// The state of the application, as values; `settings_path` is the path of their file.
pub struct App {
    pub playback: Player,
    pub cache: Cached,
    pub saves: Saves,
    pub sessions: Kept,
    pub settings_path: Option<Seq<char>>,
    pub metadata: Option<Metadata>,
    pub user_id: Option<Seq<char>>,
    pub device_id: Option<Seq<char>>,
    pub favourite_qualities: Seq<char>,
    pub manually_selected_quality: bool,
    pub wake: PlaybackWake,
    pub decode_mode: DecodeMode,
    pub pending_video_open: Option<u64>,
    pub opens: u64,
    pub play_when_opened: bool,
    pub muted: bool,
    pub ui: Overlay,
    pub requests: Seq<Request>,
}

impl View for AppState {
    type V = App;

    open spec fn view(&self) -> App {
        App {
            playback: self.playback@,
            cache: self.cache@,
            saves: self.saver@,
            sessions: self.sessions@,
            settings_path: settings::store_path(self.settings_store),
            metadata: metadata_view(self.metadata),
            user_id: settings::optional_view(self.account.user_id),
            device_id: settings::optional_view(self.account.device_id),
            favourite_qualities: self.preferences.favourite_qualities@,
            manually_selected_quality: self.preferences.manually_selected_quality,
            wake: self.playback_wake,
            decode_mode: self.decode_mode,
            pending_video_open: self.pending_video_open,
            opens: self.opens,
            play_when_opened: self.play_when_opened,
            muted: self.muted,
            ui: self.ui@,
            requests: requests_view(self.requests@),
        }
    }
}

/// Whether nothing is loaded in a player without a decoder.
pub open spec fn is_fresh(player: Player) -> bool {
    player matches Player::Dummy(player) && {
        &&& player.wf()
        &&& player.source is None
        &&& player.transport == (DummyTransport {
            state: PlaybackState::Paused,
            position: Duration { nanos: 0 },
            duration: Duration { nanos: dummy::DUMMY_DURATION_NANOS },
            rate: 100,
            quality_index: dummy::DEFAULT_QUALITY_INDEX,
            pending_seek: None,
        })
        &&& player.rates@ == seq![25u32, 50, 100, 150, 200]
    }
}

/// The number under which the next video is opened.
pub open spec fn next_generation(opens: u64) -> u64 {
    if opens == u64::MAX { 0 } else { (opens + 1) as u64 }
}

impl App {
    /// The player has the quality it plays, the slider lies between its ends, and no two
    /// requests that wait have the same key.
    pub open spec fn wf(self) -> bool {
        &&& self.playback.wf()
        &&& self.ui.controls.wf()
        &&& saves::distinct_keys(self.saves.queue)
    }

    pub open spec fn has_video(self) -> bool {
        self.playback.source() is Some
    }

    pub open spec fn signed_in(self) -> bool {
        self.user_id matches Some(user_id) && user_id.len() > 0
    }

    pub open spec fn noted(self) -> Self {
        App { ui: self.ui.noted(), ..self }
    }

    pub open spec fn with_request(self, request: Request) -> Self {
        App { requests: self.requests.push(request), ..self }
    }

    /// Takes note of where playback stands, if it is settled.
    pub open spec fn safe_refreshed(self, now: Instant) -> Self {
        App {
            sessions: self.sessions.refreshed(
                self.playback.is_settled(),
                self.playback.source(),
                self.playback.position(now),
            ),
            ..self
        }
    }

    pub open spec fn session_persisted(self, force: bool, now: Instant) -> Self {
        let (write, sessions) = self.sessions.persisted(force, now);
        let kept = App { sessions, ..self };
        match write {
            Some(write) => kept.with_request(Request::WriteSession(write)),
            None => kept,
        }
    }

    pub open spec fn session_flushed(self, now: Instant) -> Self {
        self.safe_refreshed(now).session_persisted(true, now)
    }

    /// Puts the position of the session that can be come back to in the queue.
    pub open spec fn position_queued(self, force: bool) -> Self {
        match self.sessions.last_safe {
            Some(session) => App {
                saves: self.saves.queued(self.user_id, self.device_id, session, force),
                ..self
            },
            None => self,
        }
    }

    pub open spec fn save_started(self, now: Instant) -> Self {
        let (request, saves) = self.saves.started(now);
        let started = App { saves, ..self };
        match request {
            Some(request) => started.with_request(Request::SavePosition(request)),
            None => started,
        }
    }

    pub open spec fn pause_cancelled(self) -> Self {
        App { saves: Saves { pause_due: None, ..self.saves }, ..self }
    }

    pub open spec fn pause_scheduled(self, now: Instant) -> Self {
        App {
            saves: Saves {
                pause_due: Some(
                    now.plus(Duration { nanos: saves::PAUSE_POSITION_SAVE_NANOS }),
                ),
                ..self.saves
            },
            ..self
        }
    }

    /// Sends the position at once, however little it differs from the last one.
    pub open spec fn save_forced(self, now: Instant) -> Self {
        self.pause_cancelled().safe_refreshed(now).position_queued(true).save_started(now)
    }

    pub open spec fn settings_persisted(self) -> Self {
        if self.settings_path is Some {
            self.with_request(
                Request::WriteSettings(
                    SettingsView {
                        user_id: self.user_id,
                        device_id: self.device_id,
                        favourite_qualities: self.favourite_qualities,
                    },
                ),
            )
        } else {
            self
        }
    }

    /// The state once a recording is being looked for: nothing plays, and a dialog says so.
    pub open spec fn opening(self, source: Video, after: Player) -> Self {
        let generation = next_generation(self.opens);
        let asked = self.with_request(
            Request::OpenVideo {
                generation,
                source,
                initial_qualities: self.favourite_qualities,
                decode_mode: self.decode_mode,
                muted: self.muted,
            },
        );
        App {
            playback: after,
            metadata: None,
            pending_video_open: Some(generation),
            opens: generation,
            ui: self.ui.with_message(ui::Dialog::TwitchResolving { video_id: source.id }),
            ..asked
        }
    }

    /// The state with a message in place of everything that was being opened.
    pub open spec fn with_message(self, title: Seq<char>, message: Seq<char>) -> Self {
        App {
            pending_video_open: None,
            ui: self.ui.with_message(ui::Dialog::Message { title, message }),
            ..self
        }
    }

    /// The state once a video was asked for.
    #[verifier::opaque]
    pub open spec fn video_asked(self, source: Video, now: Instant, after: Player) -> Self {
        let saved = self.session_flushed(now).save_forced(now);
        match source.platform {
            VideoPlatform::Twitch => saved.opening(source, after),
            VideoPlatform::YouTube => saved.with_message(
                "YouTube is not supported yet"@,
                "SanctuaryPlayer recognises YouTube video IDs and URLs, but YouTube playback is currently unsupported."@,
            ),
        }
    }

    /// The state once playback was paused.
    #[verifier::opaque]
    pub open spec fn user_paused(self, now: Instant, after: Player) -> Self {
        App { playback: after, ..self }.session_flushed(now).pause_scheduled(now)
    }

    #[verifier::opaque]
    pub open spec fn signed_in_as(self, user_id: Seq<char>, device_id: Seq<char>, now: Instant) -> Self {
        let account = App { user_id: Some(user_id), device_id: Some(device_id), ..self };
        let kept = account.settings_persisted();
        App {
            cache: kept.cache.forgotten(true),
            saves: Saves { next_allowed: now, ..kept.saves.forgotten() },
            ..kept
        }
    }

    #[verifier::opaque]
    pub open spec fn signed_out(self) -> Self {
        let kept = App { user_id: None, device_id: None, ..self }.settings_persisted();
        App { cache: kept.cache.forgotten(false), saves: kept.saves.forgotten(), ..kept }
    }

    pub open spec fn lock_toggled(self) -> Self {
        App {
            ui: self.ui.with_controls(
                Controls {
                    locked: !self.ui.controls.locked,
                    menu_open: false,
                    ..self.ui.controls
                }.noted(),
            ),
            ..self
        }
    }

    /// Whether a command is not carried out because the controls are locked.
    pub open spec fn is_blocked(self, command: AppCommand) -> bool {
        self.ui.controls.locked && !(command is ToggleControlsLock)
            && !(command is ToggleControlsVisibility)
    }

    /// Where a relative seek leads.
    pub open spec fn seek_target(self, offset: i64, now: Instant) -> Duration {
        let current = self.playback.position(now);
        if offset >= 0 {
            current.plus(Duration::of_secs(offset as u64))
        } else {
            current.minus(Duration::of_secs((-offset) as u64))
        }
    }

    /// Whether `after` is what a command makes of what plays.
    pub open spec fn plays_on(self, command: AppCommand, now: Instant, after: Player) -> bool {
        if self.is_blocked(command) {
            after == self.playback
        } else {
            match command {
                AppCommand::OpenVideo(source) => if source.platform == VideoPlatform::Twitch {
                    is_fresh(after)
                } else {
                    after == self.playback
                },
                AppCommand::TogglePlayback => after == (if self.playback.state() is Playing {
                    self.playback.paused(now)
                } else if self.playback.state() is Paused {
                    self.playback.played(now)
                } else {
                    self.playback
                }),
                AppCommand::Play => after == self.playback.played(now),
                AppCommand::Pause => after == self.playback.paused(now),
                AppCommand::SeekAbsolute(position) => self.playback.becomes_by_seek(
                    position,
                    now,
                    after,
                ),
                AppCommand::SeekRelative(offset) => self.playback.becomes_by_seek(
                    self.seek_target(offset, now),
                    now,
                    after,
                ),
                AppCommand::SetPlaybackRate(rate) => after == self.playback.with_rate(rate),
                AppCommand::SetVolume(volume) => after == self.playback.with_volume(volume),
                AppCommand::SetQuality(quality) => after == self.playback.with_quality(quality@),
                AppCommand::SetFavouriteQualities(qualities) => after == (
                if self.manually_selected_quality {
                    self.playback
                } else {
                    match hls::favourite(self.playback.qualities(), qualities@) {
                        Some(index) => self.playback.with_quality(
                            self.playback.qualities()[index].id@,
                        ),
                        None => self.playback,
                    }
                }),
                _ => after == self.playback,
            }
        }
    }

    /// What a command does apart from the note that something was touched. `after` is what
    /// plays then.
    pub open spec fn carried_out(self, command: AppCommand, now: Instant, after: Player) -> Self {
        match command {
            AppCommand::OpenVideo(source) => self.video_asked(source@, now, after),
            AppCommand::TogglePlayback => if self.playback.state() is Playing {
                self.user_paused(now, after)
            } else if self.playback.state() is Paused {
                App { playback: after, ..self.pause_cancelled() }
            } else {
                self
            },
            AppCommand::Play => App { playback: after, ..self.pause_cancelled() },
            AppCommand::Pause => self.user_paused(now, after),
            AppCommand::SeekAbsolute(_)
            | AppCommand::SeekRelative(_)
            | AppCommand::SetPlaybackRate(_)
            | AppCommand::SetVolume(_) => App { playback: after, ..self },
            AppCommand::SetQuality(_) => App {
                playback: after,
                manually_selected_quality: true,
                ..self
            },
            AppCommand::SetFavouriteQualities(qualities) => App {
                playback: after,
                ..App { favourite_qualities: qualities@, ..self }.settings_persisted()
            },
            AppCommand::SignIn { user_id, device_id } => self.signed_in_as(
                user_id@,
                device_id@,
                now,
            ),
            AppCommand::SignOut => self.signed_out(),
            AppCommand::ToggleControlsLock => self.lock_toggled(),
            AppCommand::ToggleDebugInfo => App {
                ui: Overlay { debug_info: !self.ui.debug_info, ..self.ui },
                ..self
            },
            AppCommand::ToggleControlsVisibility => App {
                ui: self.ui.with_controls(self.ui.controls.visibility_toggled()),
                ..self
            },
            AppCommand::ToggleFullscreen | AppCommand::RefreshPlayback => self,
        }
    }

    /// The state once a command was given. `after` is what plays then.
    pub open spec fn applied(self, command: AppCommand, now: Instant, after: Player) -> Self {
        if self.is_blocked(command) {
            self
        } else {
            let done = self.carried_out(command, now, after);
            if done.has_video() && !(command is ToggleControlsVisibility) {
                done.noted()
            } else {
                done
            }
        }
    }
}

impl AppState {
    pub open spec fn wf(self) -> bool {
        self@.wf()
    }

    fn push_request(&mut self, request: AppRequest)
        ensures
            final(self)@ == old(self)@.with_request(request@),
    {
        self.requests.push(request);
        assert(self@.requests =~= old(self)@.requests.push(request@));
    }

    /// The requests left so far, which are then no longer there.
    pub fn take_requests(&mut self) -> (requests: Vec<AppRequest>)
        ensures
            requests_view(requests@) == old(self)@.requests,
            final(self)@ == (App { requests: Seq::empty(), ..old(self)@ }),
            old(self).wf() ==> final(self).wf(),
    {
        let mut requests: Vec<AppRequest> = Vec::new();
        std::mem::swap(&mut requests, &mut self.requests);
        assert(self@.requests =~= Seq::<Request>::empty());
        requests
    }

    pub fn note_interaction(&mut self)
        ensures
            final(self)@ == old(self)@.noted(),
            old(self).wf() ==> final(self).wf(),
    {
        self.ui.controls.note_interaction();
    }

    pub fn has_video(&self) -> (has: bool)
        ensures
            has == self@.has_video(),
    {
        self.playback.source().is_some()
    }

    /// Takes note of where playback stands, if it is settled.
    pub fn refresh_safe_session(&mut self, now: Instant)
        ensures
            final(self)@ == old(self)@.safe_refreshed(now),
            old(self).wf() ==> final(self).wf(),
    {
        let settled = self.playback.is_settled();
        let position = self.playback.position(now);
        self.sessions.refresh(settled, self.playback.source(), position);
    }

    /// Asks for the session to be written, if it is to be.
    pub fn persist_session(&mut self, force: bool, now: Instant)
        ensures
            final(self)@ == old(self)@.session_persisted(force, now),
            old(self).wf() ==> final(self).wf(),
    {
        match self.sessions.persist(force, now) {
            Some(write) => self.push_request(AppRequest::WriteSession(write)),
            None => {},
        }
    }

    pub fn flush_local_session(&mut self, now: Instant)
        ensures
            final(self)@ == old(self)@.session_flushed(now),
            old(self).wf() ==> final(self).wf(),
    {
        self.refresh_safe_session(now);
        self.persist_session(true, now);
    }

    pub fn queue_safe_position(&mut self, force: bool)
        ensures
            final(self)@ == old(self)@.position_queued(force),
            old(self).wf() ==> final(self).wf(),
    {
        proof {
            if self.wf() {
                laws::position_queued_keeps_distinct_keys(self@, force);
            }
        }
        match &self.sessions.last_safe {
            Some(session) => {
                self.saver.queue_position_save(
                    &self.account.user_id,
                    &self.account.device_id,
                    session,
                    force,
                );
            },
            None => {},
        }
    }

    /// Asks for the next position to be sent, if it can be.
    pub fn start_next_position_save(&mut self, now: Instant)
        ensures
            final(self)@ == old(self)@.save_started(now),
            old(self).wf() ==> final(self).wf(),
    {
        match self.saver.start_next(now) {
            Some(request) => self.push_request(AppRequest::SavePosition(request)),
            None => {},
        }
    }

    /// Sends the position at once, however little it differs from the last one.
    pub fn force_remote_position_save(&mut self, now: Instant)
        ensures
            final(self)@ == old(self)@.save_forced(now),
            old(self).wf() ==> final(self).wf(),
    {
        self.saver.cancel_pause();
        self.refresh_safe_session(now);
        self.queue_safe_position(true);
        self.start_next_position_save(now);
    }

    fn persist_settings(&mut self)
        ensures
            final(self)@ == old(self)@.settings_persisted(),
    {
        if self.settings_store.is_none() {
            return;
        }
        let settings = Settings {
            user_id: copy_optional(&self.account.user_id),
            device_id: copy_optional(&self.account.device_id),
            favourite_qualities: self.preferences.favourite_qualities.clone(),
        };
        self.push_request(AppRequest::WriteSettings(settings));
    }

    fn begin_twitch_resolution(&mut self, source: VideoSource)
        ensures
            is_fresh(final(self)@.playback),
            final(self)@ == old(self)@.opening(source@, final(self)@.playback),
    {
        let generation: u64 = if self.opens == u64::MAX { 0 } else { self.opens + 1 };
        let video_id = source.id.clone();
        let request = AppRequest::OpenVideo {
            generation,
            source,
            initial_qualities: self.preferences.favourite_qualities.clone(),
            decode_mode: self.decode_mode,
            muted: self.muted,
        };
        self.push_request(request);
        self.playback = PlaybackBackend::Dummy(DummyPlayback::new());
        self.metadata = None;
        self.opens = generation;
        self.pending_video_open = Some(generation);
        self.ui.show_message(DialogState::TwitchResolving { video_id });
    }

    fn show_message(&mut self, title: &str, message: &str)
        ensures
            final(self)@ == old(self)@.with_message(title@, message@),
    {
        self.pending_video_open = None;
        self.ui.show_message(
            DialogState::Message { title: title.to_owned(), message: message.to_owned() },
        );
    }

    fn open_video(&mut self, source: VideoSource, now: Instant)
        ensures
            final(self)@ == old(self)@.video_asked(source@, now, final(self)@.playback),
            if source.platform == VideoPlatform::Twitch {
                is_fresh(final(self)@.playback)
            } else {
                final(self)@.playback == old(self)@.playback
            },
    {
        proof {
            reveal(App::video_asked);
        }
        self.flush_local_session(now);
        self.force_remote_position_save(now);
        match source.platform {
            VideoPlatform::Twitch => self.begin_twitch_resolution(source),
            VideoPlatform::YouTube => self.show_message(
                "YouTube is not supported yet",
                "SanctuaryPlayer recognises YouTube video IDs and URLs, but YouTube playback is currently unsupported.",
            ),
        }
    }

    fn pause_playback(&mut self, now: Instant)
        ensures
            final(self)@ == old(self)@.user_paused(now, old(self)@.playback.paused(now)),
            final(self)@.playback == old(self)@.playback.paused(now),
    {
        proof {
            reveal(App::user_paused);
        }
        self.playback.pause(now);
        self.refresh_safe_session(now);
        self.persist_session(true, now);
        self.saver.schedule_pause(now);
    }

    fn play_playback(&mut self, now: Instant)
        ensures
            final(self)@ == (App {
                playback: old(self)@.playback.played(now),
                ..old(self)@.pause_cancelled()
            }),
    {
        self.saver.cancel_pause();
        self.playback.play(now);
    }

    fn seek_relative(&mut self, offset: i64, now: Instant)
        ensures
            old(self)@.playback.becomes_by_seek(
                old(self)@.seek_target(offset, now),
                now,
                final(self)@.playback,
            ),
            final(self)@ == (App { playback: final(self)@.playback, ..old(self)@ }),
    {
        let current = self.playback.position(now);
        let target = if offset >= 0 {
            current.saturating_add(Duration::from_secs(offset as u64))
        } else {
            let back: u64 = (-(offset as i128)) as u64;
            current.saturating_sub(Duration::from_secs(back))
        };
        self.playback.seek(target, now);
    }

    /// Plays the first of the favourite qualities that there is.
    pub fn apply_favourite_quality(&mut self)
        ensures
            final(self)@ == (App {
                playback: match hls::favourite(
                    old(self)@.playback.qualities(),
                    old(self)@.favourite_qualities,
                ) {
                    Some(index) => old(self)@.playback.with_quality(
                        old(self)@.playback.qualities()[index].id@,
                    ),
                    None => old(self)@.playback,
                },
                ..old(self)@
            }),
            old(self).wf() ==> final(self).wf(),
    {
        let qualities = self.playback.available_qualities();
        match favourite_quality(&qualities, self.preferences.favourite_qualities.as_str()) {
            Some(index) => {
                self.playback.set_quality(qualities[index].id.as_str());
            },
            None => {},
        }
    }

    fn set_favourite_qualities(&mut self, qualities: String)
        ensures
            final(self)@ == (App {
                playback: final(self)@.playback,
                ..App { favourite_qualities: qualities@, ..old(self)@ }.settings_persisted()
            }),
            final(self)@.playback == (if old(self)@.manually_selected_quality {
                old(self)@.playback
            } else {
                match hls::favourite(old(self)@.playback.qualities(), qualities@) {
                    Some(index) => old(self)@.playback.with_quality(
                        old(self)@.playback.qualities()[index].id@,
                    ),
                    None => old(self)@.playback,
                }
            }),
    {
        self.preferences.favourite_qualities = qualities;
        self.persist_settings();
        if !self.preferences.manually_selected_quality {
            self.apply_favourite_quality();
        }
    }

    fn sign_in(&mut self, user_id: String, device_id: String, now: Instant)
        ensures
            final(self)@ == old(self)@.signed_in_as(user_id@, device_id@, now),
            final(self)@.playback == old(self)@.playback,
    {
        proof {
            reveal(App::signed_in_as);
        }
        self.account.user_id = Some(user_id);
        self.account.device_id = Some(device_id);
        self.persist_settings();
        self.cache.forget(true);
        self.saver.forget();
        self.saver.next_allowed = now;
    }

    fn sign_out(&mut self)
        ensures
            final(self)@ == old(self)@.signed_out(),
            final(self)@.playback == old(self)@.playback,
    {
        proof {
            reveal(App::signed_out);
        }
        self.account.user_id = None;
        self.account.device_id = None;
        self.persist_settings();
        self.cache.forget(false);
        self.saver.forget();
    }

    fn toggle_controls_lock(&mut self)
        ensures
            final(self)@ == old(self)@.lock_toggled(),
    {
        self.ui.controls.locked = !self.ui.controls.locked;
        self.ui.controls.menu_open = false;
        self.ui.controls.note_interaction();
    }

    fn toggle_playback(&mut self, now: Instant)
        ensures
            final(self)@ == old(self)@.carried_out(
                AppCommand::TogglePlayback,
                now,
                final(self)@.playback,
            ),
            final(self)@.playback == (if old(self)@.playback.state() is Playing {
                old(self)@.playback.paused(now)
            } else if old(self)@.playback.state() is Paused {
                old(self)@.playback.played(now)
            } else {
                old(self)@.playback
            }),
    {
        match self.playback.state() {
            PlaybackState::Playing => self.pause_playback(now),
            PlaybackState::Paused => self.play_playback(now),
            _ => {},
        }
    }

    fn carry_out(&mut self, command: AppCommand, now: Instant)
        requires
            !old(self)@.is_blocked(command),
        ensures
            old(self)@.plays_on(command, now, final(self)@.playback),
            final(self)@ == old(self)@.carried_out(command, now, final(self)@.playback),
    {
        match command {
            AppCommand::OpenVideo(source) => self.open_video(source, now),
            AppCommand::TogglePlayback => self.toggle_playback(now),
            AppCommand::Play => self.play_playback(now),
            AppCommand::Pause => self.pause_playback(now),
            AppCommand::SeekAbsolute(position) => self.playback.seek(position, now),
            AppCommand::SeekRelative(offset) => self.seek_relative(offset, now),
            AppCommand::SetPlaybackRate(rate) => self.playback.set_playback_rate(rate),
            AppCommand::SetVolume(volume) => self.playback.set_volume(volume),
            AppCommand::SetQuality(quality) => {
                self.preferences.manually_selected_quality = true;
                self.playback.set_quality(quality.as_str());
            },
            AppCommand::SetFavouriteQualities(qualities) => self.set_favourite_qualities(
                qualities,
            ),
            AppCommand::SignIn { user_id, device_id } => self.sign_in(user_id, device_id, now),
            AppCommand::SignOut => self.sign_out(),
            AppCommand::ToggleControlsLock => self.toggle_controls_lock(),
            AppCommand::ToggleControlsVisibility => self.ui.controls.toggle_visibility(),
            AppCommand::ToggleDebugInfo => {
                self.ui.debug_info = !self.ui.debug_info;
            },
            AppCommand::ToggleFullscreen | AppCommand::RefreshPlayback => {},
        }
    }

    /// Carries out a command. What only the platform can do is returned.
    pub fn apply(&mut self, command: AppCommand, now: Instant) -> (effect: Option<AppEffect>)
        ensures
            old(self)@.plays_on(command, now, final(self)@.playback),
            final(self)@ == old(self)@.applied(command, now, final(self)@.playback),
            old(self).wf() ==> final(self).wf(),
            effect == (if command is ToggleFullscreen && !old(self)@.is_blocked(command) {
                Some(AppEffect::ToggleFullscreen)
            } else {
                None
            }),
    {
        let unlocks: bool = matches!(
            command,
            AppCommand::ToggleControlsLock | AppCommand::ToggleControlsVisibility
        );
        if self.ui.controls.locked && !unlocks {
            return None;
        }
        let ghost given = command;
        let visibility: bool = matches!(command, AppCommand::ToggleControlsVisibility);
        let fullscreen: bool = matches!(command, AppCommand::ToggleFullscreen);
        self.carry_out(command, now);
        if self.has_video() && !visibility {
            self.note_interaction();
        }
        proof {
            if old(self).wf() {
                laws::commands_keep_the_state_valid(old(self)@, given, now, self@.playback);
            }
        }
        if fullscreen { Some(AppEffect::ToggleFullscreen) } else { None }
    }
}

} // verus!
