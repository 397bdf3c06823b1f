//! The player as a whole: commands, saved positions, sessions, settings and the controls.

use sanctuary_player::app::saves::PositionSaveRequest;
use sanctuary_player::app::state::{AppEffect, AppRequest, AppState, OpenedVideo};
use sanctuary_player::app::ui::{DialogState, CONTROLS_HIDE_AFTER_NANOS};
use sanctuary_player::app::update::{video_metadata_from_twitch, ShutdownStep, UpdateEvents};
use sanctuary_player::model::{AppCommand, PlaybackState};
use sanctuary_player::playback::backend::PlaybackBackend;
use sanctuary_player::playback::decode_mode::DecodeMode;
use sanctuary_player::playback::dummy::DummyPlayback;
use sanctuary_player::services::dummy::{DummyMetadataService, DummyPositionService};
use sanctuary_player::services::{
    MetadataService, PositionService, SavedPosition, VideoMetadata,
};
use sanctuary_player::session::{session_text, SessionState, SessionStore};
use sanctuary_player::settings::settings_text;
use sanctuary_player::time::{Duration, Instant};
use sanctuary_player::video::VideoSource;

const START: Instant = Instant { nanos: 1_000_000_000_000 };
const VOD: &str = "2386400830";
const PUBLISHED_MILLIS: i64 = 1_788_870_896_000;

struct Opening {
    generation: u64,
    source: VideoSource,
    initial_qualities: String,
    decode_mode: DecodeMode,
    muted: bool,
}

/// The player with the outside world that it asks for things.
struct World {
    state: AppState,
    now: Instant,
    service: DummyPositionService,
    hold_saves: bool,
    calls: Vec<Duration>,
    settings_file: Option<String>,
    session_file: Option<String>,
    opening: Option<Opening>,
    fetched: Option<Result<Vec<SavedPosition>, String>>,
    saved: Option<Result<(), String>>,
}

impl World {
    fn new() -> Self {
        World {
            state: AppState::new(START),
            now: START,
            service: DummyPositionService::new(),
            hold_saves: false,
            calls: Vec::new(),
            settings_file: None,
            session_file: None,
            opening: None,
            fetched: None,
            saved: None,
        }
    }

    fn loaded() -> Self {
        let mut world = World::new();
        let source = VideoSource::parse(VOD).unwrap();
        world.state.playback.open(&source).unwrap();
        world.state.metadata = Some(DummyMetadataService.metadata_for(&source));
        world
    }

    fn save(&mut self, request: &PositionSaveRequest) {
        self.service
            .save_position(
                &request.user_id,
                &request.device_id,
                &request.source,
                request.position,
            )
            .unwrap();
        self.saved = Some(Ok(()));
    }

    fn serve(&mut self) {
        for request in self.state.take_requests() {
            match request {
                AppRequest::OpenVideo {
                    generation,
                    source,
                    initial_qualities,
                    decode_mode,
                    muted,
                } => {
                    self.opening =
                        Some(Opening { generation, source, initial_qualities, decode_mode, muted });
                }
                AppRequest::FetchPositions(user) => {
                    self.fetched = Some(self.service.positions(&user));
                }
                AppRequest::SavePosition(request) => {
                    self.calls.push(request.position);
                    if !self.hold_saves {
                        self.save(&request);
                    }
                }
                AppRequest::WriteSettings(settings) => {
                    self.settings_file = Some(settings_text(&settings));
                }
                AppRequest::WriteSession(write) => {
                    self.session_file = Some(session_text(&write.session));
                }
            }
        }
    }

    fn apply(&mut self, command: AppCommand) -> Option<AppEffect> {
        let effect = self.state.apply(command, self.now);
        self.serve();
        effect
    }

    fn update(&mut self, elapsed: Duration) {
        self.serve();
        let events = UpdateEvents { positions: self.fetched.take(), saved: self.saved.take() };
        self.now = self.now.after(Duration::from_millis(1));
        self.state.update(elapsed, self.now, events);
        self.serve();
    }

    fn finish_opening(&mut self, result: Result<OpenedVideo, String>) {
        let generation = self.opening.take().expect("a video is being opened").generation;
        self.state.finish_video_open(generation, result, self.now);
        self.serve();
    }

    fn seeking(&self) -> bool {
        matches!(self.state.playback_state(), PlaybackState::Seeking)
    }

    fn position(&self) -> Duration {
        self.state.position(self.now)
    }

    fn settle_position_saves(&mut self) {
        for _ in 0..500 {
            self.update(Duration::from_millis(200));
            if self.state.saver.pending.is_none()
                && self.state.saver.queue.is_empty()
                && !self.seeking()
            {
                return;
            }
        }
        panic!("position save did not settle");
    }

    fn settle_opened_video(&mut self) {
        for _ in 0..100 {
            self.update(Duration::from_millis(200));
            if !self.seeking() {
                return;
            }
        }
        panic!("the seek did not end");
    }

    fn sign_in(&mut self, device: &str) {
        self.apply(AppCommand::SignIn {
            user_id: "test-user".to_string(),
            device_id: device.to_string(),
        });
    }

    fn saved_position(&self) -> Option<Duration> {
        self.service
            .positions("test-user")
            .unwrap()
            .into_iter()
            .find(|entry| entry.device_id == "Native" && entry.source.id == VOD)
            .map(|entry| entry.position)
    }
}

fn opened(source: &VideoSource, with_metadata: bool) -> OpenedVideo {
    let mut playback = DummyPlayback::new();
    playback.open(source);
    let metadata = if with_metadata {
        let now = Duration::from_millis(PUBLISHED_MILLIS as u64 + 2 * 24 * 3_600_000);
        Some(video_metadata_from_twitch(
            "HLE vs CFO - Game 5".to_string(),
            PUBLISHED_MILLIS,
            Some(now),
        ))
    } else {
        None
    };
    OpenedVideo { playback: PlaybackBackend::Dummy(playback), metadata }
}

/// A backend that starts at the beginning, whatever its source says.
fn opened_at_zero(source: &VideoSource) -> OpenedVideo {
    let mut playback = DummyPlayback::new();
    playback.open(source);
    playback.set_quality("480p");
    playback.seek(Duration::zero());
    playback.update(Duration::from_secs(1));
    OpenedVideo { playback: PlaybackBackend::Dummy(playback), metadata: None }
}

#[test]
fn video_start_time_survives_initial_favourite_quality_selection() {
    let mut world = World::new();
    world.state.preferences.favourite_qualities = "480p".to_string();
    let source = VideoSource::parse("https://www.twitch.tv/videos/2386400830?t=5m").unwrap();
    world.apply(AppCommand::OpenVideo(source));
    let opening = world.opening.as_ref().unwrap();
    assert_eq!(opening.initial_qualities, "480p");
    let result = opened_at_zero(&opening.source);
    world.finish_opening(Ok(result));
    world.settle_opened_video();

    assert!(world.state.pending_video_open.is_none());
    assert_eq!(world.state.playback_state(), PlaybackState::Paused);
    assert_eq!(world.position(), Duration::from_secs(300));
    assert_eq!(world.state.quality().unwrap().id, "480p");
}

#[test]
fn youtube_open_reports_currently_unsupported() {
    let mut world = World::new();
    world.apply(AppCommand::OpenVideo(VideoSource::parse("3fgD9k8Hkbc").unwrap()));
    match &world.state.ui.dialog {
        Some(DialogState::Message { title, message }) => {
            assert!(title.contains("YouTube") && message.contains("unsupported"));
        }
        _ => panic!("a message is shown"),
    }
    assert!(world.state.pending_video_open.is_none());
    assert!(!world.state.has_video());
}

#[test]
fn twitch_open_resolves_hls_url_without_blocking_the_command() {
    let mut world = World::new();
    world.apply(AppCommand::OpenVideo(VideoSource::parse(VOD).unwrap()));
    assert!(world.state.pending_video_open.is_some());
    assert!(world.state.needs_animation());
    assert!(matches!(world.state.ui.dialog, Some(DialogState::TwitchResolving { .. })));

    let result = opened(&world.opening.as_ref().unwrap().source, true);
    world.finish_opening(Ok(result));

    assert!(world.state.pending_video_open.is_none());
    assert!(world.state.ui.dialog.is_none());
    assert!(world.state.has_video());
    assert_eq!(world.state.safe_title().as_deref(), Some("_ vs _ - Game _"));
    assert!(world.state.release_age().unwrap().nanos > Duration::from_secs(24 * 3600).nanos);
    assert_eq!(world.state.window_title(), "_ vs _ - Game _ - Sanctuary Player");
}

#[test]
fn window_title_falls_back_without_usable_metadata() {
    let mut state = AppState::new(START);
    assert_eq!(state.window_title(), "Sanctuary Player");
    state.metadata =
        Some(VideoMetadata { title: "   ".to_string(), release_age: Duration::zero() });
    assert_eq!(state.window_title(), "Sanctuary Player");
}

#[test]
fn opening_new_video_clears_previous_window_title_until_metadata_arrives() {
    let mut world = World::new();
    world.state.metadata = Some(VideoMetadata {
        title: "Alpha vs Beta - Game 3".to_string(),
        release_age: Duration::zero(),
    });
    assert_eq!(world.state.window_title(), "_ vs _ - Game _ - Sanctuary Player");
    world.apply(AppCommand::OpenVideo(VideoSource::parse(VOD).unwrap()));
    assert!(world.state.pending_video_open.is_some());
    assert_eq!(world.state.window_title(), "Sanctuary Player");
}

#[test]
fn mute_option_is_forwarded_to_playback_factory() {
    let mut world = World::new();
    world.state.set_muted(true);
    world.apply(AppCommand::OpenVideo(VideoSource::parse(VOD).unwrap()));
    let opening = world.opening.as_ref().unwrap();
    assert!(opening.muted);
    assert_eq!(opening.decode_mode, DecodeMode::Cpu);
    let result = opened(&opening.source, false);
    world.finish_opening(Ok(result));
    assert!(world.state.pending_video_open.is_none());
    assert!(world.state.has_video());
}

#[test]
fn missing_twitch_metadata_does_not_block_video_open() {
    let mut world = World::new();
    world.apply(AppCommand::OpenVideo(VideoSource::parse(VOD).unwrap()));
    let result = opened(&world.opening.as_ref().unwrap().source, false);
    world.finish_opening(Ok(result));
    assert!(world.state.has_video());
    assert_eq!(world.state.safe_title(), None);
    assert_eq!(world.state.window_title(), "Sanctuary Player");
    assert_eq!(world.state.release_age(), None);
}

#[test]
fn autoplay_starts_after_async_video_open_completes() {
    let mut world = World::new();
    world.state.play_when_opened();
    world.apply(AppCommand::OpenVideo(VideoSource::parse(VOD).unwrap()));
    let result = opened(&world.opening.as_ref().unwrap().source, true);
    world.finish_opening(Ok(result));
    assert!(world.state.pending_video_open.is_none());
    assert_eq!(world.state.playback_state(), PlaybackState::Playing);
    assert!(!world.state.play_when_opened);
}

#[test]
fn failed_open_shows_why() {
    let mut world = World::new();
    world.apply(AppCommand::OpenVideo(VideoSource::parse(VOD).unwrap()));
    world.finish_opening(Err("no such video".to_string()));
    assert!(world.state.pending_video_open.is_none());
    match &world.state.ui.dialog {
        Some(DialogState::Message { message, .. }) => assert!(message.contains("no such video")),
        _ => panic!("a message is shown"),
    }
}

#[test]
fn result_of_an_overtaken_open_is_ignored() {
    let mut world = World::new();
    world.apply(AppCommand::OpenVideo(VideoSource::parse(VOD).unwrap()));
    let first = world.opening.take().unwrap();
    world.apply(AppCommand::OpenVideo(VideoSource::parse("2859508682").unwrap()));
    let late = opened(&first.source, true);
    world.state.finish_video_open(first.generation, Ok(late), START);
    assert!(world.state.pending_video_open.is_some());
    assert!(!world.state.has_video());
}

#[test]
fn commands_drive_dummy_backend() {
    let mut world = World::loaded();
    world.apply(AppCommand::TogglePlayback);
    world.update(Duration::from_secs(2));
    assert_eq!(world.position(), Duration::from_secs(2));
    world.apply(AppCommand::SeekRelative(60));
    assert_eq!(world.position(), Duration::from_secs(62));
    assert_eq!(world.state.playback_state(), PlaybackState::Seeking);
}

#[test]
fn controls_auto_hide_only_while_playing() {
    let mut world = World::loaded();
    world.update(Duration::from_secs(10));
    assert!(world.state.ui.controls.visible);
    world.apply(AppCommand::Play);
    world.update(Duration { nanos: CONTROLS_HIDE_AFTER_NANOS });
    assert!(!world.state.ui.controls.visible);
    world.state.note_interaction();
    assert!(world.state.ui.controls.visible);
}

#[test]
fn lock_drag_keeps_controls_visible_while_playing() {
    let mut world = World::loaded();
    world.apply(AppCommand::Play);
    world.state.begin_lock_drag();
    world.update(Duration::from_secs(10));
    assert!(world.state.ui.controls.visible);
    world.state.end_lock_drag();
}

#[test]
fn playback_does_not_enable_polling_animation() {
    let mut world = World::loaded();
    world.apply(AppCommand::Play);
    assert!(matches!(world.state.playback_state(), PlaybackState::Playing));
    assert!(!world.state.needs_animation());
}

#[test]
fn lock_slider_returns_over_web_transition_duration() {
    let mut world = World::loaded();
    world.state.begin_lock_drag();
    world.state.set_lock_drag_delta(800_000);
    assert!(!world.state.end_lock_drag());
    assert!(world.state.needs_animation());

    world.update(Duration::from_millis(250));
    assert_eq!(world.state.ui.controls.drag_fraction, 400_000);

    world.update(Duration::from_millis(250));
    assert_eq!(world.state.ui.controls.drag_fraction, 0);
    assert!(world.state.ui.controls.return_from.is_none());
    assert!(!world.state.needs_animation());
}

#[test]
fn lock_slider_regrab_continues_from_return_position() {
    let mut world = World::loaded();
    world.state.begin_lock_drag();
    world.state.set_lock_drag_delta(800_000);
    assert!(!world.state.end_lock_drag());
    world.update(Duration::from_millis(250));
    assert_eq!(world.state.ui.controls.drag_fraction, 400_000);

    world.state.begin_lock_drag();
    world.state.set_lock_drag_delta(100_000);
    assert_eq!(world.state.ui.controls.drag_fraction, 500_000);
    assert!(world.state.ui.controls.return_from.is_none());
}

#[test]
fn lock_slider_at_its_end_toggles_the_lock() {
    let mut world = World::loaded();
    world.state.begin_lock_drag();
    world.state.set_lock_drag_delta(5_000_000);
    assert_eq!(world.state.ui.controls.drag_fraction, 1_000_000);
    assert!(world.state.end_lock_drag());
}

#[test]
fn manual_control_visibility_toggle_survives_paused_updates() {
    let mut world = World::loaded();
    world.state.ui.controls.menu_open = true;

    world.apply(AppCommand::ToggleControlsVisibility);
    assert!(!world.state.ui.controls.visible);
    assert!(!world.state.ui.controls.menu_open);

    world.update(Duration::from_secs(10));
    assert!(!world.state.ui.controls.visible);

    world.apply(AppCommand::ToggleControlsVisibility);
    assert!(world.state.ui.controls.visible);

    world.apply(AppCommand::ToggleControlsLock);
    world.apply(AppCommand::ToggleControlsVisibility);
    assert!(!world.state.ui.controls.visible);
}

#[test]
fn favourite_quality_is_applied_until_user_overrides_it() {
    let mut world = World::loaded();
    world.apply(AppCommand::SetFavouriteQualities("1080p60,720p60".to_string()));
    assert_eq!(world.state.quality().unwrap().id, "1080p60");
    world.apply(AppCommand::SetQuality("480p".to_string()));
    world.apply(AppCommand::SetFavouriteQualities("source".to_string()));
    assert_eq!(world.state.quality().unwrap().id, "480p");
}

#[test]
fn local_session_restores_position_with_initial_favourite_quality_without_account() {
    let contents = session_text(&SessionState {
        source: VideoSource::parse(VOD).unwrap(),
        position: Duration::from_millis(12_345),
    });
    let mut world = World::new();
    world.session_file = Some(contents.clone());
    world.state.preferences.favourite_qualities = "480p".to_string();
    world.state.set_session_path("session.json".to_string(), Ok(Some(&contents))).unwrap();
    let restored = world.state.take_startup_session_source().unwrap();
    assert_eq!(restored.id, VOD);
    assert_eq!(restored.start_time, Some(Duration::from_millis(12_345)));
    assert!(!world.state.signed_in());

    world.apply(AppCommand::OpenVideo(restored));
    assert_eq!(world.opening.as_ref().unwrap().initial_qualities, "480p");
    let result = opened_at_zero(&world.opening.as_ref().unwrap().source);
    world.finish_opening(Ok(result));
    world.settle_opened_video();

    assert!(world.state.pending_video_open.is_none());
    assert_eq!(world.state.playback_state(), PlaybackState::Paused);
    assert_eq!(world.position(), Duration::from_millis(12_345));
    assert_eq!(world.state.quality().unwrap().id, "480p");
    let store = SessionStore::new("session.json".to_string());
    assert_eq!(
        store.load(Ok(world.session_file.as_deref())).unwrap().unwrap().position,
        Duration::from_millis(12_345)
    );
}

#[test]
fn pausing_flushes_precise_local_session_position() {
    let mut world = World::loaded();
    world.state.set_session_path("session.json".to_string(), Ok(None)).unwrap();

    world.apply(AppCommand::SeekAbsolute(Duration::from_millis(12_345)));
    world.update(Duration::from_secs(1));
    world.apply(AppCommand::Play);
    world.update(Duration::from_millis(321));
    let expected = world.position();
    world.apply(AppCommand::Pause);

    let store = SessionStore::new("session.json".to_string());
    let saved = store.load(Ok(world.session_file.as_deref())).unwrap().unwrap();
    assert_eq!(saved.source.id, VOD);
    assert_eq!(saved.source.start_time, None);
    assert_eq!(saved.position, expected);
}

#[test]
fn session_that_was_not_written_is_written_again() {
    let mut world = World::loaded();
    world.state.set_session_path("session.json".to_string(), Ok(None)).unwrap();
    world.state.apply(AppCommand::SeekAbsolute(Duration::from_secs(7)), START);
    let events = UpdateEvents { positions: None, saved: None };
    world.state.update(Duration::from_secs(1), START, events);
    world.state.flush_local_session(START);
    let mut failed = false;
    for request in world.state.take_requests() {
        if let AppRequest::WriteSession(write) = request {
            world.state.session_write_failed(write);
            failed = true;
        }
    }
    assert!(failed);
    world.state.flush_local_session(START);
    world.serve();
    let store = SessionStore::new("session.json".to_string());
    let saved = store.load(Ok(world.session_file.as_deref())).unwrap().unwrap();
    assert_eq!(saved.position, Duration::from_secs(7));
}

#[test]
fn persisted_account_and_favourites_are_restored_on_restart() {
    let mut first = World::new();
    first.state.set_settings_path("settings.json".to_string(), Ok(None)).unwrap();
    first.sign_in("test-device");
    first.apply(AppCommand::SetFavouriteQualities("1080p60,720p60".to_string()));

    let mut second = AppState::new(START);
    second
        .set_settings_path("settings.json".to_string(), Ok(first.settings_file.as_deref()))
        .unwrap();
    assert!(second.signed_in());
    assert_eq!(second.user_id().map(String::as_str), Some("test-user"));
    assert_eq!(second.device_id().map(String::as_str), Some("test-device"));
    assert_eq!(second.favourite_qualities(), "1080p60,720p60");
    assert!(second.cache.refresh_requested);
}

#[test]
fn sign_out_clears_persisted_account_but_keeps_preferences() {
    let mut first = World::new();
    first.state.set_settings_path("settings.json".to_string(), Ok(None)).unwrap();
    first.sign_in("test-device");
    first.apply(AppCommand::SetFavouriteQualities("720p60".to_string()));
    first.apply(AppCommand::SignOut);

    let mut second = AppState::new(START);
    second
        .set_settings_path("settings.json".to_string(), Ok(first.settings_file.as_deref()))
        .unwrap();
    assert!(!second.signed_in());
    assert_eq!(second.user_id(), None);
    assert_eq!(second.device_id(), None);
    assert_eq!(second.favourite_qualities(), "720p60");
    assert!(!second.cache.refresh_requested);
}

#[test]
fn saved_positions_hide_only_redundant_current_device_row() {
    let mut world = World::loaded();
    world.state.account.user_id = Some("test-user".to_string());
    world.state.account.device_id = Some("Native".to_string());
    world.apply(AppCommand::SeekAbsolute(Duration::from_secs(100)));
    world.update(Duration::from_secs(1));

    let entry = |device: &str, seconds: u64| SavedPosition {
        source: VideoSource::parse(VOD).unwrap(),
        device_id: device.to_string(),
        position: Duration::from_secs(seconds),
        modified_age: Duration::zero(),
        title: None,
        release_age: None,
    };
    world.state.cache.positions =
        vec![entry("Native", 95), entry("Phone", 95), entry("Native", 80)];

    let visible = world.state.saved_positions(world.now);
    assert_eq!(visible.len(), 2);
    assert!(visible.iter().any(|entry| entry.device_id == "Phone"));
    assert!(visible.iter().any(|entry| {
        entry.device_id == "Native" && entry.position == Duration::from_secs(80)
    }));
}

#[test]
fn sign_in_fetches_saved_positions_without_blocking() {
    let mut world = World::loaded();
    assert!(world.state.saved_positions(world.now).is_empty());
    world.sign_in("Desktop");
    assert!(world.state.saved_positions_loading());
    for _ in 0..100 {
        world.update(Duration::zero());
        if !world.state.saved_positions_loading() {
            break;
        }
    }
    assert!(!world.state.saved_positions_loading());
    assert_eq!(world.state.saved_positions(world.now).len(), 3);
}

#[test]
fn paused_position_uploads_even_below_normal_ten_second_delta() {
    let mut world = World::loaded();
    world.sign_in("Native");
    world.apply(AppCommand::SeekAbsolute(Duration::from_secs(100)));
    world.settle_position_saves();

    world.apply(AppCommand::SeekAbsolute(Duration::from_secs(105)));
    world.settle_position_saves();
    assert_eq!(world.saved_position(), Some(Duration::from_secs(100)));

    world.apply(AppCommand::Pause);
    world.state.saver.pause_due = Some(world.now);
    world.settle_position_saves();
    assert_eq!(world.saved_position(), Some(Duration::from_secs(105)));
}

#[test]
fn forced_position_coalesces_behind_in_flight_upload() {
    let mut world = World::loaded();
    world.hold_saves = true;
    world.sign_in("Native");

    world.apply(AppCommand::SeekAbsolute(Duration::from_secs(100)));
    world.update(Duration::from_secs(1));
    world.update(Duration::zero());
    assert_eq!(world.calls, vec![Duration::from_secs(100)]);
    assert!(world.state.saver.pending.is_some());

    world.apply(AppCommand::SeekAbsolute(Duration::from_secs(105)));
    world.update(Duration::from_secs(1));
    world.state.force_remote_position_save(world.now);
    world.apply(AppCommand::SeekAbsolute(Duration::from_secs(106)));
    world.update(Duration::from_secs(1));
    world.state.force_remote_position_save(world.now);

    assert_eq!(world.state.saver.queue.len(), 1);
    assert_eq!(world.state.saver.queue[0].position, Duration::from_secs(106));

    world.hold_saves = false;
    world.saved = Some(Ok(()));
    world.settle_position_saves();
    assert_eq!(world.calls, vec![Duration::from_secs(100), Duration::from_secs(106)]);
}

#[test]
fn shutdown_flushes_latest_position_below_normal_delta() {
    let mut world = World::loaded();
    world.sign_in("Native");
    world.apply(AppCommand::SeekAbsolute(Duration::from_secs(100)));
    world.settle_position_saves();
    world.apply(AppCommand::SeekAbsolute(Duration::from_secs(105)));
    world.settle_position_saves();

    world.state.flush_persistence_for_background(world.now);
    world.serve();
    let deadline = world.now.after(Duration::from_secs(1));
    for _ in 0..10 {
        match world.state.shutdown_step(world.now, deadline) {
            ShutdownStep::Done => break,
            ShutdownStep::Wait(_) => {
                world.serve();
                let sent = world.saved.take();
                world.state.shutdown_save_completed(matches!(sent, Some(Ok(()))), world.now);
            }
        }
        world.serve();
    }
    assert_eq!(world.saved_position(), Some(Duration::from_secs(105)));
}

#[test]
fn progress_uploads_after_more_than_ten_seconds_from_last_success() {
    let mut world = World::loaded();
    world.sign_in("Native");
    world.apply(AppCommand::SeekAbsolute(Duration::from_secs(100)));
    world.settle_position_saves();
    assert_eq!(world.saved_position(), Some(Duration::from_secs(100)));

    world.apply(AppCommand::SeekAbsolute(Duration::from_secs(105)));
    world.settle_position_saves();
    assert_eq!(world.saved_position(), Some(Duration::from_secs(100)));

    world.apply(AppCommand::SeekAbsolute(Duration::from_secs(112)));
    world.settle_position_saves();
    assert_eq!(world.saved_position(), Some(Duration::from_secs(112)));
}

#[test]
fn failed_upload_is_tried_again_after_a_while() {
    let mut world = World::loaded();
    world.hold_saves = true;
    world.sign_in("Native");
    world.apply(AppCommand::SeekAbsolute(Duration::from_secs(100)));
    world.update(Duration::from_secs(1));
    world.update(Duration::zero());
    world.saved = Some(Err("offline".to_string()));
    world.update(Duration::zero());
    assert_eq!(world.calls.len(), 1);
    assert!(world.state.saver.pending.is_none());
    world.now = world.now.after(Duration::from_secs(6));
    world.update(Duration::zero());
    assert_eq!(world.calls, vec![Duration::from_secs(100), Duration::from_secs(100)]);
}

#[test]
fn ended_video_does_not_restart_when_toggle_is_pressed() {
    let mut world = World::loaded();
    let duration = world.state.duration().unwrap();
    world.apply(AppCommand::SeekAbsolute(duration));
    world.update(Duration::from_secs(1));
    assert_eq!(world.state.playback_state(), PlaybackState::Ended);
    let ended_position = world.position();
    world.apply(AppCommand::TogglePlayback);
    world.update(Duration::from_secs(1));
    assert_eq!(world.state.playback_state(), PlaybackState::Ended);
    assert_eq!(world.position(), ended_position);
}

#[test]
fn locked_controls_block_commands_until_unlocked() {
    let mut world = World::loaded();
    world.apply(AppCommand::ToggleControlsLock);
    assert!(world.state.ui.controls.locked);
    world.apply(AppCommand::Play);
    world.update(Duration::from_secs(2));
    assert_eq!(world.position(), Duration::zero());
    world.apply(AppCommand::SeekRelative(60));
    assert_eq!(world.position(), Duration::zero());
    world.apply(AppCommand::ToggleControlsLock);
    world.apply(AppCommand::Play);
    world.update(Duration::from_secs(2));
    assert_eq!(world.position(), Duration::from_secs(2));
}

#[test]
fn adjacent_rate_stops_at_available_rate_boundaries() {
    let mut world = World::loaded();
    assert_eq!(world.state.adjacent_playback_rate(1), Some(150));
    world.apply(AppCommand::SetPlaybackRate(200));
    assert_eq!(world.state.adjacent_playback_rate(1), None);
    assert_eq!(world.state.adjacent_playback_rate(-1), Some(150));
}

#[test]
fn fullscreen_command_is_returned_as_platform_effect() {
    let mut world = World::new();
    assert_eq!(world.apply(AppCommand::ToggleFullscreen), Some(AppEffect::ToggleFullscreen));
    assert_eq!(world.apply(AppCommand::Pause), None);
}

#[test]
fn debug_information_is_shown_and_put_away() {
    let mut world = World::new();
    assert!(!world.state.debug_info_visible());
    world.apply(AppCommand::ToggleDebugInfo);
    assert!(world.state.debug_info_visible());
    world.apply(AppCommand::ToggleDebugInfo);
    assert!(!world.state.debug_info_visible());
}

#[test]
fn interrupted_playback_goes_on_afterwards() {
    let mut world = World::loaded();
    world.apply(AppCommand::Play);
    assert!(world.state.pause_for_platform_interruption(world.now));
    assert_eq!(world.state.playback_state(), PlaybackState::Paused);
    world.state.resume_after_platform_interruption(world.now);
    assert_eq!(world.state.playback_state(), PlaybackState::Playing);
}

#[test]
fn interruption_of_a_paused_video_is_nothing_to_make_up_for() {
    let mut world = World::loaded();
    assert!(!world.state.pause_for_platform_interruption(world.now));
    assert_eq!(world.state.playback_state(), PlaybackState::Paused);
}

#[test]
fn broken_settings_are_reported_and_change_nothing() {
    let mut state = AppState::new(START);
    assert!(state.set_settings_path("settings.json".to_string(), Ok(Some("{"))).is_err());
    assert!(!state.signed_in());
    assert_eq!(state.favourite_qualities(), "");
    assert_eq!(
        state.set_settings_path("settings.json".to_string(), Err("offline")),
        Err("read settings settings.json: offline".to_string())
    );
    assert_eq!(state.settings_store.as_ref().unwrap().path(), "settings.json");
}

#[test]
fn dialogs_open_with_what_is_known() {
    let mut world = World::loaded();
    world.apply(AppCommand::SeekAbsolute(Duration::from_secs(3_723)));
    world.update(Duration::from_secs(1));
    world.state.open_seek_dialog(world.now);
    match &world.state.ui.dialog {
        Some(DialogState::SeekTo { error: None, .. }) => {}
        _ => panic!("the dialog for a time is shown"),
    }
    world.state.close_dialog();
    assert!(world.state.ui.dialog.is_none());
}
