//! The window: its surface, its keys, its frames and how the player starts in it.

use sanctuary_player::app::state::AppState;
use sanctuary_player::app::update::UpdateEvents;
use sanctuary_player::desktop::{
    window_action, AppEvent, ControlFlow, RenderDiagnostics, SanctuaryPlayerApp, WindowAction,
    WindowEvent, ANIMATION_FRAME_INTERVAL_NANOS,
};
use sanctuary_player::input::{
    command_for_key, legacy_shift_insert_paste, pasted_text, KeyCode,
};
use sanctuary_player::model::AppCommand;
use sanctuary_player::playback::decode_mode::{DecodeMode, Platform};
use sanctuary_player::playback::wake::PlaybackWakeKind;
use sanctuary_player::session::{session_text, SessionState};
use sanctuary_player::surface::{
    after_shared_failure, device_error, device_request, next_surface_validation_recovery_attempt,
    plain_format, preferred_alpha_mode, preferred_format, Acquisition, AlphaMode, DeviceRequest,
    RenderFrame, RenderStatus, SurfaceError, SurfaceFormat, SurfaceState, SurfaceTexture,
};
use sanctuary_player::time::{Duration, Instant};
use sanctuary_player::video::VideoSource;

const START: Instant = Instant { nanos: 1_000_000_000_000 };

fn no_events() -> UpdateEvents {
    UpdateEvents { positions: None, saved: None }
}

#[test]
fn surface_validation_recovery_is_bounded() {
    assert_eq!(next_surface_validation_recovery_attempt(0), Some(1));
    assert_eq!(next_surface_validation_recovery_attempt(1), Some(2));
    assert_eq!(next_surface_validation_recovery_attempt(2), Some(3));
    assert_eq!(next_surface_validation_recovery_attempt(3), None);
    assert_eq!(next_surface_validation_recovery_attempt(u8::MAX), None);
}

#[test]
fn surface_gives_up_after_its_attempts_and_a_frame_restores_them() {
    let mut surface = SurfaceState::new(640, 480, 8_192);
    for _ in 0..3 {
        assert_eq!(
            surface.acquire(SurfaceTexture::Validation),
            Ok(Acquisition::Leave(RenderStatus::Reconfigure))
        );
    }
    assert_eq!(
        surface.acquire(SurfaceTexture::Validation),
        Err(SurfaceError::ValidationPersisted)
    );
    assert!(!SurfaceError::ValidationPersisted.message().is_empty());
    assert_eq!(
        surface.acquire(SurfaceTexture::Success),
        Ok(Acquisition::Draw { reconfigure_after_present: false })
    );
    assert_eq!(surface.validation_failures, 0);
    assert_eq!(
        surface.acquire(SurfaceTexture::Suboptimal),
        Ok(Acquisition::Draw { reconfigure_after_present: true })
    );
    assert_eq!(
        surface.acquire(SurfaceTexture::Timeout),
        Ok(Acquisition::Leave(RenderStatus::Skip))
    );
}

#[test]
fn surface_is_never_empty_nor_larger_than_the_device_can_show() {
    let mut surface = SurfaceState::new(0, 9_000, 8_192);
    assert_eq!((surface.width, surface.height), (1, 8_192));
    surface.resize(800, 600);
    assert_eq!((surface.width, surface.height), (800, 600));
}

#[test]
fn plain_formats_are_preferred() {
    let formats = vec![SurfaceFormat::Other(7), SurfaceFormat::Rgba8Unorm];
    assert_eq!(plain_format(&formats), Some(SurfaceFormat::Rgba8Unorm));
    assert_eq!(preferred_format(&formats), SurfaceFormat::Rgba8Unorm);
    assert_eq!(preferred_format(&vec![SurfaceFormat::Other(7)]), SurfaceFormat::Other(7));
    assert_eq!(
        preferred_alpha_mode(&vec![AlphaMode::Other(1), AlphaMode::Opaque]),
        AlphaMode::Opaque
    );
    assert_eq!(preferred_alpha_mode(&vec![AlphaMode::Other(1)]), AlphaMode::Other(1));
}

#[test]
fn direct_presentation_insists_on_the_shared_device() {
    assert_eq!(
        device_request(DecodeMode::VulkanDirect, Platform::Windows),
        DeviceRequest::SharedWithVideo
    );
    assert_eq!(device_request(DecodeMode::Cpu, Platform::Windows), DeviceRequest::Ordinary);
    assert_eq!(
        device_request(DecodeMode::VulkanDirect, Platform::Other),
        DeviceRequest::Ordinary
    );
    assert!(after_shared_failure(DecodeMode::VulkanDirect, "no queue".to_string()).is_err());
    assert_eq!(
        after_shared_failure(DecodeMode::Auto, "no queue".to_string()),
        Ok(DeviceRequest::Ordinary)
    );
    let shared = "no queue".to_string();
    let error = device_error(Some(&shared), &"no device".to_string());
    assert!(error.contains("no queue") && error.contains("no device"));
}

#[test]
fn frame_that_was_not_drawn_asks_for_nothing() {
    let frame = RenderFrame::status(RenderStatus::Skip);
    assert_eq!(frame.status, RenderStatus::Skip);
    assert!(frame.commands.is_empty());
    assert_eq!(frame.repaint_after, None);
    let frame = RenderFrame::presented(true, vec![AppCommand::Play], None);
    assert_eq!(frame.status, RenderStatus::Reconfigure);
    assert_eq!(frame.commands, vec![AppCommand::Play]);
}

#[test]
fn shift_insert_is_legacy_paste_on_supported_unix_desktops() {
    assert!(legacy_shift_insert_paste(true, true, true, KeyCode::Insert));
    assert!(!legacy_shift_insert_paste(false, true, true, KeyCode::Insert));
    assert!(!legacy_shift_insert_paste(true, false, true, KeyCode::Insert));
    assert!(!legacy_shift_insert_paste(true, true, false, KeyCode::Insert));
    assert!(!legacy_shift_insert_paste(true, true, true, KeyCode::Other));
}

#[test]
fn pasted_lines_end_alike() {
    assert_eq!(pasted_text("a\r\nb"), Some("a\nb".to_string()));
    assert_eq!(pasted_text(""), None);
}

#[test]
fn keyboard_shortcuts_map_to_shared_commands() {
    let mut state = AppState::new(START);
    state.apply(AppCommand::OpenVideo(VideoSource::parse("2386400830").unwrap()), START);
    assert_eq!(command_for_key(KeyCode::Space, &state), Some(AppCommand::TogglePlayback));
    assert_eq!(command_for_key(KeyCode::ArrowLeft, &state), Some(AppCommand::SeekRelative(-5)));
    assert_eq!(command_for_key(KeyCode::ArrowRight, &state), Some(AppCommand::SeekRelative(5)));
    assert_eq!(command_for_key(KeyCode::ArrowUp, &state), Some(AppCommand::SetPlaybackRate(150)));
    assert_eq!(
        command_for_key(KeyCode::ArrowDown, &state),
        Some(AppCommand::SetPlaybackRate(50))
    );
    assert_eq!(command_for_key(KeyCode::KeyF, &state), Some(AppCommand::ToggleFullscreen));
    assert_eq!(command_for_key(KeyCode::Other, &state), None);
}

#[test]
fn explicit_video_wins_and_discards_one_shot_restored_session() {
    let contents = session_text(&SessionState {
        source: VideoSource::parse("2386400830").unwrap(),
        position: Duration::from_secs(99),
    });
    let explicit = VideoSource::parse("2859508682").unwrap();
    let mut app =
        SanctuaryPlayerApp::with_initial_video_options(explicit.clone(), true, START);
    app.set_session_path("session.json".to_string(), Ok(Some(&contents))).unwrap();
    assert_eq!(app.take_startup_video(), Some((explicit, true)));
    assert_eq!(app.take_startup_video(), None);
}

#[test]
fn restored_session_starts_paused() {
    let contents = session_text(&SessionState {
        source: VideoSource::parse("2386400830").unwrap(),
        position: Duration::from_millis(12_345),
    });
    let mut app = SanctuaryPlayerApp::new(START);
    app.set_session_path("session.json".to_string(), Ok(Some(&contents))).unwrap();
    let (source, autoplay) = app.take_startup_video().unwrap();
    assert_eq!(source.id, "2386400830");
    assert_eq!(source.start_time, Some(Duration::from_millis(12_345)));
    assert!(!autoplay);
    assert_eq!(app.take_startup_video(), None);
}

#[test]
fn window_title_is_set_when_it_changes() {
    let mut app = SanctuaryPlayerApp::new(START);
    app.window_title = "another".to_string();
    assert_eq!(app.sync_window_title(), Some("Sanctuary Player".to_string()));
    assert_eq!(app.sync_window_title(), None);
}

#[test]
fn fullscreen_goes_to_the_window() {
    let mut app = SanctuaryPlayerApp::new(START);
    app.resumed("Sanctuary Player".to_string(), START);
    let update = app.apply_command(AppCommand::ToggleFullscreen, START);
    assert!(update.toggle_fullscreen);
    let update = app.key_pressed(Some(KeyCode::Space), START).unwrap();
    assert!(!update.toggle_fullscreen);
    assert!(app.key_pressed(None, START).is_none());
}

#[test]
fn used_up_and_repeated_keys_only_redraw() {
    let key = |pressed: bool, repeat: bool| WindowEvent::Key {
        code: Some(KeyCode::Space),
        pressed,
        repeat,
    };
    assert_eq!(window_action(key(true, false), false), WindowAction::Key(Some(KeyCode::Space)));
    assert_eq!(window_action(key(true, false), true), WindowAction::RequestRedraw);
    assert_eq!(window_action(key(true, true), false), WindowAction::RequestRedraw);
    assert_eq!(window_action(key(false, false), false), WindowAction::RequestRedraw);
    assert_eq!(window_action(WindowEvent::CloseRequested, true), WindowAction::Shutdown);
}

#[test]
fn idle_player_waits_and_an_animated_one_draws() {
    let mut app = SanctuaryPlayerApp::new(START);
    app.resumed("Sanctuary Player".to_string(), START);
    assert_eq!(app.about_to_wait(START), ControlFlow::Wait);

    app.apply_command(
        AppCommand::OpenVideo(VideoSource::parse("2386400830").unwrap()),
        START,
    );
    let later = START.after(Duration { nanos: ANIMATION_FRAME_INTERVAL_NANOS });
    assert_eq!(app.about_to_wait(later), ControlFlow::Redraw);
    assert_eq!(
        app.about_to_wait(later),
        ControlFlow::WaitUntil(later.after(Duration { nanos: ANIMATION_FRAME_INTERVAL_NANOS }))
    );
}

#[test]
fn control_messages_ask_for_a_frame() {
    let mut app = SanctuaryPlayerApp::new(START);
    app.set_event_proxy();
    app.resumed("Sanctuary Player".to_string(), START);
    app.state.playback_wake.wake(PlaybackWakeKind::Control);
    let pending = app.user_event(AppEvent::PlaybackWake).unwrap();
    assert!(pending.contains(PlaybackWakeKind::Control));
    let update = app.woken(pending, START, no_events());
    assert!(update.redraw);
}

#[test]
fn slow_frames_are_counted_and_reported() {
    let mut diagnostics = RenderDiagnostics::new(START);
    diagnostics.begin_redraw(START);
    assert_eq!(diagnostics.finish_redraw(START, START.after(Duration::from_millis(2))), None);
    diagnostics.begin_redraw(START.after(Duration::from_millis(25)));
    diagnostics.begin_redraw(START.after(Duration::from_millis(65)));
    assert_eq!(diagnostics.gaps_over_20ms, 2);
    assert_eq!(diagnostics.gaps_over_33ms, 1);
    assert_eq!(diagnostics.max_gap, Duration::from_millis(40));
    let finished = START.after(Duration::from_millis(1_000));
    let report = diagnostics
        .finish_redraw(START.after(Duration::from_millis(995)), finished)
        .unwrap();
    assert_eq!(report.redraws, 3);
    assert_eq!(report.redraw_work_total, Duration::from_millis(7));
    assert_eq!(report.max_redraw_work, Duration::from_millis(5));
}

#[test]
fn widgets_are_drawn_again_when_they_ask_for_it() {
    let mut app = SanctuaryPlayerApp::new(START);
    app.resumed("Sanctuary Player".to_string(), START);
    app.begin_frame(START, no_events());
    let redraw =
        app.frame_rendered(RenderStatus::Presented, Some(Duration::from_millis(100)), START);
    assert!(!redraw);
    let at = START.after(Duration::from_millis(100));
    assert_eq!(app.about_to_wait(START), ControlFlow::WaitUntil(at));
    assert_eq!(app.about_to_wait(at), ControlFlow::Redraw);
    app.closed();
    assert!(!app.has_window);
}
