//! The Android side: focus, screen, input, keyboard, bars, surface and video bridge.

use sanctuary_player::android::bars::{
    inset_source, safe_area, set_android_fullscreen, system_chrome_rects, AndroidSystemInsets,
    BarCall, ContentRect, InsetSource, SafeArea, ScreenRect,
};
use sanctuary_player::android::bridge::{
    direct_storage, spv_words, ycbcr_model, ycbcr_range, BridgeDevice, BridgeError,
    ExternalFormatKey, FenceStatus, FormatProperties, FrameStorage, MediaCodecVulkanBridge,
    OutputUse, VideoColorInfo, VideoColorRange, VideoMatrixCoefficients, YcbcrModel, YcbcrRange,
};
use sanctuary_player::android::focus::{
    starts_playback, AndroidMediaEvent, AndroidMediaFocus, AUDIOFOCUS_GAIN, AUDIOFOCUS_LOSS,
    AUDIOFOCUS_LOSS_TRANSIENT,
};
use sanctuary_player::android::gpu::{
    device_source, direct_presentation, mediacodec_direct_gpu_available, AndroidAcquisition,
    AndroidGpu, DeviceSource, GpuError, GpuFeatures,
};
use sanctuary_player::android::host::{
    min_timeout, AndroidHost, HostAction, HostEvent, RepaintSignal,
};
use sanctuary_player::android::ime::{AndroidIme, ImeAction};
use sanctuary_player::android::input::{
    AndroidInput, InputStatus, KeyAction, KeyMapChar, KeyPress, Keycode, Modifiers, MotionAction,
    Pointer, Pos, TouchPhase, UiEvent, UiKey,
};
use sanctuary_player::android::screen::AndroidScreenOn;
use sanctuary_player::android::utf16::{char_index_to_utf16, utf16_index_to_char};
use sanctuary_player::app::state::AppState;
use sanctuary_player::app::ui::{AndroidTextField, AndroidTextInputSnapshot, DialogState};
use sanctuary_player::model::{AppCommand, PlaybackState};
use sanctuary_player::surface::{SurfaceFormat, SurfaceTexture};
use sanctuary_player::time::{Duration, Instant};
use sanctuary_player::video::VideoSource;

const START: Instant = Instant { nanos: 1_000_000_000_000 };
const NO_MODIFIERS: Modifiers =
    Modifiers { alt: false, ctrl: false, shift: false, mac_cmd: false, command: false };

fn playing() -> AppState {
    let mut state = AppState::new(START);
    state.playback.open(&VideoSource::parse("2386400830").unwrap()).unwrap();
    state.apply(AppCommand::Play, START);
    state
}

#[test]
fn playback_pauses_without_focus_and_comes_back_with_it() {
    let mut state = playing();
    let mut focus = AndroidMediaFocus::new();
    assert!(focus.needs_request());
    assert!(focus.ensure_focus(true));
    assert!(!focus.needs_request());

    let loss = AndroidMediaEvent::AudioFocusChange(AUDIOFOCUS_LOSS_TRANSIENT);
    assert!(!focus.handle_event(&mut state, loss, START));
    assert_eq!(state.playback_state(), PlaybackState::Paused);
    let gain = AndroidMediaEvent::AudioFocusChange(AUDIOFOCUS_GAIN);
    focus.handle_event(&mut state, gain, START);
    assert_eq!(state.playback_state(), PlaybackState::Playing);
}

#[test]
fn playback_stays_paused_after_a_final_loss_or_when_headphones_go() {
    for event in [
        AndroidMediaEvent::AudioFocusChange(AUDIOFOCUS_LOSS),
        AndroidMediaEvent::BecomingNoisy,
    ] {
        let mut state = playing();
        let mut focus = AndroidMediaFocus::new();
        focus.ensure_focus(true);
        focus.handle_event(&mut state, event, START);
        assert_eq!(state.playback_state(), PlaybackState::Paused);
        let gain = AndroidMediaEvent::AudioFocusChange(AUDIOFOCUS_GAIN);
        focus.handle_event(&mut state, gain, START);
        assert_eq!(state.playback_state(), PlaybackState::Paused);
    }
}

#[test]
fn focus_that_is_not_held_is_not_given_back() {
    let mut focus = AndroidMediaFocus::new();
    assert!(!focus.abandon());
    assert!(!focus.ensure_focus(false));
    let mut state = playing();
    let change = AndroidMediaEvent::AudioFocusChange(AUDIOFOCUS_LOSS);
    assert!(!focus.handle_event(&mut state, change, START));
}

#[test]
fn commands_that_start_sound_are_known() {
    assert!(starts_playback(&AppCommand::Play, &PlaybackState::Paused));
    assert!(starts_playback(&AppCommand::TogglePlayback, &PlaybackState::Paused));
    assert!(!starts_playback(&AppCommand::TogglePlayback, &PlaybackState::Playing));
    assert!(!starts_playback(&AppCommand::Pause, &PlaybackState::Paused));
}

#[test]
fn screen_stays_on_only_while_a_shown_video_plays() {
    let state = playing();
    let mut screen = AndroidScreenOn::new();
    assert_eq!(screen.set_foreground(&state, true), Some(true));
    screen.told(true, true);
    assert_eq!(screen.sync(&state), None);
    assert_eq!(screen.set_foreground(&state, false), Some(false));
}

fn pointer(id: i32, x: f32) -> Pointer {
    Pointer { id, pos: Pos { x_bits: x.to_bits(), y_bits: 1.0f32.to_bits() } }
}

#[test]
fn finger_becomes_a_pointer_and_a_second_one_does_not() {
    let mut input = AndroidInput::new();
    let first = pointer(3, 10.0);
    let second = pointer(4, 20.0);
    let down = input.motion(1, MotionAction::Down, 0, &vec![first]);
    assert_eq!(down, InputStatus::Handled);
    assert_eq!(
        input.take_events(),
        vec![
            UiEvent::Touch { device: 1, id: 3, phase: TouchPhase::Start, pos: first.pos },
            UiEvent::PointerMoved(first.pos),
            UiEvent::PointerButton { pos: first.pos, pressed: true, modifiers: NO_MODIFIERS },
        ]
    );
    assert!(input.take_tap());
    assert!(!input.take_tap());

    input.motion(1, MotionAction::PointerDown, 1, &vec![first, second]);
    assert_eq!(
        input.take_events(),
        vec![UiEvent::Touch { device: 1, id: 4, phase: TouchPhase::Start, pos: second.pos }]
    );

    input.motion(1, MotionAction::Up, 0, &vec![first]);
    assert_eq!(
        input.take_events(),
        vec![
            UiEvent::Touch { device: 1, id: 3, phase: TouchPhase::End, pos: first.pos },
            UiEvent::PointerButton { pos: first.pos, pressed: false, modifiers: NO_MODIFIERS },
            UiEvent::PointerGone,
        ]
    );
    assert_eq!(input.primary_touch_id, None);
}

fn press(code: Keycode, mapped: KeyMapChar) -> KeyPress {
    KeyPress {
        device_id: 1,
        code,
        action: KeyAction::Down,
        alt: false,
        ctrl: false,
        shift: false,
        repeat_count: 0,
        mapped,
        combined: None,
    }
}

#[test]
fn letters_are_keys_and_texts() {
    let mut input = AndroidInput::new();
    let status = input.key(&press(Keycode::Other, KeyMapChar::Unicode('a')));
    assert_eq!(status, InputStatus::Handled);
    let events = input.take_events();
    assert_eq!(events.len(), 2);
    assert!(matches!(
        events[0],
        UiEvent::Key { key: UiKey::Named('a'), pressed: true, repeat: false, .. }
    ));
    assert_eq!(events[1], UiEvent::Text('a'));
}

#[test]
fn character_without_a_key_is_only_text() {
    let mut input = AndroidInput::new();
    input.key(&press(Keycode::Other, KeyMapChar::Unicode('é')));
    assert_eq!(input.take_events(), vec![UiEvent::Text('é')]);
}

#[test]
fn keys_without_a_keyboard_write_nothing() {
    let mut input = AndroidInput::new();
    let mut virtual_key = press(Keycode::Other, KeyMapChar::Unicode('a'));
    virtual_key.device_id = 0;
    assert_eq!(input.key(&virtual_key), InputStatus::Unhandled);
    assert!(input.take_events().is_empty());
}

#[test]
fn back_is_left_to_the_system() {
    let mut input = AndroidInput::new();
    let status = input.key(&press(Keycode::Back, KeyMapChar::Nothing));
    assert_eq!(status, InputStatus::Unhandled);
}

#[test]
fn accents_combine_with_the_next_letter() {
    let mut input = AndroidInput::new();
    input.key(&press(Keycode::Other, KeyMapChar::CombiningAccent('´')));
    input.take_events();
    let mut letter = press(Keycode::Other, KeyMapChar::Unicode('e'));
    assert_eq!(input.dead_key(&letter), Some(('´', 'e')));
    letter.combined = Some('é');
    input.key(&letter);
    assert!(input.take_events().contains(&UiEvent::Text('é')));
}

#[test]
fn action_key_is_enter() {
    let mut input = AndroidInput::new();
    assert_eq!(input.text_action(), InputStatus::Handled);
    let events = input.take_events();
    assert!(matches!(events[0], UiEvent::Key { key: UiKey::Enter, pressed: true, .. }));
    assert!(matches!(events[1], UiEvent::Key { key: UiKey::Enter, pressed: false, .. }));
}

#[test]
fn places_count_utf16_units() {
    assert_eq!(char_index_to_utf16("a😀b", 2), 3);
    assert_eq!(utf16_index_to_char("a😀b", 3), 2);
    assert_eq!(char_index_to_utf16("a😀b", 99), 4);
    assert_eq!(utf16_index_to_char("a😀b", 99), 3);
}

#[test]
fn keyboard_is_shown_for_a_field_and_put_away_after_it() {
    let mut ime = AndroidIme::new();
    let snapshot = AndroidTextInputSnapshot {
        field: AndroidTextField::SeekTo,
        text: "1😀".to_string(),
        selection_start: 2,
        selection_end: 2,
        clicked: true,
    };
    let actions = ime.update(Some(&snapshot), true);
    assert!(actions.iter().any(|action| matches!(
        action,
        ImeAction::SetTextState { text, start: 3, end: 3 } if text == "1😀"
    )));
    assert!(actions.iter().any(|action| matches!(action, ImeAction::Show { .. })));
    assert_eq!(ime.field, Some(AndroidTextField::SeekTo));

    let actions = ime.update(None, true);
    assert!(actions.iter().any(|action| matches!(action, ImeAction::Hide)));
    assert_eq!(ime.field, None);
}

#[test]
fn text_of_the_keyboard_reaches_the_field() {
    let mut ime = AndroidIme::new();
    let mut state = AppState::new(START);
    state.open_favourites_dialog();
    state.capture_android_text_edit(
        AndroidTextField::FavouriteQualities,
        "",
        Some((0, 0)),
        true,
        true,
    );
    ime.text_event(&mut state, "480p".to_string(), 4, 4, None);
    assert_eq!(
        state.ui.dialog,
        Some(DialogState::FavouriteQualities { input: "480p".to_string() })
    );
    assert_eq!(ime.text, Some("480p".to_string()));
}

#[test]
fn bars_are_hidden_as_the_version_wants_it() {
    assert_eq!(set_android_fullscreen(34, false, true), Vec::<BarCall>::new());
    assert_eq!(
        set_android_fullscreen(34, true, true),
        vec![
            BarCall::SetBehaviour(2),
            BarCall::SetAppearance { appearance: 0, mask: 24 },
            BarCall::Hide(3),
        ]
    );
    assert_eq!(set_android_fullscreen(29, true, true), vec![BarCall::SetVisibility(0x1706)]);
    assert_eq!(set_android_fullscreen(29, true, false), vec![BarCall::SetVisibility(0x2010)]);
    assert_eq!(set_android_fullscreen(25, true, false), vec![BarCall::SetVisibility(0x2000)]);
    assert_eq!(inset_source(true, 34), InsetSource::Hidden);
}

#[test]
fn margins_come_from_the_bars_or_from_the_content() {
    let content = ContentRect { left: 0, top: 60, right: 1_000, bottom: 1_900 };
    assert_eq!(
        safe_area(false, None, content, 1_000, 2_000),
        Some(SafeArea { left: 0, top: 60, right: 0, bottom: 100 })
    );
    let insets = AndroidSystemInsets { left: 1, top: -2, right: 3, bottom: 4 };
    assert_eq!(
        safe_area(false, Some(insets), content, 1_000, 2_000),
        Some(SafeArea { left: 1, top: 0, right: 3, bottom: 4 })
    );
    let empty = ContentRect { left: 0, top: 0, right: 0, bottom: 0 };
    assert_eq!(safe_area(false, None, empty, 1_000, 2_000), None);
    assert_eq!(
        safe_area(true, None, empty, 1_000, 2_000),
        Some(SafeArea { left: 0, top: 0, right: 0, bottom: 0 })
    );
}

#[test]
fn chrome_is_what_the_content_leaves() {
    let viewport = ScreenRect { left: 0, top: 0, right: 100, bottom: 200 };
    let content = ScreenRect { left: 0, top: 20, right: 100, bottom: 190 };
    let rects = system_chrome_rects(viewport, content);
    let area: i64 =
        rects.iter().map(|rect| (rect.right - rect.left) * (rect.bottom - rect.top)).sum();
    assert_eq!(area, 100 * 30);
    assert!(system_chrome_rects(viewport, viewport)
        .iter()
        .all(|rect| rect.right <= rect.left || rect.bottom <= rect.top));
}

#[test]
fn surface_keeps_its_format_in_a_new_window() {
    let formats = vec![SurfaceFormat::Rgba8Unorm];
    let mut gpu =
        AndroidGpu::new(0, 720, &formats, Some(SurfaceFormat::Other(1))).unwrap();
    assert_eq!(gpu.format, SurfaceFormat::Rgba8Unorm);
    assert_eq!(gpu.dimensions(), Some((1, 720)));
    gpu.detach_window();
    assert_eq!(gpu.dimensions(), None);
    assert!(matches!(gpu.acquire(SurfaceTexture::Success), Ok(AndroidAcquisition::Skip)));
    assert!(matches!(
        gpu.attach_window(10, 10, &vec![SurfaceFormat::Bgra8Unorm], true, "Rgba8Unorm".to_string()),
        Err(GpuError::FormatGone(_))
    ));
    gpu.attach_window(10, 10, &formats, true, "Rgba8Unorm".to_string()).unwrap();
    assert_eq!(gpu.dimensions(), Some((10, 10)));
    assert!(matches!(gpu.acquire(SurfaceTexture::Success), Ok(AndroidAcquisition::Draw)));
    assert!(matches!(
        AndroidGpu::new(1, 1, &formats, None),
        Err(GpuError::Incompatible)
    ));
    assert_eq!(
        GpuError::FormatGone("Rgba8Unorm".to_string()).message(),
        "recreated Android surface no longer supports Rgba8Unorm"
    );
}

#[test]
fn direct_presentation_needs_every_feature() {
    let all = GpuFeatures { nv12: true, vulkan: true, hardware_buffers: true, foreign_queues: true };
    assert!(mediacodec_direct_gpu_available(all));
    assert!(direct_presentation(all, false));
    assert!(!direct_presentation(all, true));
    assert!(!mediacodec_direct_gpu_available(GpuFeatures { foreign_queues: false, ..all }));
    assert_eq!(device_source(all, true), DeviceSource::Custom);
    assert_eq!(
        device_source(GpuFeatures { vulkan: false, ..all }, false),
        DeviceSource::Ordinary
    );
}

#[test]
fn shader_bytes_become_words() {
    let bytes = [0x03, 0x02, 0x23, 0x07, 1, 0, 0, 0];
    assert_eq!(spv_words(&bytes).unwrap(), vec![0x0723_0203, 1]);
    let swapped = [0x07, 0x23, 0x02, 0x03, 0, 0, 0, 1];
    assert_eq!(spv_words(&swapped).unwrap(), vec![0x0723_0203, 1]);
    assert!(spv_words(&[1, 2, 3]).is_err());
}

fn bridge() -> MediaCodecVulkanBridge {
    let properties = FormatProperties {
        key: ExternalFormatKey { format: 0, external_format: 9 },
        sampled: true,
        linear_filter: true,
        suggested_model: YcbcrModel::Ycbcr601,
        suggested_range: YcbcrRange::ItuNarrow,
    };
    let (bridge, conversion) =
        MediaCodecVulkanBridge::new(64, 32, 2, properties, None).unwrap();
    assert_eq!(conversion.external_format, Some(9));
    assert_eq!(conversion.model, YcbcrModel::Ycbcr601);
    bridge
}

#[test]
fn textures_in_use_are_passed_over() {
    let mut bridge = bridge();
    assert_eq!(bridge.dimensions(), (64, 32));
    assert_eq!(bridge.slot_count(), 2);
    let pending = vec![FenceStatus::Pending, FenceStatus::Pending];
    assert_eq!(bridge.first_available_slot(&pending, String::new()).unwrap(), Some(0));
    bridge.submitted(0);
    assert!(bridge.is_inflight(0));
    assert_eq!(bridge.first_available_slot(&pending, String::new()).unwrap(), Some(1));
    bridge.submitted(1);
    assert_eq!(bridge.first_available_slot(&pending, String::new()).unwrap(), None);
    let signalled = vec![FenceStatus::Signalled, FenceStatus::Pending];
    assert_eq!(bridge.first_available_slot(&signalled, String::new()).unwrap(), Some(0));
    assert!(!bridge.is_inflight(0));
}

#[test]
fn frames_of_another_shape_are_refused() {
    let bridge = bridge();
    let direct = FrameStorage::Direct { width: 64, height: 32 };
    assert!(bridge.check_frame(true, direct).is_ok());
    assert!(matches!(bridge.check_frame(false, direct), Err(BridgeError::SlotBusy)));
    let larger = FrameStorage::Direct { width: 128, height: 32 };
    assert!(matches!(bridge.check_frame(true, larger), Err(BridgeError::DimensionsChanged)));
    assert!(matches!(direct_storage(FrameStorage::Foreign), Err(BridgeError::ForeignStorage)));
    assert!(matches!(direct_storage(FrameStorage::Readback), Err(BridgeError::ReadbackImage)));
}

#[test]
fn change_of_format_is_named() {
    let bridge = bridge();
    let key = ExternalFormatKey { format: 37, external_format: 0 };
    let error = bridge.render_plan(0, key, 1).unwrap_err();
    let message = error.message();
    assert!(message.contains("R8G8B8A8_UNORM"), "{message}");
    assert!(message.contains("UNDEFINED"), "{message}");
    let known = ExternalFormatKey { format: 0, external_format: 9 };
    let plan = bridge.render_plan(0, known, 0b1100).unwrap();
    assert_eq!(plan.memory_type, 2);
    assert_eq!(plan.output, OutputUse::Attachment);
    assert!(matches!(bridge.render_plan(0, known, 0), Err(BridgeError::NoMemoryType)));
}

#[test]
fn bridge_is_prepared_only_on_a_device_that_can() {
    let device = BridgeDevice {
        nv12: true,
        vulkan_device: true,
        vulkan_queue: true,
        hardware_buffers: true,
        foreign_queues: true,
    };
    let frame = FrameStorage::Direct { width: 64, height: 32 };
    assert_eq!(MediaCodecVulkanBridge::prepare(frame, 2, device).unwrap(), (64, 32));
    assert!(matches!(
        MediaCodecVulkanBridge::prepare(frame, 0, device),
        Err(BridgeError::EmptyBridge)
    ));
    let without = BridgeDevice { hardware_buffers: false, ..device };
    assert!(matches!(
        MediaCodecVulkanBridge::prepare(frame, 2, without),
        Err(BridgeError::NoHardwareBuffers)
    ));
}

#[test]
fn colours_of_the_video_win_over_the_suggested_ones() {
    let color = VideoColorInfo {
        matrix: Some(VideoMatrixCoefficients::Bt709),
        range: Some(VideoColorRange::Full),
    };
    assert_eq!(ycbcr_model(Some(color), YcbcrModel::Ycbcr601), YcbcrModel::Ycbcr709);
    assert_eq!(ycbcr_range(Some(color), YcbcrRange::ItuNarrow), YcbcrRange::ItuFull);
    assert_eq!(ycbcr_model(None, YcbcrModel::Ycbcr601), YcbcrModel::Ycbcr601);
    assert_eq!(ycbcr_range(None, YcbcrRange::ItuNarrow), YcbcrRange::ItuNarrow);
}

#[test]
fn earlier_repaint_wins() {
    let mut signal = RepaintSignal::new(START);
    assert!(signal.take_if_due(START));
    signal.request(Duration::from_millis(50), START);
    signal.request(Duration::from_millis(20), START);
    signal.request(Duration::from_millis(80), START);
    assert_eq!(signal.timeout(START), Some(Duration::from_millis(20)));
    assert!(!signal.take_if_due(START));
    assert!(signal.take_if_due(START.after(Duration::from_millis(20))));
    assert_eq!(signal.timeout(START), None);
    assert_eq!(
        min_timeout(Some(Duration::from_secs(1)), None),
        Some(Duration::from_secs(1))
    );
}

#[test]
fn hidden_player_pauses_and_lets_go_of_everything() {
    let mut host = AndroidHost::new(playing(), START);
    host.media_focus.ensure_focus(true);
    let actions = host.handle(HostEvent::Pause, START);
    assert_eq!(host.state.playback_state(), PlaybackState::Paused);
    assert!(actions.contains(&HostAction::AbandonFocus));
    assert!(!host.media_focus.has_focus);
    assert!(host.running);
    host.handle(HostEvent::Destroy, START);
    assert!(!host.running);
}

#[test]
fn play_is_carried_out_only_with_the_right_to_make_a_sound() {
    let mut state = AppState::new(START);
    state.playback.open(&VideoSource::parse("2386400830").unwrap()).unwrap();
    let mut host = AndroidHost::new(state, START);
    assert!(host.must_ask_before(&AppCommand::Play));
    assert!(!host.must_ask_before(&AppCommand::Pause));
    host.apply_command(AppCommand::Play, false, START);
    assert_eq!(host.state.playback_state(), PlaybackState::Paused);
    host.apply_command(AppCommand::Play, true, START);
    assert_eq!(host.state.playback_state(), PlaybackState::Playing);
}

#[test]
fn input_is_answered_with_a_frame() {
    let mut host = AndroidHost::new(AppState::new(START), START);
    host.settle(START);
    host.repaint = RepaintSignal { deadline: None };
    assert_eq!(host.poll_timeout(START), None);
    host.handle(HostEvent::InputAvailable, START);
    host.settle(START);
    host.handle(HostEvent::RedrawNeeded, START);
    assert_eq!(host.poll_timeout(START), Some(Duration::zero()));
    host.frame_painted(false, Some(Duration::from_millis(30)), START);
    assert!(host.poll_timeout(START).is_some());
}
