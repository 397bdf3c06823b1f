use sanctuary_player::model::{DebugGraph, PlaybackState};
use sanctuary_player::playback::clock::VideoClock;
use sanctuary_player::playback::decode_mode::DecodeMode;
use sanctuary_player::playback::dummy::{DummyPlayback, DUMMY_DURATION_NANOS, SEEK_DELAY_NANOS};
use sanctuary_player::playback::wake::{PendingPlaybackWakes, PlaybackWake, PlaybackWakeKind};
use sanctuary_player::time::Duration;
use sanctuary_player::video::VideoSource;

const SEEK_DELAY: Duration = Duration { nanos: SEEK_DELAY_NANOS };

fn source() -> VideoSource {
    VideoSource::parse("https://twitch.tv/videos/2386400830?t=1h").unwrap()
}

#[test]
fn opens_at_requested_start_time_and_starts_paused() {
    let mut player = DummyPlayback::new();
    player.open(&source());
    assert_eq!(player.position(), Duration::from_secs(3600));
    assert_eq!(player.transport.state, PlaybackState::Paused);
}

#[test]
fn play_advances_using_playback_rate() {
    let mut player = DummyPlayback::new();
    player.open(&source());
    player.set_playback_rate(200);
    player.play();
    player.update(Duration::from_secs(3));
    assert_eq!(player.position(), Duration::from_secs(3606));
}

#[test]
fn seeking_exposes_target_immediately_then_resumes_prior_state() {
    let mut player = DummyPlayback::new();
    player.open(&source());
    player.play();
    player.seek(Duration::from_secs(5000));
    assert_eq!(player.transport.state, PlaybackState::Seeking);
    assert_eq!(player.position(), Duration::from_secs(5000));
    player.update(SEEK_DELAY);
    assert_eq!(player.transport.state, PlaybackState::Playing);
    assert_eq!(player.position(), Duration::from_secs(5000));
}

#[test]
fn paused_seek_stays_paused_and_clamps_to_duration() {
    let mut player = DummyPlayback::new();
    player.open(&source());
    player.seek(Duration::from_secs(99_999));
    player.update(SEEK_DELAY);
    assert_eq!(player.position(), Duration { nanos: DUMMY_DURATION_NANOS });
    assert_eq!(player.transport.state, PlaybackState::Ended);
}

#[test]
fn quality_selection_changes_only_to_known_values() {
    let mut player = DummyPlayback::new();
    player.open(&source());
    assert_eq!(player.quality().unwrap().id, "720p60");
    player.set_quality("1080p60");
    assert_eq!(player.quality().unwrap().id, "1080p60");
    player.set_quality("imaginary");
    assert_eq!(player.quality().unwrap().id, "1080p60");
}

#[test]
fn ended_dummy_video_stays_ended() {
    let mut player = DummyPlayback::new();
    player.open(&source());
    player.seek(Duration::from_secs(99_999));
    player.update(SEEK_DELAY);
    player.play();
    player.pause();
    player.update(Duration::from_secs(1));
    assert_eq!(player.transport.state, PlaybackState::Ended);
    assert_eq!(player.position(), Duration { nanos: DUMMY_DURATION_NANOS });
}

#[test]
fn playback_wakes_coalesce_until_pending_kinds_are_consumed() {
    let mut notifications = 0;
    let mut wake = PlaybackWake::new();
    for kind in [PlaybackWakeKind::Audio, PlaybackWakeKind::Video, PlaybackWakeKind::Video] {
        if wake.wake(kind) {
            notifications += 1;
        }
    }
    assert_eq!(notifications, 1);

    let pending = wake.take_pending();
    assert!(pending.contains(PlaybackWakeKind::Audio));
    assert!(pending.contains(PlaybackWakeKind::Video));
    assert!(!pending.contains(PlaybackWakeKind::Control));
    assert!(wake.take_pending().is_empty());

    if wake.wake(PlaybackWakeKind::Control) {
        notifications += 1;
    }
    assert_eq!(notifications, 2);
    assert!(wake.take_pending().contains(PlaybackWakeKind::Control));
}

#[test]
fn silent_wake_never_notifies() {
    let mut wake = PlaybackWake::noop();
    assert!(!wake.wake(PlaybackWakeKind::Video));
    assert!(wake.take_pending().contains(PlaybackWakeKind::Video));
}

#[test]
fn wakes_and_graphs_are_empty_by_default() {
    assert!(PendingPlaybackWakes::default().is_empty());
    assert_eq!(PlaybackWake::default(), PlaybackWake::noop());
    assert_eq!(DebugGraph::default(), DebugGraph::new());
    assert_eq!(DecodeMode::default(), DecodeMode::Auto);
    assert_eq!(VideoClock::default(), VideoClock::new());
    assert_eq!(DummyPlayback::default().rates, DummyPlayback::new().rates);
}
