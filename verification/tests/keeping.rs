//! What is kept of a video: its name, its session and its positions.

use sanctuary_player::app::positions::PositionCache;
use sanctuary_player::app::saves::PositionSaver;
use sanctuary_player::app::sessions::{SessionKeeper, SESSION_SAVE_INTERVAL_NANOS};
use sanctuary_player::app::state::AppState;
use sanctuary_player::app::update::UpdateEvents;
use sanctuary_player::model::AppCommand;
use sanctuary_player::services::SavedPosition;
use sanctuary_player::session::{SessionState, SessionStore};
use sanctuary_player::time::{Duration, Instant};
use sanctuary_player::video::{VideoPlatform, VideoSource};

const START: Instant = Instant { nanos: 1_000_000_000_000 };

fn after(nanos: u128) -> Instant {
    Instant { nanos: START.nanos + nanos }
}

fn video() -> VideoSource {
    VideoSource::parse("2386400830").unwrap()
}

fn session(seconds: u64) -> SessionState {
    SessionState { source: video(), position: Duration::from_secs(seconds) }
}

fn saved(device: &str, seconds: u64) -> SavedPosition {
    SavedPosition {
        source: video(),
        device_id: device.to_string(),
        position: Duration::from_secs(seconds),
        modified_age: Duration::from_secs(60),
        title: None,
        release_age: None,
    }
}

#[test]
fn identifiers_and_addresses_name_videos() {
    let source = video();
    assert_eq!(source.platform, VideoPlatform::Twitch);
    assert_eq!(source.start_time, None);
    let source = VideoSource::parse("3fgD9k8Hkbc").unwrap();
    assert_eq!(source.platform, VideoPlatform::YouTube);
    assert_eq!(source.id, "3fgD9k8Hkbc");
    let source = VideoSource::parse("https://www.twitch.tv/videos/123?t=1h2m3s").unwrap();
    assert_eq!(source.id, "123");
    assert_eq!(source.start_time, Some(Duration::from_secs(3723)));
    let source = VideoSource::parse("https://youtube.com/watch?v=3fgD9k8Hkbc&t=5m").unwrap();
    assert_eq!(source.platform, VideoPlatform::YouTube);
    assert_eq!(source.start_time, Some(Duration::from_secs(300)));
}

#[test]
fn other_texts_name_no_video() {
    for text in ["", "not a video", "https://example.test/videos/123", "12a"] {
        assert_eq!(VideoSource::parse(text).unwrap_err(), "unrecognised video");
    }
}

#[test]
fn seconds_are_counted_whole() {
    assert_eq!(Duration::from_secs(7).as_secs(), 7);
    assert_eq!(Duration::from_millis(1_999).as_secs(), 1);
    assert_eq!(Duration::from_millis(1_999).as_millis(), 1_999);
    assert!(Duration::from_nanos(0).is_zero());
    let (one, three) = (Duration::from_secs(1), Duration::from_secs(3));
    assert_eq!(one.abs_diff(three), Duration::from_secs(2));
    assert_eq!(one.saturating_sub(three), Duration::zero());
    assert_eq!(one.saturating_add(three), Duration::from_secs(4));
    assert_eq!(three.min(one), one);
    assert_eq!(START.saturating_duration_since(after(5)), Duration::zero());
    assert_eq!(after(5).saturating_duration_since(START), Duration::from_nanos(5));
}

#[test]
fn session_is_written_once_and_at_intervals() {
    let mut keeper = SessionKeeper::new(START);
    keeper.set_store(SessionStore::new("session.json".to_string()), Ok(None)).unwrap();
    keeper.refresh(true, Some(&video()), Duration::from_secs(10));
    let write = keeper.persist(false, START).unwrap();
    assert_eq!(write.session, session(10));
    assert_eq!(write.previous, None);
    assert!(keeper.persist(true, START).is_none());
    keeper.refresh(true, Some(&video()), Duration::from_secs(20));
    assert!(keeper.persist(false, after(SESSION_SAVE_INTERVAL_NANOS - 1)).is_none());
    let write = keeper.persist(false, after(SESSION_SAVE_INTERVAL_NANOS)).unwrap();
    assert_eq!(write.previous, Some(session(10)));
    keeper.write_failed(write);
    assert_eq!(
        keeper.persist(true, after(SESSION_SAVE_INTERVAL_NANOS + 1)).unwrap().session,
        session(20)
    );
}

#[test]
fn unsettled_position_is_no_session() {
    let mut keeper = SessionKeeper::new(START);
    keeper.set_store(SessionStore::new("session.json".to_string()), Ok(None)).unwrap();
    keeper.refresh(false, Some(&video()), Duration::from_secs(10));
    assert!(keeper.persist(true, START).is_none());
}

#[test]
fn positions_of_another_account_are_dropped() {
    let mut cache = PositionCache::new();
    cache.forget(true);
    let alice = Some("alice".to_string());
    assert_eq!(cache.begin_fetch(&alice), alice);
    cache.finish_fetch(Ok(vec![saved("Tablet", 5)]), &Some("bob".to_string()));
    assert!(cache.positions.is_empty());
}

#[test]
fn last_saved_position_is_the_first_row() {
    let mut cache = PositionCache::new();
    cache.positions = vec![saved("Tablet", 5), saved("Desktop", 50)];
    cache.update_cached_saved_position(video(), "Desktop".to_string(), Duration::from_secs(70));
    assert_eq!(cache.positions.len(), 2);
    assert_eq!(cache.positions[0].device_id, "Desktop");
    assert_eq!(cache.positions[0].position, Duration::from_secs(70));
    assert!(cache.positions[0].modified_age.is_zero());
    cache.age_saved_positions(Duration::from_secs(1));
    assert_eq!(cache.positions[0].modified_age, Duration::from_secs(1));
    assert_eq!(cache.positions[1].modified_age, Duration::from_secs(61));
}

#[test]
fn waiting_position_is_replaced_by_a_later_one() {
    let mut saver = PositionSaver::new(START);
    let (user, device) = (Some("alice".to_string()), Some("Desktop".to_string()));
    saver.queue_position_save(&user, &device, &session(100), false);
    saver.queue_position_save(&user, &device, &session(105), false);
    assert_eq!(saver.queue.len(), 1);
    assert_eq!(saver.queue[0].position, Duration::from_secs(100));
    saver.queue_position_save(&user, &device, &session(105), true);
    assert_eq!(saver.queue.len(), 1);
    assert_eq!(
        saver.latest_requested_position("alice", "Desktop", "2386400830"),
        Some(Duration::from_secs(105))
    );
    saver.queue_position_save(&user, &Some("Tablet".to_string()), &session(105), false);
    assert_eq!(saver.queue.len(), 2);
    saver.queue_position_save(&None, &device, &session(300), true);
    assert_eq!(saver.queue.len(), 2);
}

#[test]
fn unsent_position_is_sent_again_after_a_while() {
    let mut saver = PositionSaver::new(START);
    let (user, device) = (Some("alice".to_string()), Some("Desktop".to_string()));
    saver.queue_position_save(&user, &device, &session(100), false);
    let request = saver.start_next(START).unwrap();
    assert_eq!(request.position, Duration::from_secs(100));
    assert!(saver.start_next(START).is_none());
    assert!(saver.complete(false, true, START).is_none());
    assert!(saver.start_next(after(4_999_999_999)).is_none());
    assert!(saver.start_next(after(5_000_000_000)).is_some());
    assert_eq!(
        saver.complete(true, true, after(5_000_000_000)).unwrap().position,
        Duration::from_secs(100)
    );
}

#[test]
fn stores_keep_their_paths() {
    let mut state = AppState::new(START);
    state.set_settings_path("settings.json".to_string(), Ok(None)).unwrap();
    state.set_session_path("session.json".to_string(), Ok(None)).unwrap();
    state.apply(AppCommand::Play, START);
    let events = UpdateEvents { positions: None, saved: Some(Err("offline".to_string())) };
    state.update(Duration::from_secs(1), after(1_000_000_000), events);
    assert_eq!(state.settings_store.as_ref().unwrap().path(), "settings.json");
    assert_eq!(state.sessions.store.as_ref().unwrap().path(), "session.json");
}
