//! Opening a video and finding the frame to show.

use sanctuary_player::model::{PlaybackState, Quality};
use sanctuary_player::playback::backend::OxidePlayer;
use sanctuary_player::playback::decode_mode::DecodeMode;
use sanctuary_player::playback::engine::{AudioLevels, MediaFrame, OxidePlayback};
use sanctuary_player::playback::hls::HlsVariant;
use sanctuary_player::playback::opening::{
    inspect_hls_qualities, plan_opening, HlsPlaylistInfo, Opening,
};
use sanctuary_player::playback::present::{PresentStep, Presentation};
use sanctuary_player::playback::pump::session_streams;
use sanctuary_player::playback::stream::{MediaType, StreamInfo, StreamParams};
use sanctuary_player::time::{Duration, Instant};
use sanctuary_player::time_base::TimeBase;
use sanctuary_player::video::{VideoPlatform, VideoSource};

const START: Instant = Instant { nanos: 1_000_000_000_000 };
const NO_LEVELS: AudioLevels = AudioLevels {
    preroll_ready: false,
    queued_samples: 0,
    target_samples: 0,
    headroom_samples: 0,
    minimum_headroom_samples: 0,
};

fn variant(url: &str, name: &str, height: u64) -> HlsVariant {
    HlsVariant {
        url: url.to_string(),
        name: Some(name.to_string()),
        video_group: Some(name.to_string()),
        codecs: None,
        width: Some(height * 16 / 9),
        height: Some(height),
        frame_rate: None,
        bandwidth: height * 1000,
    }
}

fn master(preferred_variant: usize) -> HlsPlaylistInfo {
    HlsPlaylistInfo::Master {
        variants: vec![
            variant("https://example.test/1080.m3u8", "1080p", 1080),
            variant("https://example.test/720.m3u8", "720p", 720),
        ],
        preferred_variant,
    }
}

fn media() -> HlsPlaylistInfo {
    HlsPlaylistInfo::Media { url: "https://example.test/media.m3u8".to_string() }
}

fn engine() -> OxidePlayback {
    let video = StreamInfo {
        index: 0,
        media_type: MediaType::Video,
        time_base: TimeBase { num: 1, den: 90_000 },
        start_time: Some(0),
        duration: None,
        params: StreamParams {
            codec: 0,
            sample_rate: None,
            channels: None,
            layout_channels: None,
            sample_format: None,
            width: None,
            height: None,
            pixel_format: None,
            described: 0,
        },
    };
    OxidePlayback::open(session_streams(&vec![video]).unwrap())
}

#[test]
fn media_playlist_is_its_own_quality() {
    let set = inspect_hls_qualities(Ok(media())).unwrap();
    assert_eq!(set.qualities, vec![Quality::new("hls-media", "HLS")]);
    assert_eq!(set.urls, vec!["https://example.test/media.m3u8".to_string()]);
    assert_eq!(set.preferred_index, 0);
}

#[test]
fn master_playlist_offers_its_variants() {
    let set = inspect_hls_qualities(Ok(master(1))).unwrap();
    assert_eq!(set.qualities.len(), 2);
    assert_eq!(set.qualities[0].label, "1080p");
    assert_eq!(set.urls[1], "https://example.test/720.m3u8");
    assert_eq!(set.preferred_index, 1);
}

#[test]
fn playlists_that_cannot_be_read_are_refused() {
    assert_eq!(
        inspect_hls_qualities(Err("no route".to_string())).unwrap_err(),
        "inspect HLS playlist qualities: no route"
    );
    assert_eq!(
        inspect_hls_qualities(Ok(master(2))).unwrap_err(),
        "HLS preferred variant index is out of range"
    );
    let mut sound = variant("https://example.test/sound.m3u8", "audio_only", 0);
    sound.codecs = Some("mp4a.40.2".to_string());
    let playlist = HlsPlaylistInfo::Master { variants: vec![sound], preferred_variant: 0 };
    assert_eq!(
        inspect_hls_qualities(Ok(playlist)).unwrap_err(),
        "HLS master contains no video variants with a supported codec"
    );
}

#[test]
fn favourite_quality_is_opened_first() {
    let plan = plan_opening(Ok(master(0)), false, "480p;720p", VideoPlatform::Twitch).unwrap();
    assert_eq!(plan.index, 1);
    assert!(plan.include_audio);
    let plan = plan_opening(Ok(master(0)), false, "480p", VideoPlatform::Twitch).unwrap();
    assert_eq!(plan.index, 0);
}

#[test]
fn youtube_is_opened_without_its_audio() {
    let plan = plan_opening(Ok(media()), false, "", VideoPlatform::YouTube).unwrap();
    assert_eq!(plan.index, 0);
    assert!(!plan.include_audio);
}

#[test]
fn cancelled_opening_ends_after_the_inspection() {
    assert_eq!(
        plan_opening(Ok(media()), true, "", VideoPlatform::Twitch).unwrap_err(),
        "OxideAV open cancelled after HLS inspection"
    );
    assert_eq!(
        plan_opening(Err("no route".to_string()), true, "", VideoPlatform::Twitch).unwrap_err(),
        "inspect HLS playlist qualities: no route"
    );
}

#[test]
fn opened_player_is_paused_at_full_volume() {
    let opening: Opening = plan_opening(Ok(master(0)), false, "", VideoPlatform::Twitch).unwrap();
    let source = VideoSource {
        id: "123".to_string(),
        platform: VideoPlatform::Twitch,
        start_time: None,
    };
    let player = OxidePlayer::open(
        source,
        "https://example.test/master.m3u8".to_string(),
        opening,
        DecodeMode::Auto,
        true,
        engine(),
    );
    assert_eq!(player.rate, 100);
    assert_eq!(player.rates, vec![100]);
    assert_eq!(player.volume, 100);
    assert_eq!(player.output_volume(), 0);
    assert_eq!(player.quality_index, 0);
    assert_eq!(player.quality_urls.len(), 2);
    assert_eq!(player.master_url, "https://example.test/master.m3u8");
    assert!(matches!(player.engine.core.state, PlaybackState::Paused));
}

#[test]
fn first_frame_is_shown_while_paused() {
    let mut playback = engine();
    let first = MediaFrame { pts: Some(90_000), id: 1 };
    playback.video_queue.push(first);
    let step = playback.take_due_frame_at(Presentation::Begin, NO_LEVELS, START);
    assert_eq!(step, PresentStep::TakeIn(Presentation::Shown(first)));
    assert_eq!(playback.core.position, Duration::from_secs(1));
    let step = playback.take_due_frame_at(Presentation::Shown(first), NO_LEVELS, START);
    assert_eq!(step, PresentStep::Done(Some(first)));
    playback.video_queue.push(MediaFrame { pts: Some(90_000), id: 2 });
    let step = playback.take_due_frame_at(Presentation::Begin, NO_LEVELS, START);
    assert_eq!(step, PresentStep::Done(None));
}

#[test]
fn overtaken_frames_are_dropped_one_by_one() {
    let mut playback = engine();
    for id in 0..4 {
        playback.video_queue.push(MediaFrame { pts: Some(3_000 * id as i64), id });
    }
    playback.core.video_clock.establish(0, START, true);
    playback.core.state = PlaybackState::Playing;
    let now = Instant { nanos: START.nanos + 70_000_000 };
    let mut phase = Presentation::Begin;
    let mut steps = 0;
    let shown = loop {
        match playback.take_due_frame_at(phase, NO_LEVELS, now) {
            PresentStep::TakeIn(next) => phase = next,
            PresentStep::Done(frame) => break frame,
        }
        steps += 1;
    };
    assert_eq!(shown, Some(MediaFrame { pts: Some(6_000), id: 2 }));
    assert_eq!(steps, 3);
    assert_eq!(playback.core.diagnostics.dropped_video_frames, 2);
    assert_eq!(playback.core.diagnostics.presented_video_frames, 1);
    assert_eq!(playback.video_queue, vec![MediaFrame { pts: Some(9_000), id: 3 }]);
}

#[test]
fn frame_of_the_future_waits() {
    let mut playback = engine();
    playback.video_queue.push(MediaFrame { pts: Some(9_000), id: 3 });
    playback.core.video_clock.establish(0, START, true);
    playback.core.state = PlaybackState::Playing;
    let step = playback.take_due_frame_at(Presentation::Begin, NO_LEVELS, START);
    assert_eq!(step, PresentStep::Done(None));
    assert_eq!(playback.video_queue.len(), 1);
}
