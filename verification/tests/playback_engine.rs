//! The playback engine: its clock, its frames, its seeks and its end.

use sanctuary_player::audio_output::{device_request, AudioOutput};
use sanctuary_player::model::{PlaybackState, Quality};
use sanctuary_player::playback::backend::{OxidePlayer, PlaybackBackend};
use sanctuary_player::playback::clock::VideoClock;
use sanctuary_player::playback::decode_mode::DecodeMode;
use sanctuary_player::playback::engine::{
    AudioLevels, BarrierKind, MediaFrame, OxidePlayback, PendingSeek, PlaybackCommand,
    PlaybackCore, PlaybackDiagnostics, PlaybackError, PostSeekEpoch, SeekRequest, SessionStep,
    BUFFERING_GRACE_NANOS, VIDEO_QUEUE_CAP,
};
use sanctuary_player::playback::pump::{
    av_pump_block_reason, AvPumpState, SessionMsg, SessionStreams,
};
use sanctuary_player::playback::stream::{
    relative_stream_position, stream_pts_for_media_position, timeline_origin, MediaType,
    StreamInfo, StreamParams,
};
use sanctuary_player::time::{Duration, Instant};
use sanctuary_player::time_base::{duration_from_ticks, TimeBase};
use sanctuary_player::video::VideoSource;

const MPEG_TS: TimeBase = TimeBase { num: 1, den: 90_000 };
const AUDIO_48K: TimeBase = TimeBase { num: 1, den: 48_000 };
const START: Instant = Instant { nanos: 1_000_000_000_000 };
const NO_LEVELS: AudioLevels = AudioLevels {
    preroll_ready: false,
    queued_samples: 0,
    target_samples: 0,
    headroom_samples: 0,
    minimum_headroom_samples: 0,
};

fn params(codec: u32) -> StreamParams {
    StreamParams {
        codec,
        sample_rate: None,
        channels: None,
        layout_channels: None,
        sample_format: None,
        width: None,
        height: None,
        pixel_format: None,
        described: 0,
    }
}

fn video_track(start_time: Option<i64>) -> StreamInfo {
    StreamInfo {
        index: 0,
        media_type: MediaType::Video,
        time_base: MPEG_TS,
        start_time,
        duration: None,
        params: params(27),
    }
}

fn audio_track(time_base: TimeBase, start_time: Option<i64>) -> StreamInfo {
    StreamInfo {
        index: 1,
        media_type: MediaType::Audio,
        time_base,
        start_time,
        duration: None,
        params: params(86),
    }
}

fn decoded_audio_track(time_base: TimeBase, start_time: Option<i64>) -> StreamInfo {
    let mut track = audio_track(time_base, start_time);
    track.params.sample_rate = Some(48_000);
    track.params.channels = Some(2);
    track.params.sample_format = Some(1);
    track
}

fn clock_test_playback() -> OxidePlayback {
    OxidePlayback {
        core: PlaybackCore {
            state: PlaybackState::Playing,
            position: Duration::from_secs(1),
            duration: None,
            executor: false,
            video_stream: video_track(Some(0)),
            audio_stream: None,
            audio_open: false,
            pending_audio_frame: None,
            video_clock: VideoClock { origin: Some((90_000, START)), frozen_pts: None },
            timeline_origin: Some(0),
            first_video: Some(0),
            first_audio: None,
            audio_anchor: None,
            first_frame_presented: true,
            starvation_started_at: None,
            sink_finished: false,
            video_eof: false,
            audio_eof: false,
            seek_pending: None,
            post_seek_epoch: None,
            queued_seek: None,
            seek_supported: true,
            diagnostics: PlaybackDiagnostics::new(),
        },
        video_queue: Vec::new(),
        commands: Vec::new(),
    }
}

fn frame(pts: Option<i64>) -> MediaFrame {
    MediaFrame { pts, id: 0 }
}

fn queued_pts(playback: &OxidePlayback) -> Vec<i64> {
    playback.video_queue.iter().filter_map(|frame| frame.pts).collect()
}

fn seek_in_flight(generation: u32, requested: u64, prior: u64) -> PendingSeek {
    PendingSeek {
        generation: Some(generation),
        requested: Duration::from_secs(requested),
        prior_position: Duration::from_secs(prior),
        resume_playing: true,
        barriers_remaining: 2,
        landing: None,
        rejected: false,
    }
}

fn landed(generation: u32, landed_pts: i64) -> BarrierKind {
    BarrierKind::SeekFlush { generation, landed_pts, time_base: MPEG_TS }
}

/// Shows the newest of the frames that are due.
fn take_due_frame_at(playback: &mut OxidePlayback, now: Instant) -> Option<MediaFrame> {
    let due = playback.begin_presentation(now)?;
    while playback.drop_stale_frame(due) {}
    playback.present_frame(due)
}

#[test]
fn retained_eof_enters_ended_without_executor_finish() {
    let mut playback = clock_test_playback();
    playback.core.video_eof = true;
    playback.update_end_state(0);
    assert!(matches!(playback.core.state, PlaybackState::Ended));
    assert!(!playback.core.sink_finished);
}

#[test]
fn retained_eof_does_not_override_seek_in_progress() {
    let mut playback = clock_test_playback();
    playback.core.video_eof = true;
    playback.core.state = PlaybackState::Seeking;
    playback.update_end_state(0);
    assert!(matches!(playback.core.state, PlaybackState::Seeking));
}

#[test]
fn authoritative_audio_update_opens_output_at_decoded_sample_rate() {
    let mut playback = clock_test_playback();
    playback.core.audio_stream = Some(audio_track(MPEG_TS, Some(6_300_000)));
    assert!(!playback.core.audio_open);
    assert_eq!(playback.pump_block_reason(NO_LEVELS), None);

    let update = decoded_audio_track(MPEG_TS, Some(6_300_000));
    assert_eq!(playback.handle_stream_update(update), Ok(true));
    let track = playback.core.audio_stream.unwrap();
    assert_eq!(track.params.sample_rate, Some(48_000));
    assert_eq!(track.params.channels, Some(2));
    let output = AudioOutput::open(device_request(&track).unwrap(), track.time_base);
    playback.audio_opened();
    assert!(playback.core.audio_open);
    assert_eq!(output.queue_target_samples(), 24_000);
}

#[test]
fn sustained_video_starvation_enters_buffering_and_freezes_clock() {
    let mut playback = clock_test_playback();
    playback.core.video_clock.establish(90_000, START, true);
    let grace = Duration { nanos: BUFFERING_GRACE_NANOS };

    playback.note_or_enter_buffering(START);
    assert_eq!(playback.core.state, PlaybackState::Playing);
    assert_eq!(playback.next_video_wake_deadline_at(START), Some(START.after(grace)));

    playback.note_or_enter_buffering(START.after(grace));
    assert_eq!(playback.core.state, PlaybackState::Buffering);
    assert_eq!(playback.core.video_clock.frozen_pts, Some(112_500));
    let frozen_position = playback.position(START.after(grace));
    assert_eq!(playback.position(START.after(Duration::from_secs(9))), frozen_position);
}

#[test]
fn buffering_resumes_only_after_forward_video_buffer_refills() {
    let mut playback = clock_test_playback();
    playback.core.state = PlaybackState::Buffering;
    playback.core.video_clock.establish(90_000, START, false);

    playback.resume_from_buffering_if_ready(START, NO_LEVELS);
    assert_eq!(playback.core.state, PlaybackState::Buffering);

    playback.video_queue.push(frame(Some(90_000)));
    playback.video_queue.push(frame(Some(91_500)));
    playback.resume_from_buffering_if_ready(START, NO_LEVELS);
    assert_eq!(playback.core.state, PlaybackState::Playing);
    assert!(playback.core.video_clock.origin.is_some());
    assert!(playback.core.video_clock.frozen_pts.is_none());
}

#[test]
fn pausing_while_buffering_becomes_paused() {
    let mut playback = clock_test_playback();
    playback.core.state = PlaybackState::Buffering;
    playback.core.video_clock.establish(90_000, START, false);
    playback.pause(START);
    assert_eq!(playback.core.state, PlaybackState::Paused);
}

#[test]
fn playback_error_freezes_video_clock_and_position() {
    let mut playback = clock_test_playback();
    playback.core.video_clock.establish(90_000, START, true);
    let now = START.after(Duration::from_secs(1));

    playback.fail("synthetic playback failure".to_string(), now);

    assert!(matches!(playback.core.state, PlaybackState::Error(_)));
    assert_eq!(playback.core.video_clock.frozen_pts, Some(180_000));
    let frozen_position = playback.position(now);
    assert_eq!(frozen_position, Duration::from_secs(2));
    assert_eq!(playback.position(now.after(Duration::from_millis(5))), frozen_position);
}

#[test]
fn error_position_uses_stored_position_instead_of_live_clock() {
    let mut playback = clock_test_playback();
    playback.core.position = Duration::from_secs(42);
    playback.core.state = PlaybackState::Error("synthetic playback failure".to_string());
    playback.core.video_clock.establish(90_000, START, true);
    let now = START.after(Duration::from_secs(10));
    assert_eq!(playback.position(now), Duration::from_secs(42));
}

#[test]
fn video_clock_advances_without_decoded_frames() {
    let mut clock = VideoClock::new();
    clock.establish(90_000, START, true);
    assert_eq!(clock.pts_at(START.after(Duration::from_millis(250)), MPEG_TS), Some(112_500));
}

#[test]
fn video_clock_pause_resume_excludes_paused_wall_time() {
    let mut clock = VideoClock::new();
    clock.establish(90_000, START, true);
    clock.pause(START.after(Duration::from_millis(250)), MPEG_TS);
    assert_eq!(clock.frozen_pts, Some(112_500));

    let resume = START.after(Duration::from_secs(10));
    clock.play(resume);
    assert_eq!(clock.pts_at(resume.after(Duration::from_millis(250)), MPEG_TS), Some(135_000));
}

#[test]
fn video_clock_computes_exact_future_frame_deadline() {
    let mut clock = VideoClock::new();
    clock.establish(0, START, true);
    assert_eq!(
        clock.deadline_for(1_920, MPEG_TS),
        Some(START.after(Duration::from_nanos(21_333_334)))
    );
}

#[test]
fn clock_that_was_never_set_tells_nothing() {
    let clock = VideoClock::new();
    assert_eq!(clock.pts_at(START, MPEG_TS), None);
    assert_eq!(clock.deadline_for(0, MPEG_TS), None);
}

fn oxide(engine: OxidePlayback) -> PlaybackBackend {
    PlaybackBackend::Oxide(OxidePlayer {
        source: VideoSource::parse("2386400830").unwrap(),
        engine,
        rate: 100,
        rates: vec![100],
        qualities: Vec::new(),
        quality_urls: Vec::new(),
        quality_index: 0,
        master_url: "https://example.test/master.m3u8".to_string(),
        decode_mode: DecodeMode::Cpu,
        muted: false,
        volume: 100,
        levels: NO_LEVELS,
        request: None,
    })
}

#[test]
fn playback_deadline_for_due_frame_uses_callers_instant_exactly() {
    let mut playback = clock_test_playback();
    let now = START.after(Duration::from_secs(1));
    playback.core.video_clock.establish(0, START, true);
    playback.video_queue.push(frame(Some(0)));
    assert_eq!(oxide(playback).next_wake_deadline(now), Some(now));
}

#[test]
fn video_scheduler_drops_older_due_frame_before_presenting_newer_due() {
    let mut playback = clock_test_playback();
    playback.core.video_clock.establish(0, START, true);
    playback.video_queue.push(frame(Some(900)));
    playback.video_queue.push(frame(Some(1_800)));

    let shown = take_due_frame_at(&mut playback, START.after(Duration::from_millis(30)));
    assert_eq!(shown.expect("newer due frame").pts, Some(1_800));
    assert_eq!(playback.core.diagnostics.dropped_video_frames, 1);
    assert!(playback.video_queue.is_empty());
}

#[test]
fn video_scheduler_waits_for_future_frame_deadline() {
    let mut playback = clock_test_playback();
    let deadline = START.after(Duration::from_nanos(21_333_334));
    playback.core.video_clock.establish(0, START, true);
    playback.video_queue.push(frame(Some(1_920)));

    assert!(take_due_frame_at(&mut playback, START).is_none());
    assert_eq!(playback.next_video_wake_deadline_at(START), Some(deadline));
    assert!(take_due_frame_at(&mut playback, deadline).is_some());
}

#[test]
fn video_frame_without_pts_is_dropped_and_logged_path_remains_bounded() {
    let mut playback = clock_test_playback();
    let message = SessionMsg::Frame { kind: MediaType::Video, frame: frame(None) };
    playback.handle_session_message(message, START).unwrap();
    assert!(playback.video_queue.is_empty());
    assert_eq!(playback.core.diagnostics.dropped_video_frames, 1);
}

#[test]
fn pausing_during_seek_clears_resume_playing_intent() {
    let mut playback = clock_test_playback();
    playback.core.state = PlaybackState::Seeking;
    playback.core.seek_pending =
        Some(PendingSeek { barriers_remaining: 1, ..seek_in_flight(1, 10, 5) });
    playback.pause(START);
    assert_eq!(playback.core.state, PlaybackState::Seeking);
    assert_eq!(playback.core.seek_pending.map(|pending| pending.resume_playing), Some(false));
}

#[test]
fn playing_during_seek_restores_resume_playing_intent() {
    let mut playback = clock_test_playback();
    playback.core.state = PlaybackState::Seeking;
    playback.core.seek_pending = Some(PendingSeek {
        barriers_remaining: 1,
        resume_playing: false,
        ..seek_in_flight(1, 10, 5)
    });
    playback.play(START);
    assert_eq!(playback.core.state, PlaybackState::Seeking);
    assert_eq!(playback.core.seek_pending.map(|pending| pending.resume_playing), Some(true));
}

#[test]
fn full_video_lookahead_discards_provably_stale_frames_while_ingesting() {
    let mut playback = clock_test_playback();
    playback.core.video_clock = VideoClock { origin: None, frozen_pts: Some(2_700) };

    assert!(playback.queue_video_frame_at(frame(Some(900)), START).is_none());
    assert!(playback.queue_video_frame_at(frame(Some(1_800)), START).is_none());
    assert!(playback.queue_video_frame_at(frame(Some(2_700)), START).is_none());
    assert_eq!(queued_pts(&playback), vec![1_800, 2_700]);
    assert_eq!(playback.core.diagnostics.dropped_video_frames, 1);

    assert!(playback.queue_video_frame_at(frame(Some(3_600)), START).is_none());
    assert_eq!(queued_pts(&playback), vec![2_700, 3_600]);
    assert_eq!(playback.core.diagnostics.dropped_video_frames, 2);

    let deferred = playback.queue_video_frame_at(frame(Some(4_500)), START);
    assert_eq!(deferred.expect("future third frame must wait").pts, Some(4_500));
    assert_eq!(queued_pts(&playback), vec![2_700, 3_600]);
}

#[test]
fn third_future_frame_is_an_error_once_it_was_taken_in() {
    let mut playback = clock_test_playback();
    playback.core.video_clock = VideoClock { origin: None, frozen_pts: Some(0) };
    playback.video_queue.push(frame(Some(9_000)));
    playback.video_queue.push(frame(Some(18_000)));
    let message = SessionMsg::Frame { kind: MediaType::Video, frame: frame(Some(27_000)) };
    assert_eq!(
        playback.handle_session_message(message, START),
        Err(PlaybackError::LookaheadExceeded)
    );
}

#[test]
fn relative_position_preserves_cross_stream_timestamp_offset() {
    let track = audio_track(AUDIO_48K, Some(48_000));
    assert_eq!(
        relative_stream_position(&track, 60_000, 1_000_000_000),
        Some(Duration::from_millis(250))
    );
}

#[test]
fn twitch_transport_pts_are_rebased_to_first_real_av_timestamp() {
    let audio_start: i128 = 70_024_000_000;
    let video_start: i128 = 70_094_000_000;
    let origin = timeline_origin(Some(video_start), Some(audio_start), true).unwrap();
    assert_eq!(origin, audio_start);
    assert_eq!(
        relative_stream_position(&video_track(None), 6_308_460, origin),
        Some(Duration::from_millis(70))
    );
}

#[test]
fn timeline_has_no_origin_before_the_first_audio_of_a_video_with_sound() {
    assert_eq!(timeline_origin(Some(5), None, true), None);
    assert_eq!(timeline_origin(Some(5), None, false), Some(5));
}

#[test]
fn timeline_reaches_as_far_as_spans_do() {
    let track = video_track(None);
    let late = Duration { nanos: 102_481_911_520_608_620_077_778 };
    assert_eq!(relative_stream_position(&track, i64::MAX, 0), Some(late));
    assert_eq!(stream_pts_for_media_position(&track, late, 0), Some(i64::MAX));
    assert_eq!(relative_stream_position(&track, i64::MAX, late.nanos as i128), Some(Duration::zero()));
    let early = -(late.nanos as i128);
    assert_eq!(relative_stream_position(&track, 0, early), Some(late));
    assert_eq!(stream_pts_for_media_position(&track, Duration::zero(), early), Some(-i64::MAX));
    let mut slow = track;
    slow.time_base = TimeBase { num: 3, den: 1 };
    assert_eq!(relative_stream_position(&slow, i64::MAX, 0), None);
    assert_eq!(
        stream_pts_for_media_position(&slow, Duration::from_secs(u64::MAX), i128::MAX),
        Some(i64::MAX)
    );
    assert_eq!(stream_pts_for_media_position(&slow, Duration::from_secs(10), 0), Some(3));
    slow.time_base = TimeBase { num: -9_223_372_036_854_775_808, den: -9_223_372_036_854_775_807 };
    assert_eq!(stream_pts_for_media_position(&slow, Duration::from_secs(10), 0), Some(10));
    slow.time_base = TimeBase { num: 1, den: 0 };
    assert_eq!(relative_stream_position(&slow, 1, 0), None);
}

#[test]
fn seek_lands_late_on_the_timeline() {
    let mut playback = clock_test_playback();
    playback.core.seek_pending =
        Some(PendingSeek { barriers_remaining: 1, ..seek_in_flight(7, 600, 5) });
    playback.handle_seek_barrier(None, landed(7, i64::MAX), START).unwrap();
    assert_eq!(playback.core.position, Duration { nanos: 102_481_911_520_608_620_077_778 });
}

#[test]
fn twitch_media_seek_converts_to_transport_pts() {
    assert_eq!(
        stream_pts_for_media_position(
            &video_track(Some(6_302_160)),
            Duration::from_secs(300),
            70_024_000_000
        ),
        Some(33_302_160)
    );
}

#[test]
fn post_seek_eof_survives_other_track_barrier_completion() {
    let mut playback = clock_test_playback();
    playback.core.audio_stream = Some(audio_track(AUDIO_48K, Some(0)));
    playback.core.state = PlaybackState::Seeking;
    playback.core.position = Duration::from_secs(30);
    playback.core.video_eof = true;
    playback.core.audio_eof = true;
    playback.core.seek_pending = Some(seek_in_flight(12, 30, 25));

    let barrier = landed(12, 2_700_000);
    playback
        .handle_session_message(
            SessionMsg::Barrier { kind: Some(MediaType::Audio), barrier },
            START,
        )
        .unwrap();
    assert!(!playback.core.audio_eof, "audio barrier must clear only the old audio EOF");
    assert!(playback.core.video_eof, "video EOF must remain until the video barrier");

    playback.handle_session_message(SessionMsg::EndOfStream(MediaType::Audio), START).unwrap();
    assert!(playback.core.audio_eof);

    playback
        .handle_session_message(
            SessionMsg::Barrier { kind: Some(MediaType::Video), barrier },
            START,
        )
        .unwrap();
    assert!(playback.core.audio_eof, "the seek ends without erasing the new audio EOF");
    assert!(!playback.core.video_eof);
    assert!(playback.core.seek_pending.is_none());

    playback.handle_session_message(SessionMsg::EndOfStream(MediaType::Video), START).unwrap();
    playback.update_end_state(0);
    assert!(matches!(playback.core.state, PlaybackState::Ended));
}

#[test]
fn seek_waits_for_every_routed_barrier_before_reanchoring() {
    let mut playback = clock_test_playback();
    playback.core.state = PlaybackState::Seeking;
    playback.core.position = Duration::from_secs(30);
    playback.core.seek_pending = Some(seek_in_flight(9, 30, 2));

    playback.handle_seek_barrier(None, landed(9, 2_700_000), START).unwrap();
    assert!(playback.core.seek_pending.is_some());
    assert_eq!(playback.core.state, PlaybackState::Seeking);

    playback.handle_seek_barrier(None, landed(9, 2_700_000), START).unwrap();
    assert!(playback.core.seek_pending.is_none());
    assert_eq!(playback.core.position, Duration::from_secs(30));
    assert_eq!(playback.core.state, PlaybackState::Playing);
    assert!(!playback.core.first_frame_presented);
}

#[test]
fn barrier_of_another_seek_is_ignored() {
    let mut playback = clock_test_playback();
    playback.core.state = PlaybackState::Seeking;
    playback.core.seek_pending = Some(seek_in_flight(9, 30, 2));
    let step = playback.handle_seek_barrier(None, landed(8, 2_700_000), START);
    assert_eq!(step, Ok(SessionStep::Done));
    assert_eq!(playback.core.seek_pending, Some(seek_in_flight(9, 30, 2)));
}

#[test]
fn post_seek_epoch_drops_audio_before_video_landing() {
    let mut playback = clock_test_playback();
    playback.core.audio_stream = Some(audio_track(MPEG_TS, Some(0)));
    playback.core.post_seek_epoch = Some(PostSeekEpoch {
        floor: Duration::from_secs(30),
        audio_aligned: false,
        video_aligned: true,
        dropped_audio_frames: 0,
        dropped_video_frames: 0,
    });

    assert!(playback.drop_before_post_seek_epoch(MediaType::Audio, Some(29 * 90_000)));
    let epoch = playback.core.post_seek_epoch.expect("audio still unaligned");
    assert!(!epoch.audio_aligned);
    assert_eq!(epoch.dropped_audio_frames, 1);

    assert!(!playback.drop_before_post_seek_epoch(MediaType::Audio, Some(30 * 90_000)));
    assert!(playback.core.post_seek_epoch.is_none(), "the guard goes once both tracks align");
}

#[test]
fn post_seek_epoch_applies_same_floor_to_video() {
    let mut playback = clock_test_playback();
    playback.core.post_seek_epoch = Some(PostSeekEpoch {
        floor: Duration::from_secs(30),
        audio_aligned: true,
        video_aligned: false,
        dropped_audio_frames: 0,
        dropped_video_frames: 0,
    });

    assert!(playback.drop_before_post_seek_epoch(MediaType::Video, Some(29 * 90_000)));
    assert_eq!(playback.core.diagnostics.dropped_video_frames, 1);
    let epoch = playback.core.post_seek_epoch.expect("video still unaligned");
    assert!(!epoch.video_aligned);
    assert_eq!(epoch.dropped_video_frames, 1);

    assert!(!playback.drop_before_post_seek_epoch(MediaType::Video, Some(30 * 90_000)));
    assert!(playback.core.post_seek_epoch.is_none(), "the guard goes once both tracks align");
}

#[test]
fn seek_completion_waits_for_authoritative_audio_after_fresh_session() {
    let mut playback = clock_test_playback();
    playback.core.state = PlaybackState::Seeking;
    playback.core.position = Duration::from_secs(5);
    playback.core.audio_stream = Some(audio_track(MPEG_TS, Some(6_302_160)));
    playback.core.audio_anchor = Some(70_024_000_000);
    playback.core.seek_pending =
        Some(PendingSeek { resume_playing: false, ..seek_in_flight(11, 5, 0) });

    playback.handle_seek_barrier(None, landed(11, 6_666_000), START).unwrap();
    playback.handle_seek_barrier(None, landed(11, 6_666_000), START).unwrap();

    assert!(playback.core.seek_pending.is_none());
    assert_eq!(playback.core.state, PlaybackState::Paused);
    assert!(!playback.core.audio_open, "provisional parameters must not open a device");
    assert!(playback.core.audio_anchor.is_none(), "the next audio sets the new anchor");

    let authoritative = decoded_audio_track(MPEG_TS, Some(6_302_160));
    assert_eq!(playback.handle_stream_update(authoritative), Ok(true));
    let track = playback.core.audio_stream.unwrap();
    let output = AudioOutput::open(device_request(&track).unwrap(), track.time_base);
    playback.audio_opened();
    assert!(playback.core.audio_open);
    assert_eq!(output.queue_target_samples(), 24_000);
}

#[test]
fn repeated_seek_input_coalesces_to_latest_target_while_one_is_in_flight() {
    let mut playback = clock_test_playback();
    playback.core.state = PlaybackState::Seeking;
    playback.core.position = Duration::from_secs(600);
    playback.core.seek_pending = Some(seek_in_flight(7, 600, 5));

    assert_eq!(playback.seek(Duration::from_secs(1_200), START), None);
    assert_eq!(playback.seek(Duration::from_secs(1_800), START), None);

    assert_eq!(playback.core.position, Duration::from_secs(1_800));
    assert_eq!(playback.core.queued_seek, Some(Duration::from_secs(1_800)));
    assert_eq!(playback.core.seek_pending.unwrap().generation, Some(7));
    assert_eq!(playback.core.state, PlaybackState::Seeking);
}

#[test]
fn queued_seek_is_sent_when_the_one_in_flight_lands() {
    let mut playback = clock_test_playback();
    playback.core.executor = true;
    playback.core.state = PlaybackState::Seeking;
    playback.core.seek_pending =
        Some(PendingSeek { barriers_remaining: 1, ..seek_in_flight(7, 600, 5) });
    playback.core.queued_seek = Some(Duration::from_secs(1_800));
    let step = playback.handle_seek_barrier(None, landed(7, 54_000_000), START);
    assert_eq!(
        step,
        Ok(SessionStep::Dispatch(SeekRequest {
            stream_index: 0,
            pts: 162_000_000,
            time_base: MPEG_TS,
            target: Duration::from_secs(1_800),
            prior_position: Duration::from_secs(5),
            resume_playing: true,
            first: false,
        }))
    );
    assert_eq!(playback.core.state, PlaybackState::Seeking);
    assert_eq!(playback.core.position, Duration::from_secs(1_800));
    assert_eq!(playback.core.seek_pending.unwrap().generation, None);
}

/// A playing engine at five seconds, with a decoder and an audio output.
fn sounding_playback() -> OxidePlayback {
    let mut playback = clock_test_playback();
    playback.core.executor = true;
    playback.core.audio_open = true;
    playback.core.state = PlaybackState::Playing;
    playback.core.first_frame_presented = true;
    playback.core.position = Duration::from_secs(5);
    playback.core.video_clock.establish(450_000, START, true);
    playback
}

#[test]
fn seek_shows_before_the_decoder_has_answered() {
    let mut playback = sounding_playback();
    playback.video_queue.push(frame(Some(450_000)));
    let request = playback.seek(Duration::from_secs(60), START).unwrap();
    assert!(request.first);
    assert_eq!(playback.core.state, PlaybackState::Seeking);
    assert_eq!(playback.position(START), Duration::from_secs(60));
    assert!(playback.intends_playing());
    let further = playback.position(START).saturating_add(Duration::from_secs(10));
    assert_eq!(playback.seek(further, START), None);
    assert_eq!(playback.position(START), Duration::from_secs(70));
    playback.pause(START);
    playback.seek_dispatched(9);
    let pending = playback.core.seek_pending.unwrap();
    assert_eq!(pending.generation, Some(9));
    assert_eq!(pending.requested, Duration::from_secs(60));
    assert!(!pending.resume_playing);
    assert_eq!(playback.core.queued_seek, Some(Duration::from_secs(70)));
    assert!(playback.video_queue.is_empty());
    assert!(!playback.core.first_frame_presented);
}

#[test]
fn seek_that_the_decoder_does_not_take_stops_playback_where_it_was() {
    let mut playback = sounding_playback();
    playback.video_queue.push(frame(Some(450_000)));
    let request = playback.seek(Duration::from_secs(60), START).unwrap();
    playback.take_commands();
    playback.seek_failed(request, "queue is full", START);
    assert_eq!(
        playback.core.state,
        PlaybackState::Error("dispatch OxideAV seek: queue is full".to_string())
    );
    assert_eq!(playback.position(START), Duration::from_secs(5));
    assert_eq!(playback.video_queue.len(), 1);
    assert!(playback.core.seek_pending.is_none());
    assert_eq!(
        playback.take_commands(),
        vec![
            PlaybackCommand::PauseAudio(false),
            PlaybackCommand::Abort,
            PlaybackCommand::PauseAudio(true),
        ]
    );
}

#[test]
fn changed_audio_format_is_described() {
    let mut playback = clock_test_playback();
    let mut known = decoded_audio_track(MPEG_TS, Some(0));
    known.params.described = 1;
    playback.core.audio_stream = Some(known);
    playback.core.audio_open = true;
    let mut changed = known;
    changed.params.sample_rate = Some(44_100);
    changed.params.described = 0;
    let error = playback.handle_stream_update(changed).unwrap_err();
    assert_eq!(error, PlaybackError::AudioFormatChanged { from: 1, to: 0 });
    assert_eq!(
        error.message(&vec!["B".to_string(), "A".to_string()]),
        "decoded audio format changed after output opened: A -> B"
    );
}

#[test]
fn deadline_holds_at_every_moment_and_for_negative_terms() {
    for base in [TimeBase { num: 1, den: 90_000 }, TimeBase { num: -1, den: -90_000 }] {
        let mut clock = VideoClock::new();
        clock.establish(0, START, true);
        let deadline = clock.deadline_for(3_000, base).unwrap();
        for span in [0u128, 1, 16_000_000, 33_333_332, 33_333_333, 33_333_334, 50_000_000] {
            let at = Instant { nanos: START.nanos + span };
            let due = clock.pts_at(at, base).unwrap();
            assert_eq!(due >= 3_000, at.nanos >= deadline.nanos);
        }
    }
}

#[test]
fn rejected_seek_restores_prior_position_and_disables_future_seeks() {
    let mut playback = clock_test_playback();
    playback.core.state = PlaybackState::Seeking;
    playback.core.position = Duration::from_secs(30);
    playback.core.seek_pending = Some(PendingSeek {
        barriers_remaining: 1,
        resume_playing: false,
        ..seek_in_flight(4, 30, 3)
    });
    playback
        .handle_seek_barrier(None, BarrierKind::SeekRejected { generation: 4 }, START)
        .unwrap();
    assert_eq!(playback.core.position, Duration::from_secs(3));
    assert_eq!(playback.core.state, PlaybackState::Paused);
    assert!(!playback.core.seek_supported);
}

#[test]
fn seek_without_a_decoder_is_an_error() {
    let playback = clock_test_playback();
    assert_eq!(
        playback.dispatch_seek(Duration::from_secs(3), Duration::zero(), false, true),
        Err(PlaybackError::NoExecutor)
    );
}

#[test]
fn av_pump_keeps_draining_when_video_is_ready_but_audio_is_low() {
    assert_eq!(
        av_pump_block_reason(AvPumpState {
            state: &PlaybackState::Playing,
            first_frame_presented: true,
            video_queue_len: VIDEO_QUEUE_CAP,
            audio_preroll_ready: true,
            audio_queued_samples: 2_400,
            audio_target_samples: 24_000,
            audio_headroom_samples: 180_000,
            audio_minimum_headroom_samples: 4_800,
        }),
        None,
        "a full video target must not block audio messages"
    );
}

#[test]
fn av_pump_stops_only_after_both_forward_targets_are_ready() {
    assert_eq!(
        av_pump_block_reason(AvPumpState {
            state: &PlaybackState::Playing,
            first_frame_presented: true,
            video_queue_len: VIDEO_QUEUE_CAP,
            audio_preroll_ready: true,
            audio_queued_samples: 24_000,
            audio_target_samples: 24_000,
            audio_headroom_samples: 168_000,
            audio_minimum_headroom_samples: 4_800,
        }),
        Some("av-buffers-ready")
    );
}

#[test]
fn converts_stream_ticks_to_duration() {
    assert_eq!(duration_from_ticks(TimeBase::new(1, 90_000), 180_000), Some(Duration::from_secs(2)));
}

#[test]
fn ticks_before_the_start_are_no_duration() {
    assert_eq!(duration_from_ticks(TimeBase::new(1, 90_000), -1), None);
    assert_eq!(duration_from_ticks(TimeBase::new(1, 0), 1), None);
}

#[test]
fn muted_output_sets_software_gain_to_zero() {
    let mut player = match oxide(clock_test_playback()) {
        PlaybackBackend::Oxide(player) => player,
        _ => unreachable!(),
    };
    player.volume = 80;
    assert_eq!(player.output_volume(), 80);
    player.muted = true;
    assert_eq!(player.output_volume(), 0);
}

#[test]
fn volume_is_kept_within_its_range() {
    let mut backend = oxide(clock_test_playback());
    backend.set_volume(250);
    match backend {
        PlaybackBackend::Oxide(player) => assert_eq!(player.output_volume(), 200),
        _ => unreachable!(),
    }
}

#[test]
fn only_known_qualities_are_chosen() {
    let mut player = match oxide(clock_test_playback()) {
        PlaybackBackend::Oxide(player) => player,
        _ => unreachable!(),
    };
    player.qualities = vec![Quality::new("1080p60", "Source"), Quality::new("480p", "480p")];
    player.quality_urls = vec!["a".to_string(), "b".to_string()];
    let backend = PlaybackBackend::Oxide(player);
    assert_eq!(backend.quality().unwrap().id, "1080p60");
    assert_eq!(
        backend.quality_master_url(),
        Some("https://example.test/master.m3u8".to_string())
    );
}

#[test]
fn opened_session_takes_its_length_from_the_video() {
    let session = SessionStreams {
        video: video_track(Some(0)),
        audio: None,
        duration: Some(Duration::from_secs(90)),
    };
    let playback = OxidePlayback::open(session);
    assert_eq!(playback.core.duration, Some(Duration::from_secs(90)));
    assert_eq!(playback.core.video_stream, video_track(Some(0)));
    assert!(playback.video_queue.is_empty());
}

#[test]
fn failed_decoder_is_an_error_with_its_cause() {
    let mut playback = clock_test_playback();
    playback.core.executor = true;
    playback.collect_executor_result(Some("no such codec"), START);
    assert_eq!(
        playback.core.state,
        PlaybackState::Error("OxideAV playback failed: no such codec".to_string())
    );
    assert!(!playback.core.executor);
}

#[test]
fn each_playback_error_says_what_is_wrong() {
    let errors = [
        PlaybackError::LookaheadExceeded,
        PlaybackError::NoAudioOutput,
        PlaybackError::AudioFormatChanged { from: 0, to: 0 },
        PlaybackError::NoLandingTimestamp,
        PlaybackError::LandedBeforeOrigin,
        PlaybackError::LandingOutOfRange,
        PlaybackError::NoTimelineOrigin,
        PlaybackError::InvalidTimeBase,
        PlaybackError::NoExecutor,
    ];
    for (index, error) in errors.iter().enumerate() {
        for other in &errors[index + 1..] {
            assert_ne!(error.message(&Vec::new()), other.message(&Vec::new()));
        }
        assert!(!error.message(&Vec::new()).is_empty());
    }
}

#[test]
fn pausing_tells_the_audio_device_and_stops_the_clock() {
    let mut playback = clock_test_playback();
    playback.core.audio_stream = Some(decoded_audio_track(AUDIO_48K, Some(0)));
    playback.core.audio_open = true;
    playback.pause(START.after(Duration::from_secs(1)));
    assert_eq!(playback.core.state, PlaybackState::Paused);
    assert_eq!(playback.core.video_clock.frozen_pts, Some(180_000));
    assert!(playback.take_commands().contains(&PlaybackCommand::PauseAudio(true)));
    assert!(playback.take_commands().is_empty());
}
