//! What the decoder sends: its channels, the sinks that fill them and the pump that empties
//! them.

use std::collections::VecDeque;

use sanctuary_player::audio_output::{device_request, AudioOutput};
use sanctuary_player::audio_timeline::QueueResult;
use sanctuary_player::model::PlaybackState;
use sanctuary_player::playback::clock::VideoClock;
use sanctuary_player::playback::engine::{
    AudioLevels, MediaFrame, OxidePlayback, PlaybackCommand, PlaybackCore, PlaybackDiagnostics,
};
use sanctuary_player::playback::pump::{
    release_session_depth, session_streams, PumpPhase, Received, SessionChannelDepths, SessionMsg,
};
use sanctuary_player::playback::sink::{
    open_track_sinks, playback_job, selected_decoder_info, session_route, session_send_outcome,
    started_session, DecoderDebugInfo, OpenError, SendResult, SendStep, SessionChannel,
    SessionTrackSink, SinkError, TrackDecoder, DIAGNOSTIC_INTERVAL_NANOS,
};
use sanctuary_player::playback::stream::{MediaType, StreamInfo, StreamParams};
use sanctuary_player::playback::wake::{PlaybackWake, PlaybackWakeKind};
use sanctuary_player::time::{Duration, Instant};
use sanctuary_player::time_base::TimeBase;

const MPEG_TS: TimeBase = TimeBase { num: 1, den: 90_000 };
const AUDIO_48K: TimeBase = TimeBase { num: 1, den: 48_000 };
const START: Instant = Instant { nanos: 1_000_000_000_000 };

fn track(index: u32, media_type: MediaType, time_base: TimeBase) -> StreamInfo {
    StreamInfo {
        index,
        media_type,
        time_base,
        start_time: Some(0),
        duration: None,
        params: StreamParams {
            codec: index,
            sample_rate: None,
            channels: None,
            layout_channels: None,
            sample_format: None,
            width: None,
            height: None,
            pixel_format: None,
            described: 0,
        },
    }
}

fn stereo_track() -> StreamInfo {
    let mut audio = track(1, MediaType::Audio, AUDIO_48K);
    audio.params.sample_rate = Some(48_000);
    audio.params.channels = Some(2);
    audio.params.sample_format = Some(5);
    audio
}

/// A playback with the three channels that it reads, and its audio output. The number of an
/// audio frame is how many samples it holds.
struct Session {
    playback: OxidePlayback,
    depths: SessionChannelDepths,
    control: VecDeque<SessionMsg>,
    audio: VecDeque<SessionMsg>,
    video: VecDeque<SessionMsg>,
    output: Option<AudioOutput>,
}

impl Session {
    fn new() -> Self {
        Session {
            playback: OxidePlayback {
                core: PlaybackCore {
                    state: PlaybackState::Playing,
                    position: Duration::from_secs(1),
                    duration: None,
                    executor: false,
                    video_stream: track(0, MediaType::Video, MPEG_TS),
                    audio_stream: None,
                    audio_open: false,
                    pending_audio_frame: None,
                    video_clock: VideoClock { origin: Some((90_000, START)), frozen_pts: None },
                    timeline_origin: Some(0),
                    first_video: Some(0),
                    first_audio: None,
                    audio_anchor: None,
                    first_frame_presented: true,
                    starvation_started_at: None,
                    sink_finished: false,
                    video_eof: false,
                    audio_eof: false,
                    seek_pending: None,
                    post_seek_epoch: None,
                    queued_seek: None,
                    seek_supported: true,
                    diagnostics: PlaybackDiagnostics::new(),
                },
                video_queue: Vec::new(),
                commands: Vec::new(),
            },
            depths: SessionChannelDepths::new(),
            control: VecDeque::new(),
            audio: VecDeque::new(),
            video: VecDeque::new(),
            output: None,
        }
    }

    fn with_sound() -> Self {
        let mut session = Session::new();
        let audio = stereo_track();
        session.playback.core.audio_stream = Some(audio);
        session.playback.core.audio_open = true;
        session.output = Some(AudioOutput::open(device_request(&audio).unwrap(), AUDIO_48K));
        session
    }

    fn levels(&self) -> AudioLevels {
        match &self.output {
            Some(output) => output.levels(),
            None => AudioLevels {
                preroll_ready: false,
                queued_samples: 0,
                target_samples: 0,
                headroom_samples: 0,
                minimum_headroom_samples: 0,
            },
        }
    }

    fn queue_audio(&mut self, frame: MediaFrame) {
        let samples = frame.id as usize;
        let channels = vec![
            vec![0.25f32.to_bits(); samples],
            vec![(-0.25f32).to_bits(); samples],
        ];
        let output = self.output.as_mut().expect("audio output");
        let result = output.queue(frame.pts, &channels, frame.id as u32).unwrap();
        self.playback.audio_queued(frame, result);
    }

    fn handle(&mut self, message: SessionMsg) {
        self.playback.handle_session_message(message, START).unwrap();
        for command in self.playback.take_commands() {
            if let PlaybackCommand::QueueAudio(frame) = command {
                self.queue_audio(frame);
            }
        }
    }

    fn pump(&mut self) {
        if let Some(frame) = self.playback.take_pending_audio() {
            self.queue_audio(frame);
        }
        let mut phase = PumpPhase::Control;
        loop {
            phase = self.playback.pump_phase(phase, self.levels());
            let (message, kind) = match phase {
                PumpPhase::Control => (self.control.pop_front(), MediaType::Unknown),
                PumpPhase::Audio => (self.audio.pop_front(), MediaType::Audio),
                PumpPhase::Video => (self.video.pop_front(), MediaType::Video),
                PumpPhase::Done => break,
            };
            let received = match message {
                Some(message) => {
                    self.depths.release(kind);
                    self.handle(message);
                    Received::Handled
                }
                None => Received::Empty,
            };
            phase = self.playback.pump_received(phase, received);
        }
    }

    fn queued_pts(&self) -> Vec<i64> {
        self.playback.video_queue.iter().filter_map(|frame| frame.pts).collect()
    }
}

fn video_frame(pts: i64) -> SessionMsg {
    SessionMsg::Frame { kind: MediaType::Video, frame: MediaFrame { pts: Some(pts), id: 0 } }
}

fn audio_frame(samples: u64, pts: i64) -> SessionMsg {
    SessionMsg::Frame { kind: MediaType::Audio, frame: MediaFrame { pts: Some(pts), id: samples } }
}

#[test]
fn deferred_audio_frame_stays_head_of_line_on_audio_channel_until_ring_has_space() {
    let mut session = Session::with_sound();
    session.handle(audio_frame(2_400, 0));
    assert!(session.playback.core.pending_audio_frame.is_none());

    session.handle(audio_frame(32, 500_000));
    assert!(session.playback.core.pending_audio_frame.is_some());
    assert_eq!(
        session.playback.pump_block_reason(session.levels()),
        Some("audio-frame-pending")
    );

    session.audio.push_back(audio_frame(32, 600_000));
    session.pump();
    assert!(session.playback.core.pending_audio_frame.is_some());
    assert_eq!(session.audio.pop_front(), Some(audio_frame(32, 600_000)));
}

#[test]
fn session_sink_routes_control_audio_and_video_to_distinct_channels() {
    let mut depths = SessionChannelDepths::new();

    let finished = session_route(&SessionMsg::Finished).unwrap();
    assert_eq!(finished, SessionChannel::Control);
    depths.enter(MediaType::Unknown);
    assert_eq!(depths.control, 1);
    assert_eq!(session_send_outcome(finished, true), Ok(PlaybackWakeKind::Control));
    depths.release(MediaType::Unknown);
    assert_eq!(depths.control, 0);
    assert_eq!((depths.audio, depths.video), (0, 0));

    let audio = session_route(&audio_frame(16, 0)).unwrap();
    assert_eq!(audio, SessionChannel::Audio);
    depths.enter(MediaType::Audio);
    assert_eq!(depths.audio, 1);
    assert_eq!((depths.control, depths.video), (0, 0));
    assert_eq!(session_send_outcome(audio, true), Ok(PlaybackWakeKind::Audio));
    depths.release(MediaType::Audio);
    assert_eq!(depths.audio, 0);

    let video = session_route(&video_frame(0)).unwrap();
    assert_eq!(video, SessionChannel::Video);
    depths.enter(MediaType::Video);
    assert_eq!(depths.video, 1);
    assert_eq!((depths.control, depths.audio), (0, 0));
    assert_eq!(session_send_outcome(video, true), Ok(PlaybackWakeKind::Video));
    depths.release(MediaType::Video);
    assert_eq!(depths.video, 0);
}

#[test]
fn lost_channel_is_reported_by_its_name() {
    assert_eq!(
        session_send_outcome(SessionChannel::Audio, false),
        Err(SinkError::ReceiverDropped("SanctuaryPlayer: audio receiver dropped".to_string()))
    );
}

#[test]
fn depth_never_falls_below_nothing() {
    assert_eq!(release_session_depth(0), 0);
    assert_eq!(release_session_depth(3), 2);
}

#[test]
fn session_channel_depth_tracks_real_video_receive_boundary() {
    let mut session = Session::new();
    let mut sink = SessionTrackSink::new(MediaType::Video);
    let frame = MediaFrame { pts: Some(180_000), id: 0 };
    let message = sink.frame_message(MediaType::Video, frame).unwrap();
    assert_eq!(sink.before_send(&message, false), None);
    session.depths.enter(MediaType::Video);
    session.video.push_back(message);
    assert_eq!(
        sink.after_send(&message, SendResult::Delivered, false, START),
        SendStep::Done(PlaybackWakeKind::Video)
    );
    assert_eq!(session.depths.current(MediaType::Video), 1);

    session.pump();

    assert_eq!(session.depths.current(MediaType::Video), 0);
    assert_eq!(session.playback.core.diagnostics.received_video_frames, 1);
}

#[test]
fn session_track_sink_wakes_after_video_message_is_enqueued() {
    let mut wake = PlaybackWake::new();
    let mut sink = SessionTrackSink::new(MediaType::Video);
    let message = video_frame(90_000);
    match sink.after_send(&message, SendResult::Delivered, false, START) {
        SendStep::Done(kind) => assert!(wake.wake(kind)),
        _ => panic!("the message was delivered"),
    }
    assert!(wake.take_pending().contains(PlaybackWakeKind::Video));
}

#[test]
fn blocked_video_track_sink_does_not_block_audio_track_sink() {
    let mut video_sink = SessionTrackSink::new(MediaType::Video);
    let mut audio_sink = SessionTrackSink::new(MediaType::Audio);
    let first = video_frame(9_000);
    let second = video_frame(18_000);
    let sound = audio_frame(1_024, 0);

    assert_eq!(
        video_sink.after_send(&first, SendResult::Delivered, false, START),
        SendStep::Done(PlaybackWakeKind::Video)
    );
    assert_eq!(
        video_sink.after_send(&second, SendResult::Full, false, START),
        SendStep::Retry { log: true, wake: Some(PlaybackWakeKind::Video) }
    );
    assert!(video_sink.blocked);

    assert_eq!(audio_sink.before_send(&sound, false), None);
    assert_eq!(
        audio_sink.after_send(&sound, SendResult::Delivered, false, START),
        SendStep::Done(PlaybackWakeKind::Audio)
    );

    assert_eq!(
        video_sink.after_send(&second, SendResult::Delivered, false, START),
        SendStep::Done(PlaybackWakeKind::Video)
    );
    assert!(!video_sink.blocked);
}

#[test]
fn full_channel_wakes_playback_once_and_is_logged_at_intervals() {
    let mut sink = SessionTrackSink::new(MediaType::Audio);
    let message = audio_frame(1_024, 0);
    let soon = START.after(Duration::from_millis(20));
    let later = START.after(Duration { nanos: DIAGNOSTIC_INTERVAL_NANOS });
    assert_eq!(
        sink.after_send(&message, SendResult::Full, false, START),
        SendStep::Retry { log: true, wake: Some(PlaybackWakeKind::Audio) }
    );
    assert_eq!(
        sink.after_send(&message, SendResult::Full, false, soon),
        SendStep::Retry { log: false, wake: None }
    );
    assert_eq!(
        sink.after_send(&message, SendResult::Full, false, later),
        SendStep::Retry { log: true, wake: None }
    );
    assert_eq!(sink.blocked_sends, 3);
}

#[test]
fn third_video_frame_stays_upstream_until_lookahead_has_space() {
    let mut session = Session::new();
    session.playback.video_queue.push(MediaFrame { pts: Some(9_000), id: 0 });
    session.playback.video_queue.push(MediaFrame { pts: Some(18_000), id: 0 });
    session.video.push_back(video_frame(27_000));

    session.pump();
    assert_eq!(session.queued_pts(), vec![9_000, 18_000]);
    assert_eq!(session.playback.core.diagnostics.received_video_frames, 0);
    assert_eq!(session.playback.core.diagnostics.dropped_video_frames, 0);

    session.playback.video_queue.remove(0);
    session.pump();
    assert_eq!(session.queued_pts(), vec![18_000, 27_000]);
    assert_eq!(session.playback.core.diagnostics.received_video_frames, 1);
    assert_eq!(session.playback.core.diagnostics.dropped_video_frames, 0);
}

#[test]
fn full_video_lookahead_does_not_starve_independent_audio_channel() {
    let mut session = Session::with_sound();
    session.playback.core.video_clock = VideoClock { origin: None, frozen_pts: Some(0) };
    session.playback.video_queue.push(MediaFrame { pts: Some(9_000), id: 0 });
    session.playback.video_queue.push(MediaFrame { pts: Some(18_000), id: 0 });
    session.video.push_back(video_frame(27_000));
    session.audio.push_back(audio_frame(1_024, 0));

    assert_eq!(session.playback.core.diagnostics.received_audio_frames, 0);
    assert_eq!(session.output.as_ref().expect("audio output").queued_samples(), 0);

    session.pump();

    assert_eq!(
        session.playback.core.diagnostics.received_audio_frames, 1,
        "audio goes on while video waits"
    );
    assert!(
        session.output.as_ref().expect("audio output").queued_samples() > 0,
        "audio that was read is queued"
    );
    assert_eq!(
        session.queued_pts(),
        vec![9_000, 18_000],
        "later video stays in its channel while the lookahead is full"
    );
    assert_eq!(session.playback.core.diagnostics.received_video_frames, 0);
    assert_eq!(session.playback.core.diagnostics.dropped_video_frames, 0);

    session.playback.video_queue.remove(0);
    session.pump();
    assert_eq!(
        session.queued_pts(),
        vec![18_000, 27_000],
        "the frame that waited arrives once there is room"
    );
    assert_eq!(session.playback.core.diagnostics.received_video_frames, 1);
    assert_eq!(session.playback.core.diagnostics.dropped_video_frames, 0);
}

#[test]
fn cancellation_unblocks_track_sink_waiting_on_full_channel() {
    let mut sink = SessionTrackSink::new(MediaType::Video);
    let first = video_frame(9_000);
    let second = video_frame(18_000);
    assert_eq!(
        sink.after_send(&first, SendResult::Delivered, false, START),
        SendStep::Done(PlaybackWakeKind::Video)
    );
    assert!(matches!(
        sink.after_send(&second, SendResult::Full, false, START),
        SendStep::Retry { .. }
    ));
    assert!(matches!(sink.before_send(&second, true), Some(SinkError::Cancelled(_))));
    assert!(!sink.blocked);
}

#[test]
fn lost_receiver_ends_a_track_sink() {
    let mut sink = SessionTrackSink::new(MediaType::Video);
    let message = video_frame(0);
    assert!(matches!(
        sink.after_send(&message, SendResult::Disconnected, false, START),
        SendStep::Failed(SinkError::ReceiverDropped(_))
    ));
    assert!(matches!(
        sink.after_send(&message, SendResult::Disconnected, true, START),
        SendStep::Failed(SinkError::Cancelled(_))
    ));
}

#[test]
fn sink_refuses_frames_of_another_kind() {
    let sink = SessionTrackSink::new(MediaType::Video);
    let frame = MediaFrame { pts: None, id: 0 };
    assert_eq!(
        sink.frame_message(MediaType::Audio, frame),
        Err(SinkError::KindMismatch { expected: MediaType::Video, got: MediaType::Audio })
    );
}

#[test]
fn there_is_one_sink_for_each_track() {
    let tracks = vec![
        track(0, MediaType::Video, MPEG_TS),
        track(1, MediaType::Audio, AUDIO_48K),
    ];
    let sinks = open_track_sinks(&tracks).unwrap();
    assert_eq!(
        sinks,
        vec![SessionTrackSink::new(MediaType::Video), SessionTrackSink::new(MediaType::Audio)]
    );
    assert_eq!(
        open_track_sinks(&vec![track(0, MediaType::Unknown, MPEG_TS)]),
        Err(SinkError::UnsupportedTrack(MediaType::Unknown))
    );
    let tracks = vec![
        track(0, MediaType::Video, MPEG_TS),
        track(1, MediaType::Data, MPEG_TS),
        track(2, MediaType::Subtitle, MPEG_TS),
    ];
    assert_eq!(
        open_track_sinks(&tracks),
        Err(SinkError::UnsupportedTrack(MediaType::Data)),
        "the first one is named"
    );
}

#[test]
fn session_starts_with_its_tracks() {
    let tracks = vec![
        track(3, MediaType::Audio, AUDIO_48K),
        track(4, MediaType::Video, MPEG_TS),
        track(5, MediaType::Video, MPEG_TS),
    ];
    let session = started_session(&SessionMsg::Started, &tracks).unwrap();
    assert_eq!(session.video.index, 4);
    assert_eq!(session.audio.unwrap().index, 3);
    assert_eq!(session_streams(&tracks), Some(session));
    assert_eq!(started_session(&SessionMsg::Finished, &tracks), Err(OpenError::MediaBeforeStart));
    assert_eq!(
        started_session(&SessionMsg::Started, &vec![track(0, MediaType::Audio, AUDIO_48K)]),
        Err(OpenError::NoVideo)
    );
    assert_ne!(OpenError::NoVideo.message(), OpenError::MediaBeforeStart.message());
}

#[test]
fn first_decoder_of_a_kind_is_the_one_that_is_shown() {
    let decoder = |name: &str, hardware_accelerated: bool| {
        Some(DecoderDebugInfo { implementation: name.to_string(), hardware_accelerated })
    };
    let tracks = vec![
        TrackDecoder { media_type: MediaType::Audio, decoder: decoder("aac_sw", false) },
        TrackDecoder { media_type: MediaType::Video, decoder: decoder("h264_vulkan", true) },
    ];
    assert_eq!(selected_decoder_info(&tracks, MediaType::Video), decoder("h264_vulkan", true));
    assert_eq!(selected_decoder_info(&tracks, MediaType::Audio), decoder("aac_sw", false));
    assert_eq!(selected_decoder_info(&tracks, MediaType::Unknown), None);
}

#[test]
fn job_names_its_source_and_its_tracks() {
    let with_sound = playback_job("hls+https://example.test/a.m3u8", true);
    let silent = playback_job("hls+https://example.test/a.m3u8", false);
    assert!(with_sound.contains("hls+https://example.test/a.m3u8"));
    assert!(with_sound.contains("audio"));
    assert!(!silent.contains("\"audio\""));
}

#[test]
fn queued_frame_leaves_nothing_waiting() {
    let mut session = Session::with_sound();
    let frame = MediaFrame { pts: Some(0), id: 4 };
    session.playback.audio_queued(frame, QueueResult::Deferred);
    assert_eq!(session.playback.core.pending_audio_frame, Some(frame));
    session.playback.audio_queued(frame, QueueResult::Queued);
    assert_eq!(session.playback.core.pending_audio_frame, None);
}
