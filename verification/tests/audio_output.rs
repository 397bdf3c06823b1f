//! The audio output: what it asks of a device, and how decoded frames get to it.

use sanctuary_player::audio_output::{
    device_request, duration_from_samples, interleave, validate_device_format, AudioError,
    AudioOutput, AudioRequest,
};
use sanctuary_player::audio_timeline::{QueueError, QueueResult};
use sanctuary_player::playback::stream::{MediaType, StreamInfo, StreamParams};
use sanctuary_player::time::Duration;
use sanctuary_player::time_base::TimeBase;

const AUDIO_48K: TimeBase = TimeBase { num: 1, den: 48_000 };
const MPEG_TS: TimeBase = TimeBase { num: 1, den: 90_000 };

fn bits(samples: &[f32]) -> Vec<u32> {
    samples.iter().map(|sample| sample.to_bits()).collect()
}

fn mock_request() -> AudioRequest {
    AudioRequest { sample_rate: 48_000, channels: 2 }
}

fn stereo_channels(samples: usize) -> Vec<Vec<u32>> {
    vec![bits(&vec![0.25; samples]), bits(&vec![-0.25; samples])]
}

fn audio_track() -> StreamInfo {
    StreamInfo {
        index: 1,
        media_type: MediaType::Audio,
        time_base: AUDIO_48K,
        start_time: Some(0),
        duration: None,
        params: StreamParams {
            codec: 1,
            sample_rate: Some(48_000),
            channels: Some(2),
            layout_channels: None,
            sample_format: Some(5),
            width: None,
            height: None,
            pixel_format: None,
            described: 0,
        },
    }
}

#[test]
fn interleave_preserves_sample_then_channel_order() {
    let output =
        interleave(&vec![bits(&[1.0, 2.0, 3.0]), bits(&[10.0, 20.0, 30.0])], 3).unwrap();
    assert_eq!(output, bits(&[1.0, 10.0, 2.0, 20.0, 3.0, 30.0]));
}

#[test]
fn duration_from_samples_is_exact_at_whole_and_fractional_seconds() {
    assert_eq!(duration_from_samples(48_000, 48_000), Duration::from_secs(1));
    assert_eq!(duration_from_samples(12_000, 48_000), Duration::from_millis(250));
}

#[test]
fn interleave_rejects_mismatched_channel_lengths() {
    let error = interleave(&vec![bits(&[1.0, 2.0]), bits(&[10.0])], 2).unwrap_err();
    assert!(error.message().contains("sample counts"));
}

#[test]
fn interleave_rejects_frames_without_channels() {
    assert_eq!(interleave(&Vec::new(), 2), Err(AudioError::ZeroChannels));
}

#[test]
fn audio_frame_pts_is_rescaled_to_integer_device_sample_pts() {
    let mut output = AudioOutput::open(mock_request(), MPEG_TS);
    output.queue(Some(90_000), &stereo_channels(2_400), 2_400).unwrap();
    assert_eq!(output.timeline.origin_pts(), Some(48_000));
    assert_eq!(output.timeline.ring_end_pts(), Some(50_400));
}

#[test]
fn missing_frame_pts_is_accepted_as_contiguous() {
    let mut output = AudioOutput::open(mock_request(), AUDIO_48K);
    output.queue(Some(5_000), &stereo_channels(1_000), 1_000).unwrap();
    output.queue(None, &stereo_channels(500), 500).unwrap();
    assert_eq!(output.timeline.ring_end_pts(), Some(6_500));
}

#[test]
fn device_rate_mismatch_is_rejected_instead_of_resampled() {
    let device = AudioRequest { sample_rate: 44_100, channels: 2 };
    let error = validate_device_format(48_000, 2, device, "mock").unwrap_err();
    assert!(error.contains("resampling is intentionally unsupported"));
}

#[test]
fn device_channel_mismatch_is_rejected() {
    let device = AudioRequest { sample_rate: 48_000, channels: 1 };
    let error = validate_device_format(48_000, 2, device, "mock").unwrap_err();
    assert!(error.contains("channel remixing is not implemented"));
}

#[test]
fn device_with_the_format_of_the_track_is_accepted() {
    assert_eq!(validate_device_format(48_000, 2, mock_request(), "mock"), Ok(()));
}

#[test]
fn mock_output_advances_next_output_pts_for_every_submitted_block() {
    let mut output = AudioOutput::open(mock_request(), AUDIO_48K);
    output.set_media_origin(Duration::from_secs(2));
    output.queue(Some(0), &stereo_channels(2_400), 2_400).unwrap();
    assert!(output.preroll_ready());
    assert_eq!(output.media_position(), Some(Duration::from_secs(2)));

    output.set_paused(false);
    assert_eq!(output.apply_play_state(false), Some(true));
    let mut block = vec![0u32; 960];
    while output.state.submitted_samples < 2_400 {
        output.fill(&mut block);
    }
    output.set_paused(true);
    assert_eq!(output.apply_play_state(true), Some(false));
    assert!(output.state.submitted_samples >= 2_400);
    let position = output.media_position().expect("audio timeline initialised");
    assert!(position.nanos >= Duration::from_millis(2_050).nanos);
}

#[test]
fn device_stays_silent_before_enough_is_queued() {
    let mut output = AudioOutput::open(mock_request(), AUDIO_48K);
    output.set_media_origin(Duration::zero());
    output.set_paused(false);
    output.queue(Some(0), &stereo_channels(2_399), 2_399).unwrap();
    assert!(!output.should_play());
    output.queue(None, &stereo_channels(1), 1).unwrap();
    assert!(output.should_play());
}

#[test]
fn end_of_input_lets_a_short_rest_play() {
    let mut output = AudioOutput::open(mock_request(), AUDIO_48K);
    output.set_media_origin(Duration::zero());
    output.set_paused(false);
    output.queue(Some(0), &stereo_channels(10), 10).unwrap();
    assert!(!output.should_play());
    output.finish_input();
    assert!(output.should_play());
}

#[test]
fn block_that_runs_dry_counts_as_an_underrun() {
    let mut output = AudioOutput::open(mock_request(), AUDIO_48K);
    output.set_media_origin(Duration::zero());
    output.queue(Some(0), &stereo_channels(2_400), 2_400).unwrap();
    output.set_paused(false);
    output.apply_play_state(false);
    let mut block = vec![0u32; 2 * 2_500];
    let stats = output.fill(&mut block);
    assert_eq!(stats.copied_frames, 2_400);
    assert_eq!(stats.silence_frames, 100);
    assert_eq!(output.state.underrun_callbacks, 1);
    assert_eq!(output.state.underrun_samples, 100);
}

#[test]
fn audio_track_asks_for_its_rate_and_channels() {
    assert_eq!(device_request(&audio_track()), Ok(mock_request()));
    let mut track = audio_track();
    track.params.channels = None;
    track.params.layout_channels = Some(6);
    assert_eq!(
        device_request(&track),
        Ok(AudioRequest { sample_rate: 48_000, channels: 6 })
    );
}

#[test]
fn audio_track_without_its_parameters_cannot_be_played() {
    let mut track = audio_track();
    track.params.sample_rate = Some(0);
    assert_eq!(device_request(&track), Err(AudioError::NoSampleRate));
    let mut track = audio_track();
    track.params.channels = None;
    assert_eq!(device_request(&track), Err(AudioError::NoChannelCount));
    let mut track = audio_track();
    track.params.sample_format = None;
    assert_eq!(device_request(&track), Err(AudioError::NoSampleFormat));
    let mut track = audio_track();
    track.time_base = TimeBase::new(1, 0);
    assert_eq!(device_request(&track), Err(AudioError::NoTimeBase));
}

#[test]
fn frame_with_missing_samples_is_not_queued() {
    let mut output = AudioOutput::open(mock_request(), AUDIO_48K);
    assert_eq!(
        output.queue(Some(0), &stereo_channels(9), 10),
        Err(AudioError::SampleCountsDiffer)
    );
    assert_eq!(output.queued_samples(), 0);
}

#[test]
fn time_stamp_that_does_not_fit_the_device_is_refused() {
    let mut output = AudioOutput::open(mock_request(), TimeBase::new(1, 1));
    assert_eq!(
        output.queue(Some(i64::MAX), &stereo_channels(1), 1),
        Err(AudioError::PtsOutOfRange)
    );
    let mut output = AudioOutput::open(mock_request(), AUDIO_48K);
    assert_eq!(
        output.queue(Some(i64::MAX), &stereo_channels(1), 1),
        Err(AudioError::Queue(QueueError::EndOverflow))
    );
}

#[test]
fn queued_audio_is_counted_in_time() {
    let mut output = AudioOutput::open(mock_request(), AUDIO_48K);
    assert_eq!(output.queue(Some(0), &stereo_channels(4_800), 4_800), Ok(QueueResult::Queued));
    assert_eq!(output.queued_samples(), 4_800);
    assert_eq!(output.queued_duration(), Duration::from_millis(100));
    assert_eq!(output.queue_target_samples(), 24_000);
    assert_eq!(output.minimum_headroom_samples(), 4_800);
    assert_eq!(output.headroom_samples() + output.queued_samples(), 192_000);
}
