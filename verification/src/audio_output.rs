//! The audio output: decoded audio is queued on the PCM timeline, and the device plays
//! once there is enough of it.

use crate::audio_timeline;
use crate::audio_timeline::{FillStats, PcmTimeline, QueueError, QueueResult, Timeline};
use crate::playback::engine::AudioLevels;
use crate::playback::stream::StreamInfo;
use crate::text;
use crate::time::Duration;
use crate::time_base;
use crate::time_base::TimeBase;
use vstd::prelude::*;
use vstd::string::*;

verus! {

/// How many seconds of audio the ring holds.
pub const RING_SECONDS: usize = 4;

/// The smallest ring, in sample frames.
pub const MIN_RING_FRAMES: usize = 4096;

/// How much audio is queued before the device starts.
pub const PREROLL_MILLIS: u64 = 50;

/// The span of `samples` sample frames at `rate`: whole seconds, and the rest to the
/// nanosecond below. Without a rate it is nothing.
pub open spec fn samples_span(samples: u64, rate: u32) -> Duration {
    if rate == 0 {
        Duration { nanos: 0 }
    } else {
        Duration { nanos: ((samples * 1_000_000_000) / (rate as int)) as u128 }
    }
}

pub fn duration_from_samples(samples: u64, rate: u32) -> (span: Duration)
    ensures
        span == samples_span(samples, rate),
{
    if rate == 0 {
        return Duration::zero();
    }
    Duration { nanos: samples as u128 * 1_000_000_000 / rate as u128 }
}

/// Why an audio output cannot be opened or take a frame.
#[derive(Clone, Copy, Debug, PartialEq, Eq, Structural)]
pub enum AudioError {
    NoSampleRate,
    NoChannelCount,
    NoSampleFormat,
    NoTimeBase,
    ZeroChannels,
    SampleCountsDiffer,
    PtsOutOfRange,
    Queue(QueueError),
}

impl AudioError {
    pub open spec fn text(self) -> Seq<char> {
        match self {
            AudioError::NoSampleRate => "decoded audio stream has no sample rate"@,
            AudioError::NoChannelCount => "decoded audio stream has no channel count"@,
            AudioError::NoSampleFormat => "decoded audio stream has no sample format"@,
            AudioError::NoTimeBase => "decoded audio stream has no valid time base"@,
            AudioError::ZeroChannels => "decoded audio contains zero channels"@,
            AudioError::SampleCountsDiffer => "decoded audio channel sample counts do not match frame.samples"@,
            AudioError::PtsOutOfRange => "cannot rescale decoded audio PTS to device sample time"@,
            AudioError::Queue(error) => error.text(),
        }
    }

    pub fn message(&self) -> (message: String)
        ensures
            message@ == self.text(),
    {
        match self {
            AudioError::NoSampleRate => "decoded audio stream has no sample rate".to_owned(),
            AudioError::NoChannelCount => "decoded audio stream has no channel count".to_owned(),
            AudioError::NoSampleFormat => "decoded audio stream has no sample format".to_owned(),
            AudioError::NoTimeBase => "decoded audio stream has no valid time base".to_owned(),
            AudioError::ZeroChannels => "decoded audio contains zero channels".to_owned(),
            AudioError::SampleCountsDiffer => "decoded audio channel sample counts do not match frame.samples".to_owned(),
            AudioError::PtsOutOfRange => "cannot rescale decoded audio PTS to device sample time".to_owned(),
            AudioError::Queue(error) => error.message(),
        }
    }
}

/// The rate and the channels that a device is asked for.
#[derive(Clone, Copy, Debug, PartialEq, Eq, Structural)]
pub struct AudioRequest {
    pub sample_rate: u32,
    pub channels: u16,
}

/// What a track asks of a device.
pub open spec fn request_of(track: StreamInfo) -> Result<AudioRequest, AudioError> {
    let channels = track.params.channel_count();
    if track.params.sample_rate is None || track.params.sample_rate.unwrap() == 0 {
        Err(AudioError::NoSampleRate)
    } else if channels is None || channels.unwrap() == 0 {
        Err(AudioError::NoChannelCount)
    } else if track.params.sample_format is None {
        Err(AudioError::NoSampleFormat)
    } else if track.time_base.num == 0 || track.time_base.den == 0 {
        Err(AudioError::NoTimeBase)
    } else {
        Ok(
            AudioRequest {
                sample_rate: track.params.sample_rate.unwrap(),
                channels: channels.unwrap(),
            },
        )
    }
}

pub fn device_request(track: &StreamInfo) -> (request: Result<AudioRequest, AudioError>)
    ensures
        request == request_of(*track),
{
    let sample_rate: u32 = match track.params.sample_rate {
        Some(rate) => rate,
        None => 0,
    };
    if sample_rate == 0 {
        return Err(AudioError::NoSampleRate);
    }
    let channels: u16 = match track.params.resolved_channels() {
        Some(channels) => channels,
        None => 0,
    };
    if channels == 0 {
        return Err(AudioError::NoChannelCount);
    }
    if track.params.sample_format.is_none() {
        return Err(AudioError::NoSampleFormat);
    }
    if !track.time_base.is_valid() {
        return Err(AudioError::NoTimeBase);
    }
    Ok(AudioRequest { sample_rate, channels })
}

/// What is said of a device that does not play the source as it is.
pub open spec fn mismatch_text(source: AudioRequest, device: AudioRequest, backend: Seq<char>) -> Option<
    Seq<char>,
> {
    let prefix = "oxideav-sysaudio "@ + backend + " negotiated "@;
    if device.channels != source.channels {
        Some(
            prefix + text::decimal(device.channels as nat) + " channels for a "@ + text::decimal(
                source.channels as nat,
            ) + "-channel source; channel remixing is not implemented yet"@,
        )
    } else if device.sample_rate != source.sample_rate {
        Some(
            prefix + text::decimal(device.sample_rate as nat) + " Hz for a "@ + text::decimal(
                source.sample_rate as nat,
            ) + " Hz source; audio resampling is intentionally unsupported in Sanctuary for now"@,
        )
    } else {
        None
    }
}

pub fn validate_device_format(
    source_rate: u32,
    source_channels: u16,
    device: AudioRequest,
    backend_name: &str,
) -> (result: Result<(), String>)
    ensures
        ({
            let source = AudioRequest { sample_rate: source_rate, channels: source_channels };
            match mismatch_text(source, device, backend_name@) {
                Some(text) => result is Err && result.unwrap_err()@ == text,
                None => result is Ok,
            }
        }),
{
    if device.channels != source_channels {
        let mut error = "oxideav-sysaudio ".to_owned();
        error.append(backend_name);
        error.append(" negotiated ");
        text::push_decimal(&mut error, device.channels as u64);
        error.append(" channels for a ");
        text::push_decimal(&mut error, source_channels as u64);
        error.append("-channel source; channel remixing is not implemented yet");
        return Err(error);
    }
    if device.sample_rate != source_rate {
        let mut error = "oxideav-sysaudio ".to_owned();
        error.append(backend_name);
        error.append(" negotiated ");
        text::push_decimal(&mut error, device.sample_rate as u64);
        error.append(" Hz for a ");
        text::push_decimal(&mut error, source_rate as u64);
        error.append(
            " Hz source; audio resampling is intentionally unsupported in Sanctuary for now",
        );
        return Err(error);
    }
    Ok(())
}

/// The samples of `channels` one sample frame after another.
pub open spec fn interleaved(channels: Seq<Vec<u32>>, samples: nat) -> Seq<u32> {
    Seq::new(
        samples * channels.len(),
        |i: int| channels[i % (channels.len() as int)]@[i / (channels.len() as int)],
    )
}

/// The error for channels that do not make up a frame, if any.
pub open spec fn interleave_error(channels: Seq<Vec<u32>>, samples: nat) -> Option<AudioError> {
    if channels.len() == 0 {
        Some(AudioError::ZeroChannels)
    } else if exists|c: int| 0 <= c < channels.len() && (#[trigger] channels[c])@.len() != samples {
        Some(AudioError::SampleCountsDiffer)
    } else {
        None
    }
}

proof fn frame_start(sample: int, c: int, n: int)
    requires
        0 <= c < n,
        0 <= sample,
    ensures
        (sample * n + c) / n == sample,
        (sample * n + c) % n == c,
{
    vstd::arithmetic::div_mod::lemma_fundamental_div_mod_converse(sample * n + c, n, sample, c);
}

/// Puts the samples of the channels one sample frame after another.
pub fn interleave(channels: &Vec<Vec<u32>>, samples: usize) -> (output: Result<Vec<u32>, AudioError>)
    ensures
        match interleave_error(channels@, samples as nat) {
            Some(error) => output == Err::<Vec<u32>, AudioError>(error),
            None => output is Ok && output.unwrap()@ == interleaved(channels@, samples as nat),
        },
{
    if channels.len() == 0 {
        return Err(AudioError::ZeroChannels);
    }
    let count: usize = channels.len();
    let mut c: usize = 0;
    while c < count
        invariant
            c <= count == channels@.len(),
            forall|k: int| 0 <= k < c ==> (#[trigger] channels@[k])@.len() == samples,
        decreases count - c,
    {
        if channels[c].len() != samples {
            assert(channels@[c as int]@.len() != samples);
            return Err(AudioError::SampleCountsDiffer);
        }
        c += 1;
    }
    let ghost whole = interleaved(channels@, samples as nat);
    let mut output: Vec<u32> = Vec::new();
    let mut sample: usize = 0;
    assert(0 * count == 0);
    while sample < samples
        invariant
            0 < count == channels@.len(),
            sample <= samples,
            forall|k: int| 0 <= k < count ==> (#[trigger] channels@[k])@.len() == samples,
            whole == interleaved(channels@, samples as nat),
            output@ =~= whole.take(sample * count),
            sample * count <= whole.len(),
        decreases samples - sample,
    {
        proof {
            assert((sample + 1) * count == sample * count + count) by (nonlinear_arith);
            assert((sample + 1) * count <= samples * count) by (nonlinear_arith)
                requires sample + 1 <= samples;
        }
        let mut c: usize = 0;
        while c < count
            invariant
                0 < count == channels@.len(),
                sample < samples,
                c <= count,
                forall|k: int| 0 <= k < count ==> (#[trigger] channels@[k])@.len() == samples,
                whole == interleaved(channels@, samples as nat),
                sample * count + count <= whole.len(),
                output@ =~= whole.take(sample * count + c),
            decreases count - c,
        {
            proof {
                frame_start(sample as int, c as int, count as int);
                assert(0 <= sample * count) by (nonlinear_arith);
                assert(whole[sample * count + c] == channels@[c as int]@[sample as int]);
            }
            output.push(channels[c][sample]);
            c += 1;
        }
        sample += 1;
    }
    assert(output@ =~= whole);
    Ok(output)
}

/// What the audio output knows, apart from its timeline.
#[derive(Clone, Copy, Debug, PartialEq, Eq)]
pub struct OutputState {
    pub source_time_base: TimeBase,
    pub device_rate: u32,
    pub media_origin: Option<Duration>,
    pub preroll_target_samples: u64,
    pub preroll_done: bool,
    pub user_paused: bool,
    pub callback_active: bool,
    pub submitted_samples: u64,
    pub underrun_callbacks: u64,
    pub underrun_samples: u64,
}

/// The audio output.
pub struct AudioOutput {
    pub state: OutputState,
    pub timeline: PcmTimeline,
}

/// The audio that is queued before the device starts: a part of a second, at least one
/// sample frame.
pub open spec fn preroll_target(rate: u32) -> u64 {
    let frames = (rate * PREROLL_MILLIS) / 1000;
    if frames < 1 { 1 } else { frames as u64 }
}

/// The capacity of the ring: some seconds of audio, but no less than its minimum.
pub open spec fn ring_frames(rate: u32) -> nat {
    let frames = rate * RING_SECONDS;
    if frames < MIN_RING_FRAMES {
        MIN_RING_FRAMES as nat
    } else if frames > usize::MAX {
        usize::MAX as nat
    } else {
        frames as nat
    }
}

/// The share of a second, in sample frames, at least one.
pub open spec fn share_of_second(rate: u32, parts: u64) -> u64 {
    let frames = rate as u64 / parts;
    if frames < 1 { 1 } else { frames }
}

impl OutputState {
    /// Whether the device is to play: there is enough queued, it is known where in the
    /// media the audio starts, and the user has not paused.
    pub open spec fn wants_device(self, t: Timeline) -> bool {
        self.preroll_done && self.media_origin is Some && t.shared.initialised && !self.user_paused
    }

    /// The state once a frame has been queued: the preroll is done when enough is there.
    pub open spec fn prerolled(self, t: Timeline) -> OutputState {
        OutputState {
            preroll_done: self.preroll_done || t.queued() >= self.preroll_target_samples,
            ..self
        }
    }

    /// The state once the device has taken a block.
    pub open spec fn submitted(self, stats: FillStats) -> OutputState {
        if self.callback_active {
            OutputState {
                submitted_samples: self.submitted_samples.wrapping_add(stats.output_frames),
                underrun_callbacks: if stats.silence_frames != 0 {
                    self.underrun_callbacks.wrapping_add(1)
                } else {
                    self.underrun_callbacks
                },
                underrun_samples: self.underrun_samples.wrapping_add(stats.silence_frames),
                ..self
            }
        } else {
            self
        }
    }
}

impl AudioOutput {
    /// The output of a device that plays a track as it is. It stands until it is told to
    /// play.
    pub fn open(request: AudioRequest, time_base: TimeBase) -> (output: Self)
        requires
            request.channels >= 1,
            4 * ring_frames(request.sample_rate) * request.channels <= isize::MAX,
        ensures
            output.timeline.wf(),
            output.timeline@ == (Timeline {
                channels: request.channels as nat,
                capacity: ring_frames(request.sample_rate),
                shared: audio_timeline::SharedTimeline {
                    initialised: false,
                    origin_pts: 0,
                    ring_start_pts: 0,
                    next_output_pts: 0,
                },
                end: None,
                samples: Seq::empty(),
            }),
            output.state == (OutputState {
                source_time_base: time_base,
                device_rate: request.sample_rate,
                media_origin: None,
                preroll_target_samples: preroll_target(request.sample_rate),
                preroll_done: false,
                user_paused: true,
                callback_active: false,
                submitted_samples: 0,
                underrun_callbacks: 0,
                underrun_samples: 0,
            }),
    {
        let frames: u64 = request.sample_rate as u64 * RING_SECONDS as u64;
        let capacity: usize = if frames < MIN_RING_FRAMES as u64 {
            MIN_RING_FRAMES
        } else if frames > usize::MAX as u64 {
            usize::MAX
        } else {
            frames as usize
        };
        let target: u64 = request.sample_rate as u64 * PREROLL_MILLIS / 1000;
        AudioOutput {
            state: OutputState {
                source_time_base: time_base,
                device_rate: request.sample_rate,
                media_origin: None,
                preroll_target_samples: if target < 1 { 1 } else { target },
                preroll_done: false,
                user_paused: true,
                callback_active: false,
                submitted_samples: 0,
                underrun_callbacks: 0,
                underrun_samples: 0,
            },
            timeline: audio_timeline::pcm_timeline_ring(capacity, request.channels),
        }
    }

    /// Whether the device is to play.
    pub fn should_play(&self) -> (play: bool)
        ensures
            play == self.state.wants_device(self.timeline@),
    {
        self.state.preroll_done && self.state.media_origin.is_some()
            && self.timeline.origin_pts().is_some() && !self.state.user_paused
    }

    /// What is to be done with the device, where it does not do what it is to do. From then
    /// on blocks count if it is to play.
    pub fn apply_play_state(&mut self, device_playing: bool) -> (change: Option<bool>)
        ensures
            ({
                let play = old(self).state.wants_device(old(self).timeline@);
                &&& final(self).timeline == old(self).timeline
                &&& change == (if play == device_playing { None } else { Some(play) })
                &&& final(self).state == (if play == device_playing {
                    old(self).state
                } else {
                    OutputState { callback_active: play, ..old(self).state }
                })
            }),
    {
        let play = self.should_play();
        if play == device_playing {
            return None;
        }
        self.state.callback_active = play;
        Some(play)
    }

    /// Takes note that the device did not do what it was told.
    pub fn play_state_failed(&mut self)
        ensures
            final(self).timeline == old(self).timeline,
            final(self).state == (OutputState { callback_active: false, ..old(self).state }),
    {
        self.state.callback_active = false;
    }

    /// Says where in the media the audio starts; the first answer stands.
    pub fn set_media_origin(&mut self, origin: Duration)
        ensures
            final(self).timeline == old(self).timeline,
            final(self).state == (OutputState {
                media_origin: if old(self).state.media_origin is Some {
                    old(self).state.media_origin
                } else {
                    Some(origin)
                },
                ..old(self).state
            }),
    {
        if self.state.media_origin.is_none() {
            self.state.media_origin = Some(origin);
        }
    }

    /// Takes note that no more audio comes: a clip shorter than the preroll plays too.
    pub fn finish_input(&mut self)
        ensures
            final(self).timeline == old(self).timeline,
            final(self).state == (OutputState { preroll_done: true, ..old(self).state }),
    {
        self.state.preroll_done = true;
    }

    pub fn set_paused(&mut self, paused: bool)
        ensures
            final(self).timeline == old(self).timeline,
            final(self).state == (OutputState { user_paused: paused, ..old(self).state }),
    {
        self.state.user_paused = paused;
    }

    /// Queues a decoded frame whose channels hold `samples` samples each.
    pub fn queue(&mut self, pts: Option<i64>, channels: &Vec<Vec<u32>>, samples: u32) -> (result: Result<
        QueueResult,
        AudioError,
    >)
        requires
            old(self).timeline.wf(),
        ensures
            final(self).timeline.wf(),
            ({
                let rescaled = rescaled_pts(old(self).state, pts);
                match interleave_error(channels@, samples as nat) {
                    Some(error) => result == Err::<QueueResult, AudioError>(error) && *final(self)
                        == *old(self),
                    None => match rescaled {
                        Err(error) => result == Err::<QueueResult, AudioError>(error)
                            && *final(self) == *old(self),
                        Ok(frame_pts) => {
                            let data = interleaved(channels@, samples as nat);
                            let t = old(self).timeline@;
                            let after = audio_timeline::after_queue(
                                t,
                                frame_pts,
                                samples as u64,
                                data,
                            );
                            &&& final(self).timeline@ == after
                            &&& match audio_timeline::queue_outcome(
                                t,
                                frame_pts,
                                samples as u64,
                                data,
                            ) {
                                Ok(outcome) => result == Ok::<QueueResult, AudioError>(outcome)
                                    && final(self).state == old(self).state.prerolled(after),
                                Err(error) => result == Err::<QueueResult, AudioError>(
                                    AudioError::Queue(error),
                                ) && final(self).state == old(self).state,
                            }
                        },
                    },
                }
            }),
    {
        let data = match interleave(channels, samples as usize) {
            Ok(data) => data,
            Err(error) => {
                return Err(error);
            },
        };
        let frame_pts = match pts {
            None => None,
            Some(pts) => match time_base::rescale_checked(
                pts,
                self.state.source_time_base,
                TimeBase::from_rate(self.state.device_rate),
            ) {
                Some(pts) => Some(pts),
                None => {
                    return Err(AudioError::PtsOutOfRange);
                },
            },
        };
        match self.timeline.queue_interleaved(frame_pts, samples as u64, data.as_slice()) {
            Ok(outcome) => {
                if !self.state.preroll_done && self.timeline.queued_frames() as u64
                    >= self.state.preroll_target_samples {
                    self.state.preroll_done = true;
                }
                Ok(outcome)
            },
            Err(error) => Err(AudioError::Queue(error)),
        }
    }

    /// Fills a block for the device.
    pub fn fill(&mut self, out: &mut [u32]) -> (stats: FillStats)
        requires
            old(self).timeline.wf(),
            old(out)@.len() % old(self).timeline@.channels == 0,
        ensures
            ({
                let t = old(self).timeline@;
                let frames = (old(out)@.len() / t.channels) as int;
                &&& final(self).timeline.wf()
                &&& final(self).timeline@ == audio_timeline::after_fill(t, frames)
                &&& final(out)@ == audio_timeline::fill_output(t, frames)
                &&& stats == audio_timeline::fill_stats(t, frames)
                &&& final(self).state == old(self).state.submitted(stats)
            }),
    {
        let stats = self.timeline.fill(out);
        if self.state.callback_active {
            self.state.submitted_samples = self.state.submitted_samples.wrapping_add(
                stats.output_frames,
            );
            if stats.silence_frames != 0 {
                self.state.underrun_callbacks = self.state.underrun_callbacks.wrapping_add(1);
            }
            self.state.underrun_samples = self.state.underrun_samples.wrapping_add(
                stats.silence_frames,
            );
        }
        stats
    }

    pub fn preroll_ready(&self) -> (ready: bool)
        ensures
            ready == self.state.preroll_done,
    {
        self.state.preroll_done
    }

    pub fn queued_samples(&self) -> (samples: u64)
        requires
            self.timeline.wf(),
        ensures
            samples == self.timeline@.queued(),
    {
        self.timeline.queued_frames() as u64
    }

    pub fn headroom_samples(&self) -> (samples: u64)
        requires
            self.timeline.wf(),
        ensures
            samples == self.timeline@.capacity - self.timeline@.queued(),
    {
        self.timeline.vacant_frames() as u64
    }

    pub fn queue_target_samples(&self) -> (samples: u64)
        ensures
            samples == share_of_second(self.state.device_rate, 2),
    {
        let half: u64 = self.state.device_rate as u64 / 2;
        if half < 1 { 1 } else { half }
    }

    pub fn minimum_headroom_samples(&self) -> (samples: u64)
        ensures
            samples == share_of_second(self.state.device_rate, 10),
    {
        let tenth: u64 = self.state.device_rate as u64 / 10;
        if tenth < 1 { 1 } else { tenth }
    }

    pub fn queued_duration(&self) -> (span: Duration)
        requires
            self.timeline.wf(),
        ensures
            span == samples_span(self.timeline@.queued() as u64, self.state.device_rate),
    {
        duration_from_samples(self.queued_samples(), self.state.device_rate)
    }

    pub fn headroom_duration(&self) -> (span: Duration)
        requires
            self.timeline.wf(),
        ensures
            span == samples_span(
                (self.timeline@.capacity - self.timeline@.queued()) as u64,
                self.state.device_rate,
            ),
    {
        duration_from_samples(self.headroom_samples(), self.state.device_rate)
    }

    /// How full the output is.
    pub fn levels(&self) -> (levels: AudioLevels)
        requires
            self.timeline.wf(),
        ensures
            levels == (AudioLevels {
                preroll_ready: self.state.preroll_done,
                queued_samples: self.timeline@.queued() as u64,
                target_samples: share_of_second(self.state.device_rate, 2),
                headroom_samples: (self.timeline@.capacity - self.timeline@.queued()) as u64,
                minimum_headroom_samples: share_of_second(self.state.device_rate, 10),
            }),
    {
        AudioLevels {
            preroll_ready: self.preroll_ready(),
            queued_samples: self.queued_samples(),
            target_samples: self.queue_target_samples(),
            headroom_samples: self.headroom_samples(),
            minimum_headroom_samples: self.minimum_headroom_samples(),
        }
    }

    /// The media position that the device has reached.
    pub fn media_position(&self) -> (position: Option<Duration>)
        ensures
            position == reached_position(self.state, self.timeline@),
    {
        let media_origin = match self.state.media_origin {
            Some(origin) => origin,
            None => {
                return None;
            },
        };
        match (self.timeline.origin_pts(), self.timeline.next_output_pts()) {
            (Some(origin), Some(next)) => {
                let elapsed: i128 = next as i128 - origin as i128;
                let samples: u64 = if elapsed < 0 {
                    0
                } else if elapsed > i64::MAX as i128 {
                    i64::MAX as u64
                } else {
                    elapsed as u64
                };
                Some(
                    media_origin.saturating_add(
                        duration_from_samples(samples, self.state.device_rate),
                    ),
                )
            },
            _ => None,
        }
    }
}

/// The time stamp of a frame in sample frames of the device.
pub open spec fn rescaled_pts(state: OutputState, pts: Option<i64>) -> Result<Option<i64>, AudioError> {
    match pts {
        None => Ok(None),
        Some(pts) => match time_base::rescaled_checked(
            pts,
            state.source_time_base,
            TimeBase::of_rate(state.device_rate),
        ) {
            Some(pts) => Ok(Some(pts)),
            None => Err(AudioError::PtsOutOfRange),
        },
    }
}

/// The media position that the device has reached: the media origin and what has been
/// played since.
pub open spec fn reached_position(state: OutputState, t: Timeline) -> Option<Duration> {
    if state.media_origin is Some && t.shared.initialised {
        let elapsed = t.shared.next_output_pts - t.shared.origin_pts;
        let samples = if elapsed < 0 {
            0
        } else if elapsed > i64::MAX {
            i64::MAX as int
        } else {
            elapsed
        };
        Some(
            state.media_origin.unwrap().plus(samples_span(samples as u64, state.device_rate)),
        )
    } else {
        None
    }
}

/// The device never plays before there is a place in the media to play from.
pub proof fn device_waits_for_an_origin(state: OutputState, t: Timeline)
    ensures
        state.media_origin is None ==> !state.wants_device(t),
        state.user_paused ==> !state.wants_device(t),
        !t.shared.initialised ==> !state.wants_device(t),
{
}

/// As many samples as there are in a second last a second, and others as long as their share
/// of it, to the nanosecond below.
pub proof fn samples_last_their_share_of_a_second(samples: u64, rate: u32)
    requires
        rate > 0,
    ensures
        samples_span(samples, rate).nanos * rate <= samples * 1_000_000_000 < (samples_span(
            samples,
            rate,
        ).nanos + 1) * rate,
{
    let n = samples * 1_000_000_000;
    let d = rate as int;
    let q = n / d;
    assert(q * d <= n < (q + 1) * d) by (nonlinear_arith)
        requires
            d > 0,
            q == n / d,
    ;
    assert(0 <= q <= n) by (nonlinear_arith)
        requires
            d > 0,
            n >= 0,
            q == n / d,
    ;
}

/// Sound begins once a twentieth of a second of it is there, the ring holds four seconds of
/// it, half a second is aimed at, and a tenth is kept free.
pub proof fn sound_is_held_in_seconds(rate: u32)
    requires
        4096 <= rate <= 100_000_000,
    ensures
        preroll_target(rate) * 20 <= rate < (preroll_target(rate) + 1) * 20,
        ring_frames(rate) == 4 * rate,
        share_of_second(rate, 2) * 2 <= rate < (share_of_second(rate, 2) + 1) * 2,
        share_of_second(rate, 10) * 10 <= rate < (share_of_second(rate, 10) + 1) * 10,
{
}

/// However low the rate, something is waited for, aimed at and kept free, and the ring holds
/// 4096 frames.
pub proof fn some_sound_is_always_held(rate: u32)
    ensures
        preroll_target(rate) >= 1,
        ring_frames(rate) >= 4096,
        share_of_second(rate, 2) >= 1,
        share_of_second(rate, 10) >= 1,
        rate < 1024 ==> ring_frames(rate) == 4096,
{
}

/// Interleaved sound holds, for each sample in turn, that sample of every channel in order.
pub proof fn channels_take_turns(channels: Seq<Vec<u32>>, samples: nat, sample: int, channel: int)
    requires
        0 <= sample < samples,
        0 <= channel < channels.len(),
    ensures
        interleaved(channels, samples).len() == samples * channels.len(),
        0 <= sample * channels.len() + channel < interleaved(channels, samples).len(),
        interleaved(channels, samples)[sample * channels.len() + channel]
            == channels[channel]@[sample],
{
    let n = channels.len() as int;
    let i = sample * n + channel;
    assert(i < samples * n) by (nonlinear_arith)
        requires
            i == sample * n + channel,
            channel < n,
            sample + 1 <= samples,
            n > 0,
    ;
    assert(i >= 0) by (nonlinear_arith)
        requires
            i == sample * n + channel,
            channel >= 0,
            sample >= 0,
            n > 0,
    ;
    vstd::arithmetic::div_mod::lemma_fundamental_div_mod_converse(i, n, sample, channel);
}

/// The device plays once enough sound has come in, it is known where the sound begins, and
/// the user has not paused.
pub proof fn device_plays_once_it_can(state: OutputState, t: Timeline)
    ensures
        state.wants_device(t) <==> (state.preroll_done && state.media_origin is Some
            && t.shared.initialised && !state.user_paused),
        state.prerolled(t).preroll_done <==> (state.preroll_done || t.queued()
            >= state.preroll_target_samples),
        state.prerolled(t).user_paused == state.user_paused,
        state.prerolled(t).media_origin == state.media_origin,
{
}

/// The position that is heard is where the sound began and as many seconds on as samples have
/// gone out since.
pub proof fn heard_position_follows_the_samples(state: OutputState, t: Timeline, origin: Duration)
    requires
        state.media_origin == Some(origin),
        t.shared.initialised,
        state.device_rate > 0,
        origin.nanos < 18_000_000_000_000_000_000_000_000_000,
        0 <= t.shared.next_output_pts - t.shared.origin_pts < 100_000_000_000_000_000,
    ensures
        reached_position(state, t) is Some,
        ({
            let heard = reached_position(state, t).unwrap().nanos - origin.nanos;
            let samples = t.shared.next_output_pts - t.shared.origin_pts;
            heard * state.device_rate <= samples * 1_000_000_000 < (heard + 1) * state.device_rate
        }),
{
    let samples = (t.shared.next_output_pts - t.shared.origin_pts) as u64;
    samples_last_their_share_of_a_second(samples, state.device_rate);
    let span = samples_span(samples, state.device_rate).nanos;
    assert(span <= samples * 1_000_000_000) by (nonlinear_arith)
        requires
            span * state.device_rate <= samples * 1_000_000_000,
            state.device_rate >= 1,
    ;
}

/// What goes out while the device plays is counted, silence among it as missing.
pub proof fn missing_sound_is_counted(state: OutputState, stats: FillStats)
    requires
        state.submitted_samples + stats.output_frames <= u64::MAX,
        state.underrun_samples + stats.silence_frames <= u64::MAX,
        state.underrun_callbacks < u64::MAX,
    ensures
        ({
            let after = state.submitted(stats);
            &&& !state.callback_active ==> after == state
            &&& state.callback_active ==> after.submitted_samples == state.submitted_samples
                + stats.output_frames && after.underrun_samples == state.underrun_samples
                + stats.silence_frames
            &&& state.callback_active && stats.silence_frames > 0 ==> after.underrun_callbacks
                == state.underrun_callbacks + 1
            &&& stats.silence_frames == 0 ==> after.underrun_callbacks == state.underrun_callbacks
        }),
{
}

} // verus!
