//! Every way in which the audio timeline, the surface and the video bridge refuse.

use sanctuary_player::android::bridge::{
    spv_words, BridgeDevice, BridgeError, ExternalFormatKey, FenceStatus, FormatProperties,
    FrameStorage, MediaCodecVulkanBridge, OutputUse, YcbcrModel, YcbcrRange,
};
use sanctuary_player::android::gpu::{AndroidGpu, GpuError};
use sanctuary_player::audio_timeline::{pcm_timeline_ring, QueueError, QueueResult};
use sanctuary_player::playback::engine::MediaFrame;
use sanctuary_player::playback::sink::{SessionTrackSink, SinkError};
use sanctuary_player::playback::stream::MediaType;
use sanctuary_player::surface::{SurfaceFormat, SurfaceTexture};

const KEY: ExternalFormatKey = ExternalFormatKey { format: 0, external_format: 9 };

fn properties() -> FormatProperties {
    FormatProperties {
        key: KEY,
        sampled: true,
        linear_filter: false,
        suggested_model: YcbcrModel::Ycbcr709,
        suggested_range: YcbcrRange::ItuFull,
    }
}

fn bridge() -> MediaCodecVulkanBridge {
    MediaCodecVulkanBridge::new(64, 32, 2, properties(), None).unwrap().0
}

#[test]
fn audio_frame_larger_than_memory_is_rejected() {
    let mut timeline = pcm_timeline_ring(8, 2);
    assert_eq!(
        timeline.queue_interleaved(Some(0), u64::MAX, &[]),
        Err(QueueError::FrameSizeOverflow)
    );
    assert_eq!(QueueError::FrameSizeOverflow.message(), "decoded audio frame size overflow");
}

#[test]
fn audio_frame_larger_than_the_ring_is_rejected() {
    let mut timeline = pcm_timeline_ring(2, 1);
    let error = timeline.queue_interleaved(Some(0), 3, &[1, 2, 3]).unwrap_err();
    assert_eq!(error, QueueError::ExceedsCapacity { usable: 3, capacity: 2 });
    assert_eq!(timeline.queued_frames(), 0);
}

#[test]
fn audio_gap_wider_than_any_time_stamp_is_rejected() {
    let mut timeline = pcm_timeline_ring(8, 1);
    assert_eq!(timeline.queue_interleaved(Some(i64::MIN), 1, &[1]), Ok(QueueResult::Queued));
    assert_eq!(
        timeline.queue_interleaved(Some(1), 1, &[1]),
        Err(QueueError::GapOutOfRange)
    );
    assert_eq!(timeline.queued_frames(), 1);
}

#[test]
fn audio_errors_say_what_is_wrong() {
    assert_eq!(
        QueueError::FrameTooLarge.message(),
        "decoded audio frame is too large for this platform"
    );
    assert_eq!(
        QueueError::DurationOutOfRange.message(),
        "decoded audio frame duration exceeds PTS range"
    );
    assert_eq!(QueueError::GapOutOfRange.message(), "decoded audio gap exceeds supported range");
}

#[test]
fn bridge_names_what_the_device_lacks() {
    let device = BridgeDevice {
        nv12: true,
        vulkan_device: true,
        vulkan_queue: true,
        hardware_buffers: true,
        foreign_queues: true,
    };
    let frame = FrameStorage::Direct { width: 64, height: 32 };
    let prepare = |device| MediaCodecVulkanBridge::prepare(frame, 2, device).unwrap_err();
    assert!(matches!(
        prepare(BridgeDevice { nv12: false, ..device }),
        BridgeError::NoConversion
    ));
    assert!(matches!(
        prepare(BridgeDevice { vulkan_device: false, ..device }),
        BridgeError::NotVulkanDevice
    ));
    assert!(matches!(
        prepare(BridgeDevice { vulkan_queue: false, ..device }),
        BridgeError::NotVulkanQueue
    ));
    assert!(matches!(
        prepare(BridgeDevice { foreign_queues: false, ..device }),
        BridgeError::NoForeignQueues
    ));
}

#[test]
fn bridge_needs_a_format_that_can_be_sampled() {
    let hidden = FormatProperties { sampled: false, ..properties() };
    assert!(matches!(
        MediaCodecVulkanBridge::new(64, 32, 2, hidden, None),
        Err(BridgeError::NotSampleable)
    ));
    let unknown = ExternalFormatKey { format: 0, external_format: 0 };
    let nameless = FormatProperties { key: unknown, ..properties() };
    assert!(matches!(
        MediaCodecVulkanBridge::new(64, 32, 2, nameless, None),
        Err(BridgeError::NoFormat)
    ));
}

#[test]
fn bridge_refuses_textures_that_it_does_not_have() {
    let mut bridge = bridge();
    assert!(matches!(
        bridge.is_available(2, FenceStatus::Signalled, String::new()),
        Err(BridgeError::SlotOutOfRange)
    ));
    bridge.mark_sampled(2);
    assert_eq!(bridge.render_plan(1, KEY, 1).unwrap().output, OutputUse::Attachment);
    bridge.mark_sampled(1);
    assert_eq!(bridge.render_plan(1, KEY, 1).unwrap().output, OutputUse::ShaderRead);
}

#[test]
fn bridge_passes_on_what_the_driver_says() {
    let mut bridge = bridge();
    bridge.submitted(0);
    let error = bridge.is_available(0, FenceStatus::Failed, "device lost".to_string()).unwrap_err();
    assert!(matches!(error, BridgeError::Driver { .. }));
    assert_eq!(error.message(), "query MediaCodec direct fence: device lost");
    assert!(bridge.is_inflight(0));
    assert!(!bridge.is_available(0, FenceStatus::Pending, String::new()).unwrap());
    assert!(bridge.is_available(0, FenceStatus::Signalled, String::new()).unwrap());
    assert!(!bridge.is_inflight(0));
    assert!(matches!(spv_words(&[1, 2, 3, 4]), Err(BridgeError::Driver { .. })));
}

#[test]
fn bridge_refuses_another_format() {
    let other = ExternalFormatKey { format: 37, external_format: 0 };
    match bridge().render_plan(0, other, 1) {
        Err(BridgeError::FormatChanged { from, to }) => {
            assert_eq!(from, KEY);
            assert_eq!(to, other);
        }
        _ => panic!("another format was taken"),
    }
}

#[test]
fn surface_errors_say_what_is_wrong() {
    let broken = "broken".to_string();
    assert_eq!(GpuError::NoWindow.message(), "Android native window is unavailable");
    assert_eq!(
        GpuError::Surface(broken.clone()).message(),
        "could not create Android wgpu surface: broken"
    );
    assert_eq!(
        GpuError::NoAdapter(broken.clone()).message(),
        "could not find Android GPU adapter: broken"
    );
    assert_eq!(
        GpuError::Wrapping(broken.clone()).message(),
        "could not wrap Android Vulkan device: broken"
    );
    assert_eq!(
        GpuError::Device(broken).message(),
        "could not create Android GPU device: broken"
    );
}

#[test]
fn surface_without_a_default_is_not_attached() {
    let formats = vec![SurfaceFormat::Rgba8Unorm];
    let mut gpu = AndroidGpu::new(8, 8, &formats, Some(SurfaceFormat::Rgba8Unorm)).unwrap();
    gpu.detach_window();
    assert!(matches!(
        gpu.attach_window(8, 8, &formats, false, "Rgba8Unorm".to_string()),
        Err(GpuError::RecreatedIncompatible)
    ));
    assert_eq!(gpu.dimensions(), None);
    gpu.attach_window(8, 8, &formats, true, "Rgba8Unorm".to_string()).unwrap();
    assert!(matches!(gpu.acquire(SurfaceTexture::Validation), Err(GpuError::Validation)));
}

#[test]
fn sink_errors_say_what_is_wrong() {
    let sink = SessionTrackSink::new(MediaType::Video);
    let error = sink.frame_message(MediaType::Audio, MediaFrame { pts: None, id: 0 }).unwrap_err();
    assert_eq!(
        error.message(),
        "SanctuaryPlayer: TrackSink kind mismatch expected=Video got=Audio"
    );
    assert_eq!(
        SinkError::UnsupportedTrack(MediaType::Subtitle).message(),
        "SanctuaryPlayer: unsupported playback TrackSink media type Subtitle"
    );
    assert_eq!(SinkError::Cancelled("stopped".to_string()).message(), "stopped");
    assert_eq!(SinkError::ReceiverDropped("gone".to_string()).message(), "gone");
}
