//! What playback shows of itself.

use sanctuary_player::model::PlaybackState;
use sanctuary_player::playback::backend::OxidePlayer;
use sanctuary_player::playback::clock::VideoClock;
use sanctuary_player::playback::debug::{AudioFacts, DebugFacts, ExecutorStatus};
use sanctuary_player::playback::debug_graph::{StageInfo, Topology, TrackTopology};
use sanctuary_player::playback::decode_mode::DecodeMode;
use sanctuary_player::playback::engine::{
    AudioLevels, OxidePlayback, PlaybackCore, PlaybackDiagnostics, VIDEO_QUEUE_CAP,
};
use sanctuary_player::playback::sink::{DecoderDebugInfo, PLAYBACK_PACKET_CHANNEL_CAP};
use sanctuary_player::playback::stream::{MediaType, StreamInfo, StreamParams};
use sanctuary_player::surface::{GraphicsInfo, SharedDevice};
use sanctuary_player::model::{DebugGraph, DebugInfoSection};
use sanctuary_player::time::{Duration, Instant};
use sanctuary_player::time_base::TimeBase;
use sanctuary_player::video::VideoSource;

const START: Instant = Instant { nanos: 1_000_000_000_000 };

fn track(index: u32, media_type: MediaType, den: i64) -> StreamInfo {
    StreamInfo {
        index,
        media_type,
        time_base: TimeBase { num: 1, den },
        start_time: Some(0),
        duration: None,
        params: StreamParams {
            codec: index,
            sample_rate: None,
            channels: None,
            layout_channels: None,
            sample_format: None,
            width: None,
            height: None,
            pixel_format: None,
            described: 0,
        },
    }
}

fn player() -> OxidePlayer {
    OxidePlayer {
        source: VideoSource::parse("2386400830").unwrap(),
        engine: OxidePlayback {
            core: PlaybackCore {
                state: PlaybackState::Playing,
                position: Duration::from_secs(1),
                duration: None,
                executor: false,
                video_stream: track(0, MediaType::Video, 90_000),
                audio_stream: None,
                audio_open: false,
                pending_audio_frame: None,
                video_clock: VideoClock { origin: Some((90_000, START)), frozen_pts: None },
                timeline_origin: Some(0),
                first_video: Some(0),
                first_audio: None,
                audio_anchor: None,
                first_frame_presented: true,
                starvation_started_at: None,
                sink_finished: false,
                video_eof: false,
                audio_eof: false,
                seek_pending: None,
                post_seek_epoch: None,
                queued_seek: None,
                seek_supported: true,
                diagnostics: PlaybackDiagnostics::new(),
            },
            video_queue: Vec::new(),
            commands: Vec::new(),
        },
        rate: 100,
        rates: vec![100],
        qualities: Vec::new(),
        quality_urls: Vec::new(),
        quality_index: 0,
        master_url: "https://example.test/master.m3u8".to_string(),
        decode_mode: DecodeMode::Cpu,
        muted: false,
        volume: 100,
        levels: AudioLevels {
            preroll_ready: false,
            queued_samples: 0,
            target_samples: 0,
            headroom_samples: 0,
            minimum_headroom_samples: 0,
        },
        request: None,
    }
}

fn facts() -> DebugFacts {
    DebugFacts {
        executor: ExecutorStatus::Absent,
        video_codec: "h264".to_string(),
        video_colour: None,
        video_decoder: None,
        audio_codec: "aac".to_string(),
        audio_sample_format: None,
        audio_decoder: None,
        audio: None,
    }
}

fn decoder(name: &str, hardware_accelerated: bool) -> Option<DecoderDebugInfo> {
    Some(DecoderDebugInfo { implementation: name.to_string(), hardware_accelerated })
}

fn row<'a>(sections: &'a [DebugInfoSection], title: &str, name: &str) -> &'a str {
    let section = sections.iter().find(|section| section.title == title).unwrap();
    &section.rows.iter().find(|row| row.0 == name).unwrap().1
}

#[test]
fn debug_info_exposes_pipeline_video_audio_and_timeline_sections() {
    let mut player = player();
    let mut audio = track(1, MediaType::Audio, 48_000);
    audio.params.sample_rate = Some(48_000);
    audio.params.channels = Some(2);
    player.engine.core.audio_stream = Some(audio);
    let mut facts = facts();
    facts.video_decoder = decoder("h264_vulkan", true);
    facts.audio_decoder = decoder("aac_sw", false);

    let sections = player.debug_info(&facts, START);
    let titles: Vec<&str> = sections.iter().map(|section| section.title.as_str()).collect();
    assert_eq!(
        titles,
        vec!["Playback", "Transport / pipeline", "Video", "Audio", "Timeline / seek"]
    );
    assert_eq!(
        row(&sections, "Transport / pipeline", "compressed packet cap"),
        format!("{} / track", PLAYBACK_PACKET_CHANNEL_CAP)
    );
    assert_eq!(
        row(&sections, "Video", "decoded queue"),
        format!("{} / {}", 0, VIDEO_QUEUE_CAP)
    );
    assert_eq!(row(&sections, "Video", "OxideAV decoder"), "h264_vulkan");
    assert_eq!(row(&sections, "Video", "decoder acceleration"), "hardware");
    assert_eq!(row(&sections, "Audio", "codec"), "aac");
    assert_eq!(row(&sections, "Audio", "OxideAV decoder"), "aac_sw");
    assert_eq!(row(&sections, "Audio", "decoder acceleration"), "software");
}

#[test]
fn debug_info_names_the_host_and_the_time() {
    let mut named = player();
    named.quality_urls = vec!["https://video.example.test:8443/720.m3u8".to_string()];
    let sections = named.debug_info(&facts(), START.after(Duration::from_millis(250)));
    assert_eq!(row(&sections, "Transport / pipeline", "HLS host"), "video.example.test");
    assert_eq!(row(&sections, "Playback", "state"), "Playing");
    assert_eq!(row(&sections, "Playback", "rate"), "1.000x");
    assert_eq!(row(&sections, "Video", "time base"), "1/90000");
    assert_eq!(row(&sections, "Audio", "stream"), "none");
    let mut lost = player();
    lost.quality_urls = vec!["no address".to_string()];
    let sections = lost.debug_info(&facts(), START);
    assert_eq!(row(&sections, "Transport / pipeline", "HLS host"), "unknown");
}

#[test]
fn debug_info_quotes_what_went_wrong() {
    let mut player = player();
    player.engine.core.state = PlaybackState::Error("no \"key\"".to_string());
    let sections = player.debug_info(&facts(), START);
    assert_eq!(row(&sections, "Playback", "state"), "Error(\"no \\\"key\\\"\")");
    assert_eq!(row(&sections, "Playback", "error"), "no \"key\"");
    assert_eq!(row(&sections, "Transport / pipeline", "network / stream"), "terminal error");
}

#[test]
fn debug_info_counts_what_the_audio_output_holds() {
    let mut player = player();
    player.engine.core.audio_stream = Some(track(1, MediaType::Audio, 48_000));
    let mut facts = facts();
    facts.audio = Some(AudioFacts {
        backend: "mock".to_string(),
        device_rate: 48_000,
        playing: true,
        preroll_ready: true,
        queued_samples: 4_800,
        queued: Duration::from_millis(100),
        target_samples: 24_000,
        headroom_samples: 187_200,
        headroom: Duration::from_millis(3_900),
        submitted_samples: 960,
        next_output_pts: Some(-7),
        media_origin: None,
        underrun_callbacks: 2,
        underrun_samples: 31,
    });
    let sections = player.debug_info(&facts, START);
    assert_eq!(row(&sections, "Audio", "output backend"), "mock");
    assert_eq!(row(&sections, "Audio", "device rate"), "48000 Hz");
    assert_eq!(row(&sections, "Audio", "ring target"), "24000 samples");
    assert_eq!(row(&sections, "Audio", "next output PTS"), "-7");
    assert_eq!(row(&sections, "Audio", "underruns"), "2 callbacks / 31 samples");
    assert!(row(&sections, "Audio", "ring queued").starts_with("4800 samples / 100"));
}

#[test]
fn debug_graph_does_not_invent_decoder_nodes_without_runtime_topology() {
    let mut player = player();
    player.decode_mode = DecodeMode::VulkanDirect;
    let mut facts = facts();
    facts.video_decoder = decoder("h264_vulkan_direct", true);

    let graph = player.debug_graph(&facts, &None, START);
    assert!(graph.nodes.iter().any(|node| node.id == "media-source"));
    assert!(graph.nodes.iter().all(|node| !node.id.starts_with("oxideav-video-stage-")));
    assert!(graph.nodes.iter().all(|node| node.title != "h264_vulkan_direct"));
}

#[test]
fn debug_graph_shows_the_stages_of_a_running_pipeline() {
    let topology = Topology {
        output_name: "@display".to_string(),
        packet_capacity: 256,
        tracks: vec![TrackTopology {
            media_type: MediaType::Video,
            source_stream: 0,
            codec: "h264".to_string(),
            source_shape: "1920x1080".to_string(),
            stages: vec![StageInfo::Decode {
                implementation: "h264_vulkan".to_string(),
                hardware: true,
            }],
            packet_depth: 3,
            session_depth: 1,
        }],
    };
    let graph = player().debug_graph(&facts(), &Some(topology), START);
    assert!(graph.nodes.iter().any(|node| node.id.starts_with("oxideav-video-stage-")));
    assert!(graph.nodes.iter().any(|node| node.title == "h264_vulkan"));
    assert!(!graph.edges.is_empty());
}

#[test]
fn graphics_show_the_device_and_the_surface() {
    let graphics = GraphicsInfo {
        adapter: "GPU".to_string(),
        backend: "Vulkan".to_string(),
        device_type: "DiscreteGpu".to_string(),
        max_dimension: 8_192,
        shared: Some(SharedDevice {
            graphics_queue_family: 0,
            video_queue_family: 3,
            video_queue: 0,
        }),
        width: 1_280,
        height: 720,
        format: "Bgra8Unorm".to_string(),
        present_mode: "Fifo".to_string(),
        alpha_mode: "Opaque".to_string(),
        frame_latency: 1,
    };
    let graph = graphics.debug_graph(DebugGraph { nodes: Vec::new(), edges: Vec::new() });
    assert!(graph.contains_node("presentation-surface"));
    assert!(graph.nodes.iter().any(|node| {
        node.rows.iter().any(|row| row.0 == "present mode" && row.1 == "Fifo")
    }));
}
