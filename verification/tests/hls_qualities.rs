//! Variants of a master playlist as qualities, and the decoders that are preferred.

use sanctuary_player::model::Quality;
use sanctuary_player::playback::decode_mode::DecodeMode;
use sanctuary_player::playback::hls::{
    codec_preferences, hls_uri, quality_set_from_variants, select_initial_quality_index,
    variant_quality_name, HlsVariant,
};

fn hls_variant(
    url: &str,
    name: Option<&str>,
    video_group: Option<&str>,
    width: Option<u64>,
    height: Option<u64>,
    frame_rate: Option<f64>,
    bandwidth: u64,
) -> HlsVariant {
    HlsVariant {
        url: url.to_string(),
        name: name.map(str::to_owned),
        video_group: video_group.map(str::to_owned),
        codecs: None,
        width,
        height,
        frame_rate: frame_rate.map(f64::to_bits),
        bandwidth,
    }
}

fn has(names: &[String], name: &str) -> bool {
    names.iter().any(|other| other == name)
}

#[test]
fn hls_quality_list_exposes_video_variants_and_filters_audio_only() {
    let set = quality_set_from_variants(
        &vec![
            hls_variant(
                "https://example.test/source.m3u8",
                Some("1080p60"),
                Some("chunked"),
                Some(1920),
                Some(1080),
                Some(60.0),
                6_400_000,
            ),
            hls_variant(
                "https://example.test/720.m3u8",
                Some("720p60"),
                Some("720p60"),
                Some(1280),
                Some(720),
                Some(60.0),
                3_400_000,
            ),
            hls_variant(
                "https://example.test/audio.m3u8",
                Some("Audio Only"),
                Some("audio_only"),
                None,
                None,
                None,
                220_000,
            ),
        ],
        1,
    )
    .unwrap();

    assert_eq!(set.qualities.len(), 2);
    assert_eq!(set.qualities[0].id, "1080p60");
    assert_eq!(set.qualities[0].label, "1080p60 (Source)");
    assert_eq!(set.qualities[1].id, "720p60");
    assert_eq!(set.preferred_index, 1);
    assert_eq!(set.urls[1], "https://example.test/720.m3u8");
}

#[test]
fn hls_quality_list_skips_unsupported_vp9_and_prefers_h264_at_same_height() {
    let mut h264 = hls_variant(
        "https://example.test/h264-720.m3u8",
        None,
        None,
        Some(1280),
        Some(720),
        None,
        2_000_000,
    );
    h264.codecs = Some("avc1.4D4020,mp4a.40.2".to_string());
    let mut vp9 = hls_variant(
        "https://example.test/vp9-720.m3u8",
        None,
        None,
        Some(1280),
        Some(720),
        None,
        3_000_000,
    );
    vp9.codecs = Some("vp09.00.40.08,mp4a.40.2".to_string());
    let set = quality_set_from_variants(&vec![h264, vp9], 1).unwrap();
    assert_eq!(set.urls.len(), 1);
    assert_eq!(set.preferred_index, 0);
    assert_eq!(set.urls[0], "https://example.test/h264-720.m3u8");
}

#[test]
fn playlist_without_video_is_an_error() {
    let audio = hls_variant("https://example.test/a", None, Some("audio_only"), None, None, None, 9);
    assert!(quality_set_from_variants(&vec![audio], 0).is_err());
    assert!(quality_set_from_variants(&Vec::new(), 0).is_err());
}

#[test]
fn initial_quality_selection_uses_favourites_before_hls_default() {
    let qualities = vec![
        Quality::new("1080p60", "1080p60 (Source)"),
        Quality::new("720p60", "720p60"),
        Quality::new("480p", "480p"),
    ];
    assert_eq!(select_initial_quality_index(&qualities, 1, "480p;1080p60"), 2);
    assert_eq!(select_initial_quality_index(&qualities, 1, "missing,1080p60 (Source)"), 0);
    assert_eq!(select_initial_quality_index(&qualities, 1, "missing"), 1);
}

#[test]
fn hls_quality_label_falls_back_to_resolution_and_frame_rate() {
    let variant = hls_variant(
        "https://example.test/480.m3u8",
        None,
        None,
        Some(852),
        Some(480),
        Some(30.001),
        1_500_000,
    );
    assert_eq!(variant_quality_name(&variant), "480p30");
}

#[test]
fn frame_rates_are_rounded_from_all_their_digits() {
    let named = |rate: f64| {
        variant_quality_name(&hls_variant(
            "https://example.test/480.m3u8",
            None,
            None,
            Some(852),
            Some(480),
            Some(rate),
            1_500_000,
        ))
    };
    assert_eq!(named(29.4996), "480p29");
    assert_eq!(named(29.5), "480p30");
    assert_eq!(named(59.94), "480p60");
    assert_eq!(named(0.4), "480p0");
    assert_eq!(named(0.5), "480p1");
    assert_eq!(named(f64::MIN_POSITIVE), "480p0");
    assert_eq!(named(1e18), "480p4294967295");
    assert_eq!(named(0.0), "480p");
    assert_eq!(named(-30.0), "480p");
    assert_eq!(named(f64::NAN), "480p");
    assert_eq!(named(f64::INFINITY), "480p");
}

#[test]
fn hls_quality_label_without_a_resolution_is_its_bandwidth() {
    let variant =
        hls_variant("https://example.test/x.m3u8", None, None, None, None, None, 1_500_999);
    assert_eq!(variant_quality_name(&variant), "1500 kbps");
}

#[test]
fn playlist_address_gets_the_scheme_of_its_reader() {
    assert_eq!(hls_uri("https://example.test/master.m3u8"), "hls+https://example.test/master.m3u8");
}

#[test]
fn automatic_selection_keeps_ranked_hardware_and_software_fallbacks_eligible() {
    let prefs = codec_preferences(DecodeMode::Auto);
    assert!(prefs.prefer.is_empty());
    assert!(prefs.exclude.is_empty());
    assert!(!prefs.no_hardware);
    assert!(!prefs.require_hardware);
}

#[test]
fn vulkan_readback_selection_forces_readback_without_requiring_hardware_audio() {
    let prefs = codec_preferences(DecodeMode::VulkanReadback);
    assert_eq!(prefs.prefer, vec!["h264_vulkan"]);
    assert!(has(&prefs.exclude, "h264_vulkan_direct"));
    assert!(has(&prefs.exclude, "h264_sw"));
    assert!(!prefs.require_hardware);
}

#[test]
fn vulkan_direct_selection_is_strict_while_auto_keeps_fallbacks_eligible() {
    let direct = codec_preferences(DecodeMode::VulkanDirect);
    assert_eq!(direct.prefer, vec!["h264_vulkan_direct"]);
    assert!(has(&direct.exclude, "h264_vulkan"));
    assert!(has(&direct.exclude, "h264_sw"));
    assert!(!direct.require_hardware);

    let auto = codec_preferences(DecodeMode::Auto);
    assert!(auto.prefer.is_empty());
    assert!(auto.exclude.is_empty());
}

#[test]
fn mediacodec_selection_is_strict_per_requested_presentation_contract() {
    let direct = codec_preferences(DecodeMode::MediaCodecDirect);
    assert_eq!(direct.prefer, vec!["h264_mediacodec_direct"]);
    assert!(has(&direct.exclude, "h264_mediacodec_readback"));
    assert!(has(&direct.exclude, "h264_sw"));
    assert!(!direct.require_hardware);

    let readback = codec_preferences(DecodeMode::MediaCodecReadback);
    assert_eq!(readback.prefer, vec!["h264_mediacodec_readback"]);
    assert!(has(&readback.exclude, "h264_mediacodec_direct"));
    assert!(has(&readback.exclude, "h264_sw"));
    assert!(!readback.require_hardware);
}

#[test]
fn vdpau_selection_stays_strict_without_requiring_hardware_audio() {
    let prefs = codec_preferences(DecodeMode::VdpauDirect);
    assert!(has(&prefs.prefer, "h264_vdpau"));
    assert!(has(&prefs.exclude, "h264_sw"));
    assert!(!prefs.require_hardware);
}
