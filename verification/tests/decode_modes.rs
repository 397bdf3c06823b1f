use sanctuary_player::playback::decode_mode::{DecodeMode, Platform};

#[test]
fn platform_default_is_automatic() {
    assert_eq!(DecodeMode::platform_default(), DecodeMode::Auto);
    for platform in [
        Platform::FreeBsd,
        Platform::Android,
        Platform::Windows,
        Platform::MacOs,
        Platform::Other,
    ] {
        assert!(DecodeMode::Auto.is_supported_on_current_platform(platform));
        assert!(DecodeMode::Cpu.is_supported_on_current_platform(platform));
    }
}

#[test]
fn vdpau_request_is_rejected_without_vdpau() {
    let error = DecodeMode::VdpauDirect
        .validate_for_platform(false, false, false, false, "windows")
        .unwrap_err();
    assert_eq!(
        error,
        r#"decode mode "vdpau-direct" is not supported on windows; supported modes: auto, cpu"#
    );
}

#[test]
fn mediacodec_modes_require_android_backend() {
    for mode in [DecodeMode::MediaCodecDirect, DecodeMode::MediaCodecReadback] {
        assert!(mode.validate_for_platform(false, true, false, false, "android").is_ok());
        let error = mode
            .validate_for_platform(false, false, true, false, "windows")
            .unwrap_err();
        assert!(error.contains("not supported on windows"));
    }
}

#[test]
fn vulkan_modes_require_vulkan_video_backend() {
    for mode in [DecodeMode::VulkanReadback, DecodeMode::VulkanDirect] {
        assert!(mode.validate_for_platform(false, false, true, false, "windows").is_ok());
        let error = mode
            .validate_for_platform(false, false, false, false, "linux")
            .unwrap_err();
        assert!(error.contains("not supported on linux"));
    }
}

#[test]
fn videotoolbox_readback_requires_macos_backend() {
    assert!(DecodeMode::VideoToolboxReadback
        .validate_for_platform(false, false, false, true, "macos")
        .is_ok());
    let error = DecodeMode::VideoToolboxReadback
        .validate_for_platform(false, false, false, false, "linux")
        .unwrap_err();
    assert!(error.contains("not supported on linux"));
}

#[test]
fn automatic_mode_is_valid_with_or_without_hardware_backends() {
    for (vdpau, mediacodec, vulkan, videotoolbox) in [
        (false, false, false, false),
        (true, false, false, false),
        (false, true, false, false),
        (false, false, true, false),
        (false, false, false, true),
        (true, true, true, true),
    ] {
        assert!(DecodeMode::Auto
            .validate_for_platform(vdpau, mediacodec, vulkan, videotoolbox, "test")
            .is_ok());
    }
}

#[test]
fn freebsd_supports_only_vdpau_specific_hardware_modes() {
    let valid =
        |mode: DecodeMode| mode.validate_current_platform(Platform::FreeBsd, "freebsd").is_ok();
    assert!(valid(DecodeMode::VdpauReadback));
    assert!(valid(DecodeMode::VdpauDirect));
    assert!(!valid(DecodeMode::VulkanReadback));
    assert!(!valid(DecodeMode::VulkanDirect));
    assert!(!valid(DecodeMode::MediaCodecDirect));
    assert!(!valid(DecodeMode::MediaCodecReadback));
}

#[test]
fn android_supports_only_mediacodec_specific_hardware_modes() {
    let valid =
        |mode: DecodeMode| mode.validate_current_platform(Platform::Android, "android").is_ok();
    assert!(valid(DecodeMode::MediaCodecDirect));
    assert!(valid(DecodeMode::MediaCodecReadback));
    assert!(!valid(DecodeMode::VulkanReadback));
    assert!(!valid(DecodeMode::VulkanDirect));
    assert!(!valid(DecodeMode::VdpauReadback));
    assert!(!valid(DecodeMode::VdpauDirect));
}

#[test]
fn windows_supports_vulkan_video_modes() {
    let valid =
        |mode: DecodeMode| mode.validate_current_platform(Platform::Windows, "windows").is_ok();
    for mode in [DecodeMode::VulkanReadback, DecodeMode::VulkanDirect] {
        assert!(valid(mode));
    }
    assert!(!valid(DecodeMode::MediaCodecDirect));
    assert!(!valid(DecodeMode::MediaCodecReadback));
    assert!(!valid(DecodeMode::VdpauReadback));
    assert!(!valid(DecodeMode::VdpauDirect));
}

#[test]
fn windows_auto_prefers_shared_vulkan_while_direct_requires_it() {
    assert!(DecodeMode::Auto.prefers_windows_shared_vulkan_device());
    assert!(!DecodeMode::Auto.requires_windows_shared_vulkan_device());

    assert!(DecodeMode::VulkanDirect.prefers_windows_shared_vulkan_device());
    assert!(DecodeMode::VulkanDirect.requires_windows_shared_vulkan_device());

    assert!(!DecodeMode::VulkanReadback.prefers_windows_shared_vulkan_device());
    assert!(!DecodeMode::VulkanReadback.requires_windows_shared_vulkan_device());
    assert!(!DecodeMode::Cpu.prefers_windows_shared_vulkan_device());
}

#[test]
fn macos_supports_videotoolbox_readback_only() {
    let valid =
        |mode: DecodeMode| mode.validate_current_platform(Platform::MacOs, "macos").is_ok();
    assert!(valid(DecodeMode::VideoToolboxReadback));
    for mode in [
        DecodeMode::VulkanReadback,
        DecodeMode::VulkanDirect,
        DecodeMode::MediaCodecDirect,
        DecodeMode::MediaCodecReadback,
        DecodeMode::VdpauReadback,
        DecodeMode::VdpauDirect,
    ] {
        assert!(!valid(mode));
    }
}

#[test]
fn platforms_without_hardware_backend_support_auto_and_cpu_only() {
    let valid =
        |mode: DecodeMode| mode.validate_current_platform(Platform::Other, "linux").is_ok();
    assert!(valid(DecodeMode::Auto));
    assert!(valid(DecodeMode::Cpu));
    assert!(!valid(DecodeMode::VideoToolboxReadback));
    assert!(!valid(DecodeMode::VulkanReadback));
    assert!(!valid(DecodeMode::VulkanDirect));
    assert!(!valid(DecodeMode::MediaCodecDirect));
    assert!(!valid(DecodeMode::MediaCodecReadback));
    assert!(!valid(DecodeMode::VdpauReadback));
    assert!(!valid(DecodeMode::VdpauDirect));
}

#[test]
fn decode_modes_are_read_back_from_their_names() {
    for mode in [
        DecodeMode::Auto,
        DecodeMode::Cpu,
        DecodeMode::VideoToolboxReadback,
        DecodeMode::VulkanReadback,
        DecodeMode::VulkanDirect,
        DecodeMode::MediaCodecDirect,
        DecodeMode::MediaCodecReadback,
        DecodeMode::VdpauReadback,
        DecodeMode::VdpauDirect,
    ] {
        assert_eq!(DecodeMode::from_str(mode.as_str()), Ok(mode));
    }
    assert_eq!(
        DecodeMode::from_str("gpu\n").unwrap_err(),
        "invalid decode mode \"gpu\\n\"; expected auto, cpu, videotoolbox-readback, \
         vulkan-readback, vulkan-direct, mediacodec-direct, mediacodec-readback, \
         vdpau-readback, or vdpau-direct"
    );
}
