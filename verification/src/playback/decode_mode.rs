//! Decode modes: which decoder a user asks for and where it is to be had.

use crate::text;
use vstd::prelude::*;
use vstd::string::*;

verus! {

#[derive(Clone, Copy, Debug, PartialEq, Eq, Structural)]
pub enum DecodeMode {
    /// Prefer the platform's hardware path, then software decode.
    Auto,
    Cpu,
    VideoToolboxReadback,
    VulkanReadback,
    VulkanDirect,
    MediaCodecDirect,
    MediaCodecReadback,
    VdpauReadback,
    VdpauDirect,
}

impl Default for DecodeMode {
    fn default() -> (mode: Self)
        ensures
            mode is Auto,
    {
        DecodeMode::Auto
    }
}

/// The platforms that differ in their decoders.
#[derive(Clone, Copy, Debug, PartialEq, Eq, Structural)]
pub enum Platform {
    FreeBsd,
    Android,
    Windows,
    MacOs,
    Other,
}

/// The hardware backends that a platform has.
#[derive(Clone, Copy, Debug, PartialEq, Eq, Structural)]
pub struct Backends {
    pub vdpau: bool,
    pub mediacodec: bool,
    pub vulkan: bool,
    pub videotoolbox: bool,
}

impl Platform {
    pub open spec fn backends_spec(self) -> Backends {
        Backends {
            vdpau: self is FreeBsd,
            mediacodec: self is Android,
            vulkan: self is Windows,
            videotoolbox: self is MacOs,
        }
    }

    pub fn backends(self) -> (backends: Backends)
        ensures
            backends == self.backends_spec(),
    {
        Backends {
            vdpau: matches!(self, Platform::FreeBsd),
            mediacodec: matches!(self, Platform::Android),
            vulkan: matches!(self, Platform::Windows),
            videotoolbox: matches!(self, Platform::MacOs),
        }
    }
}

impl DecodeMode {
    /// The name of the mode.
    pub open spec fn name(self) -> Seq<char> {
        match self {
            DecodeMode::Auto => "auto"@,
            DecodeMode::Cpu => "cpu"@,
            DecodeMode::VideoToolboxReadback => "videotoolbox-readback"@,
            DecodeMode::VulkanReadback => "vulkan-readback"@,
            DecodeMode::VulkanDirect => "vulkan-direct"@,
            DecodeMode::MediaCodecDirect => "mediacodec-direct"@,
            DecodeMode::MediaCodecReadback => "mediacodec-readback"@,
            DecodeMode::VdpauReadback => "vdpau-readback"@,
            DecodeMode::VdpauDirect => "vdpau-direct"@,
        }
    }

    /// Whether the mode can be had where these backends are.
    pub open spec fn supported(self, backends: Backends) -> bool {
        match self {
            DecodeMode::Auto | DecodeMode::Cpu => true,
            DecodeMode::VideoToolboxReadback => backends.videotoolbox,
            DecodeMode::VulkanReadback | DecodeMode::VulkanDirect => backends.vulkan,
            DecodeMode::MediaCodecDirect | DecodeMode::MediaCodecReadback => backends.mediacodec,
            DecodeMode::VdpauReadback | DecodeMode::VdpauDirect => backends.vdpau,
        }
    }

    pub fn platform_default() -> (mode: Self)
        ensures
            mode == DecodeMode::Auto,
    {
        DecodeMode::Auto
    }

    pub fn prefers_windows_shared_vulkan_device(self) -> (prefers: bool)
        ensures
            prefers == (self is Auto || self is VulkanDirect),
    {
        matches!(self, DecodeMode::Auto | DecodeMode::VulkanDirect)
    }

    pub fn requires_windows_shared_vulkan_device(self) -> (requires_device: bool)
        ensures
            requires_device == (self is VulkanDirect),
    {
        matches!(self, DecodeMode::VulkanDirect)
    }

    pub fn is_supported_with_backends(
        self,
        vdpau_supported: bool,
        mediacodec_supported: bool,
        vulkan_supported: bool,
        videotoolbox_supported: bool,
    ) -> (supported: bool)
        ensures
            supported == self.supported(
                Backends {
                    vdpau: vdpau_supported,
                    mediacodec: mediacodec_supported,
                    vulkan: vulkan_supported,
                    videotoolbox: videotoolbox_supported,
                },
            ),
    {
        match self {
            DecodeMode::Auto | DecodeMode::Cpu => true,
            DecodeMode::VideoToolboxReadback => videotoolbox_supported,
            DecodeMode::VulkanReadback | DecodeMode::VulkanDirect => vulkan_supported,
            DecodeMode::MediaCodecDirect | DecodeMode::MediaCodecReadback => mediacodec_supported,
            DecodeMode::VdpauReadback | DecodeMode::VdpauDirect => vdpau_supported,
        }
    }

    pub fn is_supported_on_current_platform(self, platform: Platform) -> (supported: bool)
        ensures
            supported == self.supported(platform.backends_spec()),
    {
        let b = platform.backends();
        self.is_supported_with_backends(b.vdpau, b.mediacodec, b.vulkan, b.videotoolbox)
    }

    /// Refuses a mode that the backends do not offer, and says which ones they do.
    pub fn validate_for_platform(
        self,
        vdpau_supported: bool,
        mediacodec_supported: bool,
        vulkan_supported: bool,
        videotoolbox_supported: bool,
        platform: &str,
    ) -> (result: Result<(), String>)
        ensures
            ({
                let backends = Backends {
                    vdpau: vdpau_supported,
                    mediacodec: mediacodec_supported,
                    vulkan: vulkan_supported,
                    videotoolbox: videotoolbox_supported,
                };
                match result {
                    Ok(()) => self.supported(backends),
                    Err(error) => !self.supported(backends) && error@ == unsupported_text(
                        self,
                        backends,
                        platform@,
                    ),
                }
            }),
    {
        if self.is_supported_with_backends(
            vdpau_supported,
            mediacodec_supported,
            vulkan_supported,
            videotoolbox_supported,
        ) {
            return Ok(());
        }
        let mut error = "decode mode \"".to_owned();
        error.append(self.as_str());
        error.append("\" is not supported on ");
        error.append(platform);
        error.append("; supported modes: auto, cpu");
        if videotoolbox_supported {
            error.append(", videotoolbox-readback");
        }
        if vulkan_supported {
            error.append(", vulkan-readback, vulkan-direct");
        }
        if mediacodec_supported {
            error.append(", mediacodec-readback, mediacodec-direct");
        }
        if vdpau_supported {
            error.append(", vdpau-readback, vdpau-direct");
        }
        proof {
            let backends = Backends {
                vdpau: vdpau_supported,
                mediacodec: mediacodec_supported,
                vulkan: vulkan_supported,
                videotoolbox: videotoolbox_supported,
            };
            assert(error@ =~= unsupported_text(self, backends, platform@));
        }
        Err(error)
    }

    pub fn validate_current_platform(self, platform: Platform, name: &str) -> (result: Result<(), String>)
        ensures
            match result {
                Ok(()) => self.supported(platform.backends_spec()),
                Err(error) => !self.supported(platform.backends_spec()) && error@
                    == unsupported_text(self, platform.backends_spec(), name@),
            },
    {
        let b = platform.backends();
        self.validate_for_platform(b.vdpau, b.mediacodec, b.vulkan, b.videotoolbox, name)
    }

    pub fn as_str(self) -> (name: &'static str)
        ensures
            name@ == self.name(),
    {
        match self {
            DecodeMode::Auto => "auto",
            DecodeMode::Cpu => "cpu",
            DecodeMode::VideoToolboxReadback => "videotoolbox-readback",
            DecodeMode::VulkanReadback => "vulkan-readback",
            DecodeMode::VulkanDirect => "vulkan-direct",
            DecodeMode::MediaCodecDirect => "mediacodec-direct",
            DecodeMode::MediaCodecReadback => "mediacodec-readback",
            DecodeMode::VdpauReadback => "vdpau-readback",
            DecodeMode::VdpauDirect => "vdpau-direct",
        }
    }

    /// The mode with the given name.
    pub fn from_str(value: &str) -> (mode: Result<Self, String>)
        ensures
            match mode {
                Ok(mode) => mode.name() == value@,
                Err(error) => {
                    &&& forall|mode: DecodeMode| #[trigger] mode.name() != value@
                    &&& error@ == "invalid decode mode "@ + text::quoted_text(value@)
                        + EXPECTED_MODES@
                },
            },
    {
        proof {
            names_differ();
        }
        if text::same(value, "auto") {
            Ok(DecodeMode::Auto)
        } else if text::same(value, "cpu") {
            Ok(DecodeMode::Cpu)
        } else if text::same(value, "videotoolbox-readback") {
            Ok(DecodeMode::VideoToolboxReadback)
        } else if text::same(value, "vulkan-readback") {
            Ok(DecodeMode::VulkanReadback)
        } else if text::same(value, "vulkan-direct") {
            Ok(DecodeMode::VulkanDirect)
        } else if text::same(value, "mediacodec-direct") {
            Ok(DecodeMode::MediaCodecDirect)
        } else if text::same(value, "mediacodec-readback") {
            Ok(DecodeMode::MediaCodecReadback)
        } else if text::same(value, "vdpau-readback") {
            Ok(DecodeMode::VdpauReadback)
        } else if text::same(value, "vdpau-direct") {
            Ok(DecodeMode::VdpauDirect)
        } else {
            let mut error = "invalid decode mode ".to_owned();
            error.append(text::quoted(value).as_str());
            error.append(EXPECTED_MODES);
            Err(error)
        }
    }
}

pub const EXPECTED_MODES: &'static str = "; expected auto, cpu, videotoolbox-readback, vulkan-readback, vulkan-direct, mediacodec-direct, mediacodec-readback, vdpau-readback, or vdpau-direct";

/// What the refusal of a mode says.
pub open spec fn unsupported_text(mode: DecodeMode, backends: Backends, platform: Seq<char>) -> Seq<char> {
    "decode mode \""@ + mode.name() + "\" is not supported on "@ + platform
        + "; supported modes: auto, cpu"@ + (if backends.videotoolbox {
        ", videotoolbox-readback"@
    } else {
        Seq::empty()
    }) + (if backends.vulkan { ", vulkan-readback, vulkan-direct"@ } else { Seq::empty() }) + (
    if backends.mediacodec { ", mediacodec-readback, mediacodec-direct"@ } else { Seq::empty() }) + (
    if backends.vdpau { ", vdpau-readback, vdpau-direct"@ } else { Seq::empty() })
}

/// Each mode has a name of its own, so a name stands for one mode.
pub proof fn names_differ()
    ensures
        forall|a: DecodeMode, b: DecodeMode| #[trigger] a.name() == #[trigger] b.name() ==> a == b,
{
    reveal_strlit("auto");
    reveal_strlit("cpu");
    reveal_strlit("videotoolbox-readback");
    reveal_strlit("vulkan-readback");
    reveal_strlit("vulkan-direct");
    reveal_strlit("mediacodec-direct");
    reveal_strlit("mediacodec-readback");
    reveal_strlit("vdpau-readback");
    reveal_strlit("vdpau-direct");
    assert forall|a: DecodeMode, b: DecodeMode| #[trigger] a.name() == #[trigger] b.name() implies a
        == b by {
        let x = a.name();
        let y = b.name();
        assert(x.len() == y.len());
        assert(x[0] == y[0]);
        assert(x.len() > 12 ==> x[12] == y[12] && x[7] == y[7]);
        assert(x.len() > 7 ==> x[6] == y[6] && x[7] == y[7]);
    }
}

/// Every platform decodes without hardware; with it, each in its own way and in no other.
pub proof fn platforms_decode_in_their_own_way(mode: DecodeMode, platform: Platform)
    ensures
        ({
            let supported = mode.supported(platform.backends_spec());
            &&& mode is Auto || mode is Cpu ==> supported
            &&& mode is VideoToolboxReadback ==> supported == (platform is MacOs)
            &&& mode is VulkanReadback || mode is VulkanDirect ==> supported == (
            platform is Windows)
            &&& mode is MediaCodecReadback || mode is MediaCodecDirect ==> supported == (
            platform is Android)
            &&& mode is VdpauReadback || mode is VdpauDirect ==> supported == (platform is FreeBsd)
        }),
{
}

} // verus!
