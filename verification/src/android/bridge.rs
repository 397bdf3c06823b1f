//! From the buffers of the hardware decoder to textures that can be shown, without a copy:
//! what is asked of a buffer, how its colours are converted, and which of the textures is
//! free.

use crate::text;
use vstd::prelude::*;
use vstd::string::*;

verus! {

/// The word that a shader begins with.
pub const SPIRV_MAGIC: u32 = 0x0723_0203;

/// The format of an image that has none of its own.
pub const UNDEFINED_FORMAT: i32 = 0;

/// Why a buffer cannot be shown.
#[derive(Debug)]
pub enum BridgeError {
    ForeignStorage,
    ReadbackImage,
    EmptyBridge,
    NoConversion,
    NotVulkanDevice,
    NotVulkanQueue,
    NoHardwareBuffers,
    NoForeignQueues,
    NotSampleable,
    NoFormat,
    SlotOutOfRange,
    SlotBusy,
    DimensionsChanged,
    FormatChanged { from: ExternalFormatKey, to: ExternalFormatKey },
    NoMemoryType,
    /// A step failed in the driver: what was being done, and what the driver says.
    Driver { step: String, error: String },
}

impl BridgeError {
    /// What is said of an error.
    pub open spec fn text(self) -> Seq<char> {
        match self {
            BridgeError::ForeignStorage => {
                "MediaCodec direct bridge received foreign hardware storage"@
            },
            BridgeError::ReadbackImage => "MediaCodec direct bridge received a readback image"@,
            BridgeError::EmptyBridge => {
                "MediaCodec Vulkan bridge requires non-zero dimensions and slots"@
            },
            BridgeError::NoConversion => {
                "wgpu Vulkan device lacks enabled sampler-YCbCr conversion support"@
            },
            BridgeError::NotVulkanDevice => {
                "MediaCodec direct presentation requires the wgpu Vulkan backend"@
            },
            BridgeError::NotVulkanQueue => {
                "MediaCodec direct presentation requires a Vulkan wgpu queue"@
            },
            BridgeError::NoHardwareBuffers => {
                "wgpu Vulkan device did not enable VK_ANDROID_external_memory_android_hardware_buffer"@
            },
            BridgeError::NoForeignQueues => {
                "wgpu Vulkan device did not enable VK_EXT_queue_family_foreign"@
            },
            BridgeError::NotSampleable => "MediaCodec AHardwareBuffer is not Vulkan-sampleable"@,
            BridgeError::NoFormat => {
                "MediaCodec AHardwareBuffer exposes neither a Vulkan nor external format"@
            },
            BridgeError::SlotOutOfRange => "MediaCodec Vulkan bridge slot out of range"@,
            BridgeError::SlotBusy => "MediaCodec Vulkan bridge slot is busy"@,
            BridgeError::DimensionsChanged => "MediaCodec direct frame dimensions changed"@,
            BridgeError::FormatChanged { from, to } => {
                "MediaCodec AHardwareBuffer format changed from "@ + key_text(from) + " to "@
                    + key_text(to)
            },
            BridgeError::NoMemoryType => "MediaCodec AHardwareBuffer exposes no Vulkan memory type"@,
            BridgeError::Driver { step, error } => step@ + ": "@ + error@,
        }
    }

    pub fn message(&self) -> (message: String)
        ensures
            message@ == self.text(),
    {
        match self {
            BridgeError::ForeignStorage => {
                "MediaCodec direct bridge received foreign hardware storage".to_owned()
            },
            BridgeError::ReadbackImage => {
                "MediaCodec direct bridge received a readback image".to_owned()
            },
            BridgeError::EmptyBridge => {
                "MediaCodec Vulkan bridge requires non-zero dimensions and slots".to_owned()
            },
            BridgeError::NoConversion => {
                "wgpu Vulkan device lacks enabled sampler-YCbCr conversion support".to_owned()
            },
            BridgeError::NotVulkanDevice => {
                "MediaCodec direct presentation requires the wgpu Vulkan backend".to_owned()
            },
            BridgeError::NotVulkanQueue => {
                "MediaCodec direct presentation requires a Vulkan wgpu queue".to_owned()
            },
            BridgeError::NoHardwareBuffers => {
                "wgpu Vulkan device did not enable VK_ANDROID_external_memory_android_hardware_buffer".to_owned()
            },
            BridgeError::NoForeignQueues => {
                "wgpu Vulkan device did not enable VK_EXT_queue_family_foreign".to_owned()
            },
            BridgeError::NotSampleable => {
                "MediaCodec AHardwareBuffer is not Vulkan-sampleable".to_owned()
            },
            BridgeError::NoFormat => {
                "MediaCodec AHardwareBuffer exposes neither a Vulkan nor external format".to_owned()
            },
            BridgeError::SlotOutOfRange => "MediaCodec Vulkan bridge slot out of range".to_owned(),
            BridgeError::SlotBusy => "MediaCodec Vulkan bridge slot is busy".to_owned(),
            BridgeError::DimensionsChanged => {
                "MediaCodec direct frame dimensions changed".to_owned()
            },
            BridgeError::FormatChanged { from, to } => {
                let mut message = "MediaCodec AHardwareBuffer format changed from ".to_owned();
                push_key(&mut message, *from);
                message.append(" to ");
                push_key(&mut message, *to);
                assert(message@ =~= self.text());
                message
            },
            BridgeError::NoMemoryType => {
                "MediaCodec AHardwareBuffer exposes no Vulkan memory type".to_owned()
            },
            BridgeError::Driver { step, error } => {
                let mut message = step.clone();
                message.append(": ");
                message.append(error.as_str());
                message
            },
        }
    }
}

/// What Vulkan calls a format.
pub uninterp spec fn format_name_of(format: i32) -> Seq<char>;

/// `ash::vk::Format` is written with `{:?}` as Vulkan calls it, or as a number where Vulkan
/// has no name for it; what comes out depends on the number of the format alone.
#[verifier::external_body]
fn format_name(format: i32) -> (name: String)
    ensures
        name@ == format_name_of(format),
{
    format!("{:?}", ash::vk::Format::from_raw(format))
}

/// How the format of a buffer is written.
pub open spec fn key_text(key: ExternalFormatKey) -> Seq<char> {
    "ExternalFormatKey { format: "@ + format_name_of(key.format) + ", external_format: "@
        + text::decimal(key.external_format as nat) + " }"@
}

fn push_key(out: &mut String, key: ExternalFormatKey)
    ensures
        final(out)@ == old(out)@ + key_text(key),
{
    out.append("ExternalFormatKey { format: ");
    out.append(format_name(key.format).as_str());
    out.append(", external_format: ");
    text::push_decimal(out, key.external_format);
    out.append(" }");
    assert(out@ =~= old(out)@ + key_text(key));
}

/// A word of four bytes, the lowest first.
pub open spec fn little_word(bytes: Seq<u8>, i: int) -> int {
    bytes[4 * i] + 0x100 * bytes[4 * i + 1] + 0x1_0000 * bytes[4 * i + 2] + 0x100_0000 * bytes[4 * i
        + 3]
}

/// A word of four bytes, the highest first.
pub open spec fn big_word(bytes: Seq<u8>, i: int) -> int {
    0x100_0000 * bytes[4 * i] + 0x1_0000 * bytes[4 * i + 1] + 0x100 * bytes[4 * i + 2] + bytes[4 * i
        + 3]
}

/// The words of a shader, in the order of bytes in which it begins as it has to.
pub open spec fn shader_words(bytes: Seq<u8>) -> Result<Seq<u32>, Seq<char>> {
    if bytes.len() % 4 != 0 {
        Err("input length not divisible by 4"@)
    } else if bytes.len() > 0 && little_word(bytes, 0) == SPIRV_MAGIC {
        Ok(Seq::new((bytes.len() / 4) as nat, |i: int| little_word(bytes, i) as u32))
    } else if bytes.len() > 0 && big_word(bytes, 0) == SPIRV_MAGIC {
        Ok(Seq::new((bytes.len() / 4) as nat, |i: int| big_word(bytes, i) as u32))
    } else {
        Err("input missing SPIR-V magic number"@)
    }
}

/// `ash::util::read_spv` takes the bytes of a shader four by four as words. It finds the
/// order of the bytes by the first word, and refuses a length that four does not divide and
/// a first word that is not the one that shaders begin with.
#[verifier::external_body]
fn read_spv(bytes: &[u8]) -> (words: Result<Vec<u32>, String>)
    ensures
        match words {
            Ok(words) => shader_words(bytes@) == Ok::<Seq<u32>, Seq<char>>(words@),
            Err(error) => shader_words(bytes@) == Err::<Seq<u32>, Seq<char>>(error@),
        },
{
    ash::util::read_spv(&mut std::io::Cursor::new(bytes)).map_err(|error| error.to_string())
}

/// The words of a shader of the player's.
pub fn spv_words(bytes: &[u8]) -> (words: Result<Vec<u32>, BridgeError>)
    ensures
        match words {
            Ok(words) => shader_words(bytes@) == Ok::<Seq<u32>, Seq<char>>(words@),
            Err(error) => shader_words(bytes@) matches Err(reason) && error.text()
                == "read embedded MediaCodec SPIR-V: "@ + reason,
        },
{
    match read_spv(bytes) {
        Ok(words) => Ok(words),
        Err(error) => {
            proof {
                reveal_strlit("read embedded MediaCodec SPIR-V");
                reveal_strlit(": ");
                reveal_strlit("read embedded MediaCodec SPIR-V: ");
                assert("read embedded MediaCodec SPIR-V"@ + ": "@
                    =~= "read embedded MediaCodec SPIR-V: "@);
            }
            Err(
                BridgeError::Driver {
                    step: "read embedded MediaCodec SPIR-V".to_owned(),
                    error,
                },
            )
        },
    }
}

/// What a frame of video is stored in.
#[derive(Clone, Copy, Debug, PartialEq, Eq, Structural)]
pub enum FrameStorage {
    /// Something that did not come from the hardware decoder.
    Foreign,
    /// An image that was copied out of the decoder.
    Readback,
    /// A buffer of the decoder's.
    Direct { width: u32, height: u32 },
}

/// The size of a buffer of the decoder's.
pub fn direct_storage(frame: FrameStorage) -> (size: Result<(u32, u32), BridgeError>)
    ensures
        match frame {
            FrameStorage::Foreign => size matches Err(BridgeError::ForeignStorage),
            FrameStorage::Readback => size matches Err(BridgeError::ReadbackImage),
            FrameStorage::Direct { width, height } => size == Ok::<(u32, u32), BridgeError>(
                (width, height),
            ),
        },
{
    match frame {
        FrameStorage::Foreign => Err(BridgeError::ForeignStorage),
        FrameStorage::Readback => Err(BridgeError::ReadbackImage),
        FrameStorage::Direct { width, height } => Ok((width, height)),
    }
}

/// The format of a buffer: one that Vulkan knows, or a number of the decoder's.
#[derive(Clone, Copy, Debug, PartialEq, Eq, Structural)]
pub struct ExternalFormatKey {
    pub format: i32,
    pub external_format: u64,
}

/// How brightness and colour are put together.
#[derive(Clone, Copy, Debug, PartialEq, Eq, Structural)]
pub enum VideoMatrixCoefficients {
    Identity,
    Bt709,
    Bt470Bg,
    Smpte170M,
    Bt2020Ncl,
    Other,
}

#[derive(Clone, Copy, Debug, PartialEq, Eq, Structural)]
pub enum VideoColorRange {
    Full,
    Limited,
}

/// What a video says of its colours.
#[derive(Clone, Copy, Debug, PartialEq, Eq, Structural)]
pub struct VideoColorInfo {
    pub matrix: Option<VideoMatrixCoefficients>,
    pub range: Option<VideoColorRange>,
}

/// How Vulkan puts brightness and colour together.
#[derive(Clone, Copy, Debug, PartialEq, Eq, Structural)]
pub enum YcbcrModel {
    RgbIdentity,
    YcbcrIdentity,
    Ycbcr709,
    Ycbcr601,
    Ycbcr2020,
}

#[derive(Clone, Copy, Debug, PartialEq, Eq, Structural)]
pub enum YcbcrRange {
    ItuFull,
    ItuNarrow,
}

/// The model after what a video says, or else after what the decoder suggests.
pub open spec fn model_of(color: Option<VideoColorInfo>, suggested: YcbcrModel) -> YcbcrModel {
    match color {
        Some(VideoColorInfo { matrix: Some(matrix), .. }) => match matrix {
            VideoMatrixCoefficients::Bt709 => YcbcrModel::Ycbcr709,
            VideoMatrixCoefficients::Bt470Bg
            | VideoMatrixCoefficients::Smpte170M => YcbcrModel::Ycbcr601,
            VideoMatrixCoefficients::Bt2020Ncl => YcbcrModel::Ycbcr2020,
            VideoMatrixCoefficients::Identity => YcbcrModel::RgbIdentity,
            VideoMatrixCoefficients::Other => suggested,
        },
        _ => suggested,
    }
}

pub fn ycbcr_model(color: Option<VideoColorInfo>, suggested: YcbcrModel) -> (model: YcbcrModel)
    ensures
        model == model_of(color, suggested),
{
    match color {
        Some(info) => match info.matrix {
            Some(VideoMatrixCoefficients::Bt709) => YcbcrModel::Ycbcr709,
            Some(VideoMatrixCoefficients::Bt470Bg)
            | Some(VideoMatrixCoefficients::Smpte170M) => YcbcrModel::Ycbcr601,
            Some(VideoMatrixCoefficients::Bt2020Ncl) => YcbcrModel::Ycbcr2020,
            Some(VideoMatrixCoefficients::Identity) => YcbcrModel::RgbIdentity,
            _ => suggested,
        },
        None => suggested,
    }
}

/// The range after what a video says, or else after what the decoder suggests.
pub open spec fn range_of(color: Option<VideoColorInfo>, suggested: YcbcrRange) -> YcbcrRange {
    match color {
        Some(VideoColorInfo { range: Some(VideoColorRange::Full), .. }) => YcbcrRange::ItuFull,
        Some(VideoColorInfo { range: Some(VideoColorRange::Limited), .. }) => YcbcrRange::ItuNarrow,
        _ => suggested,
    }
}

pub fn ycbcr_range(color: Option<VideoColorInfo>, suggested: YcbcrRange) -> (range: YcbcrRange)
    ensures
        range == range_of(color, suggested),
{
    match color {
        Some(info) => match info.range {
            Some(VideoColorRange::Full) => YcbcrRange::ItuFull,
            Some(VideoColorRange::Limited) => YcbcrRange::ItuNarrow,
            None => suggested,
        },
        None => suggested,
    }
}

/// What a device can do.
#[derive(Clone, Copy, Debug, PartialEq, Eq, Structural)]
pub struct BridgeDevice {
    pub nv12: bool,
    pub vulkan_device: bool,
    pub vulkan_queue: bool,
    pub hardware_buffers: bool,
    pub foreign_queues: bool,
}

/// What the driver says of a buffer.
#[derive(Clone, Copy, Debug, PartialEq, Eq, Structural)]
pub struct FormatProperties {
    pub key: ExternalFormatKey,
    pub sampled: bool,
    pub linear_filter: bool,
    pub suggested_model: YcbcrModel,
    pub suggested_range: YcbcrRange,
}

/// How the colours of buffers are converted.
#[derive(Clone, Copy, Debug, PartialEq, Eq, Structural)]
pub struct Conversion {
    pub format: i32,
    /// The number of the decoder's format, where Vulkan knows none.
    pub external_format: Option<u64>,
    pub model: YcbcrModel,
    pub range: YcbcrRange,
    /// Whether colours are blended between points.
    pub linear_filter: bool,
}

/// The number of the decoder's format, where Vulkan knows none.
pub open spec fn external_of(key: ExternalFormatKey) -> Option<u64> {
    if key.format == UNDEFINED_FORMAT { Some(key.external_format) } else { None }
}

fn external_format_of(key: ExternalFormatKey) -> (external: Option<u64>)
    ensures
        external == external_of(key),
{
    if key.format == UNDEFINED_FORMAT { Some(key.external_format) } else { None }
}

/// Whether the work on a texture is done.
#[derive(Clone, Copy, Debug, PartialEq, Eq, Structural)]
pub enum FenceStatus {
    Signalled,
    Pending,
    Failed,
}

/// A texture that frames are written to.
#[derive(Clone, Copy, Debug, PartialEq, Eq, Structural)]
pub struct Slot {
    /// Whether it was shown since it was made.
    pub output_sampled: bool,
    /// Whether a frame was written to it of which it is not known that the work is done.
    pub inflight: bool,
}

/// What a texture was last used for, which it is brought back to after a frame is written.
#[derive(Clone, Copy, Debug, PartialEq, Eq, Structural)]
pub enum OutputUse {
    Attachment,
    ShaderRead,
}

/// How a frame is brought in and written.
#[derive(Clone, Copy, Debug, PartialEq, Eq, Structural)]
pub struct RenderPlan {
    pub format: i32,
    pub external_format: Option<u64>,
    pub memory_type: u32,
    pub output: OutputUse,
}

/// Whether a bit is set.
pub open spec fn bit_set(bits: u32, i: u32) -> bool {
    (bits >> i) & 1 == 1
}

/// The lowest bit that is set, if any.
pub open spec fn is_lowest_bit(bits: u32, lowest: Option<u32>) -> bool {
    match lowest {
        Some(i) => i < 32 && bit_set(bits, i) && forall|k: u32| k < i ==> !#[trigger] bit_set(bits, k),
        None => forall|k: u32| k < 32 ==> !#[trigger] bit_set(bits, k),
    }
}

/// The lowest kind of memory that a buffer can be in.
fn lowest_memory_type(bits: u32) -> (lowest: Option<u32>)
    ensures
        is_lowest_bit(bits, lowest),
{
    let mut i: u32 = 0;
    while i < 32
        invariant
            i <= 32,
            forall|k: u32| k < i ==> !#[trigger] bit_set(bits, k),
        decreases 32 - i,
    {
        if (bits >> i) & 1 == 1 {
            return Some(i);
        }
        i += 1;
    }
    None
}

/// The way from buffers of one size and format to a ring of textures.
pub struct MediaCodecVulkanBridge {
    pub width: u32,
    pub height: u32,
    pub format_key: ExternalFormatKey,
    pub slots: Vec<Slot>,
}

/// The way from buffers to textures, as values.
pub struct Bridge {
    pub width: u32,
    pub height: u32,
    pub format_key: ExternalFormatKey,
    pub slots: Seq<Slot>,
}

impl View for MediaCodecVulkanBridge {
    type V = Bridge;

    open spec fn view(&self) -> Bridge {
        Bridge {
            width: self.width,
            height: self.height,
            format_key: self.format_key,
            slots: self.slots@,
        }
    }
}

/// Whether a texture is free, given whether the work on it is done.
pub open spec fn is_free(slot: Slot, fence: FenceStatus) -> bool {
    !slot.inflight || fence == FenceStatus::Signalled
}

/// Whether it cannot be told if a texture is free.
pub open spec fn is_unknown(slot: Slot, fence: FenceStatus) -> bool {
    slot.inflight && fence == FenceStatus::Failed
}

impl Bridge {
    /// There is something to show and something to show it in.
    pub open spec fn wf(self) -> bool {
        self.width > 0 && self.height > 0 && self.slots.len() > 0 && !(self.format_key.format
            == UNDEFINED_FORMAT && self.format_key.external_format == 0)
    }

    pub open spec fn with_slot(self, index: int, slot: Slot) -> Self {
        Bridge { slots: self.slots.update(index, slot), ..self }
    }

    /// The state once a texture was found to be free.
    pub open spec fn freed(self, index: int) -> Self {
        self.with_slot(index, Slot { inflight: false, ..self.slots[index] })
    }

    /// The first texture, from `from` on, that is free or of which it cannot be told.
    pub open spec fn first_candidate(self, fences: Seq<FenceStatus>, from: int) -> Option<int>
        decreases self.slots.len() - from,
    {
        if from >= self.slots.len() {
            None
        } else if is_free(self.slots[from], fences[from]) || is_unknown(
            self.slots[from],
            fences[from],
        ) {
            Some(from)
        } else {
            self.first_candidate(fences, from + 1)
        }
    }

    /// What a texture was last used for.
    pub open spec fn output_use(self, index: int) -> OutputUse {
        if self.slots[index].output_sampled { OutputUse::ShaderRead } else { OutputUse::Attachment }
    }
}

/// The fence error.
fn fence_error(error: String) -> (failure: BridgeError)
    ensures
        failure.text() == "query MediaCodec direct fence: "@ + error@,
{
    proof {
        reveal_strlit("query MediaCodec direct fence");
        reveal_strlit(": ");
        reveal_strlit("query MediaCodec direct fence: ");
        assert("query MediaCodec direct fence"@ + ": "@ =~= "query MediaCodec direct fence: "@);
    }
    BridgeError::Driver { step: "query MediaCodec direct fence".to_owned(), error }
}

impl MediaCodecVulkanBridge {
    /// Looks at the first frame and the device, before anything is asked of the driver: the
    /// size of the frame.
    pub fn prepare(first_frame: FrameStorage, slot_count: usize, device: BridgeDevice) -> (size: Result<
        (u32, u32),
        BridgeError,
    >)
        ensures
            match first_frame {
                FrameStorage::Foreign => size matches Err(BridgeError::ForeignStorage),
                FrameStorage::Readback => size matches Err(BridgeError::ReadbackImage),
                FrameStorage::Direct { width, height } => if width == 0 || height == 0 || slot_count
                    == 0 {
                    size matches Err(BridgeError::EmptyBridge)
                } else if !device.nv12 {
                    size matches Err(BridgeError::NoConversion)
                } else if !device.vulkan_device {
                    size matches Err(BridgeError::NotVulkanDevice)
                } else if !device.vulkan_queue {
                    size matches Err(BridgeError::NotVulkanQueue)
                } else if !device.hardware_buffers {
                    size matches Err(BridgeError::NoHardwareBuffers)
                } else if !device.foreign_queues {
                    size matches Err(BridgeError::NoForeignQueues)
                } else {
                    size == Ok::<(u32, u32), BridgeError>((width, height))
                },
            },
    {
        let (width, height) = match direct_storage(first_frame) {
            Ok(size) => size,
            Err(error) => return Err(error),
        };
        if width == 0 || height == 0 || slot_count == 0 {
            return Err(BridgeError::EmptyBridge);
        }
        if !device.nv12 {
            return Err(BridgeError::NoConversion);
        }
        if !device.vulkan_device {
            return Err(BridgeError::NotVulkanDevice);
        }
        if !device.vulkan_queue {
            return Err(BridgeError::NotVulkanQueue);
        }
        if !device.hardware_buffers {
            return Err(BridgeError::NoHardwareBuffers);
        }
        if !device.foreign_queues {
            return Err(BridgeError::NoForeignQueues);
        }
        Ok((width, height))
    }

    /// Sets up for buffers like the first one, of which the driver has said what it is; with
    /// how the colours are converted.
    pub fn new(
        width: u32,
        height: u32,
        slot_count: usize,
        properties: FormatProperties,
        color: Option<VideoColorInfo>,
    ) -> (made: Result<(Self, Conversion), BridgeError>)
        requires
            width > 0,
            height > 0,
            slot_count > 0,
        ensures
            if !properties.sampled {
                made matches Err(BridgeError::NotSampleable)
            } else if properties.key.format == UNDEFINED_FORMAT && properties.key.external_format
                == 0 {
                made matches Err(BridgeError::NoFormat)
            } else {
                made matches Ok((bridge, conversion)) && bridge@.wf() && bridge@ == (Bridge {
                    width,
                    height,
                    format_key: properties.key,
                    slots: Seq::new(
                        slot_count as nat,
                        |i: int| Slot { output_sampled: false, inflight: false },
                    ),
                }) && conversion == (Conversion {
                    format: properties.key.format,
                    external_format: external_of(properties.key),
                    model: model_of(color, properties.suggested_model),
                    range: range_of(color, properties.suggested_range),
                    linear_filter: properties.linear_filter,
                })
            },
    {
        if !properties.sampled {
            return Err(BridgeError::NotSampleable);
        }
        if properties.key.format == UNDEFINED_FORMAT && properties.key.external_format == 0 {
            return Err(BridgeError::NoFormat);
        }
        let conversion = Conversion {
            format: properties.key.format,
            external_format: external_format_of(properties.key),
            model: ycbcr_model(color, properties.suggested_model),
            range: ycbcr_range(color, properties.suggested_range),
            linear_filter: properties.linear_filter,
        };
        let mut slots: Vec<Slot> = Vec::new();
        while slots.len() < slot_count
            invariant
                slots@.len() <= slot_count,
                forall|i: int|
                    0 <= i < slots@.len() ==> slots@[i] == (Slot {
                        output_sampled: false,
                        inflight: false,
                    }),
            decreases slot_count - slots@.len(),
        {
            slots.push(Slot { output_sampled: false, inflight: false });
        }
        assert(slots@ =~= Seq::new(
            slot_count as nat,
            |i: int| Slot { output_sampled: false, inflight: false },
        ));
        let bridge = MediaCodecVulkanBridge { width, height, format_key: properties.key, slots };
        Ok((bridge, conversion))
    }

    pub fn dimensions(&self) -> (size: (u32, u32))
        ensures
            size == (self@.width, self@.height),
    {
        (self.width, self.height)
    }

    pub fn slot_count(&self) -> (count: usize)
        ensures
            count == self@.slots.len(),
    {
        self.slots.len()
    }

    /// Takes note of a texture that is shown; one that is not there is of no matter.
    pub fn mark_sampled(&mut self, slot: usize)
        ensures
            final(self)@ == (if slot < old(self)@.slots.len() {
                old(self)@.with_slot(
                    slot as int,
                    Slot { output_sampled: true, ..old(self)@.slots[slot as int] },
                )
            } else {
                old(self)@
            }),
    {
        if slot < self.slots.len() {
            let known = self.slots[slot];
            self.slots.set(slot, Slot { output_sampled: true, ..known });
        }
    }

    /// Whether the driver has to be asked if the work on a texture is done.
    pub fn is_inflight(&self, index: usize) -> (inflight: bool)
        ensures
            inflight == (index < self@.slots.len() && self@.slots[index as int].inflight),
    {
        index < self.slots.len() && self.slots[index].inflight
    }

    /// Whether a texture is free, given what the driver says of the work on it, and why it
    /// could not say; the driver counts only where there is work.
    pub fn is_available(&mut self, index: usize, fence: FenceStatus, error: String) -> (available: Result<
        bool,
        BridgeError,
    >)
        ensures
            if index >= old(self)@.slots.len() {
                &&& available matches Err(BridgeError::SlotOutOfRange)
                &&& *final(self) == *old(self)
            } else if is_unknown(old(self)@.slots[index as int], fence) {
                &&& available matches Err(failure) && failure.text()
                    == "query MediaCodec direct fence: "@ + error@
                &&& *final(self) == *old(self)
            } else {
                &&& available == Ok::<bool, BridgeError>(
                    is_free(old(self)@.slots[index as int], fence),
                )
                &&& final(self)@ == (if is_free(old(self)@.slots[index as int], fence) {
                    old(self)@.freed(index as int)
                } else {
                    old(self)@
                })
            },
    {
        if index >= self.slots.len() {
            return Err(BridgeError::SlotOutOfRange);
        }
        let slot = self.slots[index];
        if !slot.inflight {
            assert(self@.freed(index as int).slots =~= self@.slots);
            return Ok(true);
        }
        match fence {
            FenceStatus::Signalled => {
                self.slots.set(index, Slot { inflight: false, ..slot });
                Ok(true)
            },
            FenceStatus::Pending => Ok(false),
            FenceStatus::Failed => Err(fence_error(error)),
        }
    }

    /// The first texture that is free, given what the driver says of the work on each, and
    /// why it could not say.
    pub fn first_available_slot(&mut self, fences: &Vec<FenceStatus>, error: String) -> (available: Result<
        Option<usize>,
        BridgeError,
    >)
        requires
            fences@.len() == old(self)@.slots.len(),
        ensures
            match old(self)@.first_candidate(fences@, 0) {
                None => available == Ok::<Option<usize>, BridgeError>(None) && final(self)@ == old(
                    self,
                )@,
                Some(index) => if is_free(old(self)@.slots[index], fences@[index]) {
                    &&& available matches Ok(Some(found)) && found == index
                    &&& final(self)@ == old(self)@.freed(index)
                } else {
                    &&& available matches Err(failure) && failure.text()
                        == "query MediaCodec direct fence: "@ + error@
                    &&& final(self)@ == old(self)@
                },
            },
    {
        let mut index: usize = 0;
        while index < self.slots.len()
            invariant
                index <= self.slots.len(),
                self@ == old(self)@,
                fences@.len() == self.slots.len(),
                old(self)@.first_candidate(fences@, 0) == old(self)@.first_candidate(
                    fences@,
                    index as int,
                ),
            decreases self.slots.len() - index,
        {
            let slot = self.slots[index];
            if !slot.inflight {
                assert(self@.freed(index as int).slots =~= self@.slots);
                return Ok(Some(index));
            }
            match fences[index] {
                FenceStatus::Signalled => {
                    self.slots.set(index, Slot { inflight: false, ..slot });
                    return Ok(Some(index));
                },
                FenceStatus::Pending => {},
                FenceStatus::Failed => return Err(fence_error(error)),
            }
            index += 1;
        }
        Ok(None)
    }

    /// Looks at a frame that is to be written to a texture that is free or not.
    pub fn check_frame(&self, available: bool, frame: FrameStorage) -> (checked: Result<(), BridgeError>)
        ensures
            if !available {
                checked matches Err(BridgeError::SlotBusy)
            } else {
                match frame {
                    FrameStorage::Foreign => checked matches Err(BridgeError::ForeignStorage),
                    FrameStorage::Readback => checked matches Err(BridgeError::ReadbackImage),
                    FrameStorage::Direct { width, height } => if width != self@.width || height
                        != self@.height {
                        checked matches Err(BridgeError::DimensionsChanged)
                    } else {
                        checked is Ok
                    },
                }
            },
    {
        if !available {
            return Err(BridgeError::SlotBusy);
        }
        match direct_storage(frame) {
            Ok((width, height)) => {
                if width != self.width || height != self.height {
                    Err(BridgeError::DimensionsChanged)
                } else {
                    Ok(())
                }
            },
            Err(error) => Err(error),
        }
    }

    /// How a frame is brought in, given what the driver says of its buffer, and written to a
    /// texture.
    pub fn render_plan(&self, slot_index: usize, key: ExternalFormatKey, memory_type_bits: u32) -> (plan:
        Result<RenderPlan, BridgeError>)
        requires
            slot_index < self@.slots.len(),
        ensures
            if key != self@.format_key {
                plan matches Err(BridgeError::FormatChanged { from, to }) && from
                    == self@.format_key && to == key
            } else {
                match plan {
                    Ok(plan) => {
                        &&& is_lowest_bit(memory_type_bits, Some(plan.memory_type))
                        &&& plan.format == key.format
                        &&& plan.external_format == external_of(key)
                        &&& plan.output == self@.output_use(slot_index as int)
                    },
                    Err(error) => error is NoMemoryType && is_lowest_bit(memory_type_bits, None),
                }
            },
    {
        if key.format != self.format_key.format || key.external_format
            != self.format_key.external_format {
            return Err(BridgeError::FormatChanged { from: self.format_key, to: key });
        }
        match lowest_memory_type(memory_type_bits) {
            Some(memory_type) => Ok(
                RenderPlan {
                    format: key.format,
                    external_format: external_format_of(key),
                    memory_type,
                    output: if self.slots[slot_index].output_sampled {
                        OutputUse::ShaderRead
                    } else {
                        OutputUse::Attachment
                    },
                },
            ),
            None => Err(BridgeError::NoMemoryType),
        }
    }

    /// Takes note of a frame that is being written to a texture.
    pub fn submitted(&mut self, slot_index: usize)
        requires
            slot_index < old(self)@.slots.len(),
        ensures
            final(self)@ == old(self)@.with_slot(
                slot_index as int,
                Slot { inflight: true, ..old(self)@.slots[slot_index as int] },
            ),
    {
        let slot = self.slots[slot_index];
        self.slots.set(slot_index, Slot { inflight: true, ..slot });
    }
}

/// A texture that is written to is not free before the driver says that the work is done.
pub proof fn busy_textures_are_left_alone(bridge: Bridge, index: int, fence: FenceStatus)
    requires
        0 <= index < bridge.slots.len(),
    ensures
        ({
            let busy = bridge.with_slot(index, Slot { inflight: true, ..bridge.slots[index] });
            is_free(busy.slots[index], fence) <==> fence == FenceStatus::Signalled
        }),
{
}

/// A texture that is found is the first that is free: the ones before it are all being
/// written to.
pub proof fn first_free_texture_is_found(bridge: Bridge, fences: Seq<FenceStatus>, from: int, k: int)
    requires
        0 <= from <= k < bridge.slots.len(),
        match bridge.first_candidate(fences, from) {
            Some(index) => k < index,
            None => true,
        },
    ensures
        !is_free(bridge.slots[k], fences[k]),
        bridge.slots[k].inflight && fences[k] == FenceStatus::Pending,
    decreases k - from,
{
    if from < k {
        first_free_texture_is_found(bridge, fences, from + 1, k);
    }
}

/// The words of a shader are four bytes each, in the order in which its first word is the one
/// that all begin with.
pub proof fn shaders_are_read_in_their_byte_order(bytes: Seq<u8>, i: int)
    requires
        bytes.len() >= 4,
        0 <= i < bytes.len() / 4,
    ensures
        bytes.len() % 4 != 0 ==> shader_words(bytes) is Err,
        bytes.len() % 4 == 0 && bytes[0] == 0x03 && bytes[1] == 0x02 && bytes[2] == 0x23 && bytes[3]
            == 0x07 ==> (shader_words(bytes) matches Ok(words) && words.len() * 4 == bytes.len()
            && words[i] == bytes[4 * i] + 256 * bytes[4 * i + 1] + 65_536 * bytes[4 * i + 2]
            + 16_777_216 * bytes[4 * i + 3]),
        bytes.len() % 4 == 0 && bytes[0] == 0x07 && bytes[1] == 0x23 && bytes[2] == 0x02 && bytes[3]
            == 0x03 ==> (shader_words(bytes) matches Ok(words) && words.len() * 4 == bytes.len()
            && words[i] == 16_777_216 * bytes[4 * i] + 65_536 * bytes[4 * i + 1] + 256 * bytes[4 * i
            + 2] + bytes[4 * i + 3]),
{
}

/// Colours are turned as the video says, and as the device suggests where it says nothing.
pub proof fn colours_are_turned_as_the_video_says(
    color: VideoColorInfo,
    model: YcbcrModel,
    range: YcbcrRange,
)
    ensures
        model_of(None, model) == model,
        color.matrix is None ==> model_of(Some(color), model) == model,
        color.matrix == Some(VideoMatrixCoefficients::Bt709) ==> model_of(Some(color), model)
            == YcbcrModel::Ycbcr709,
        color.matrix == Some(VideoMatrixCoefficients::Smpte170M) ==> model_of(Some(color), model)
            == YcbcrModel::Ycbcr601,
        color.matrix == Some(VideoMatrixCoefficients::Bt470Bg) ==> model_of(Some(color), model)
            == YcbcrModel::Ycbcr601,
        color.matrix == Some(VideoMatrixCoefficients::Bt2020Ncl) ==> model_of(Some(color), model)
            == YcbcrModel::Ycbcr2020,
        color.matrix == Some(VideoMatrixCoefficients::Identity) ==> model_of(Some(color), model)
            == YcbcrModel::RgbIdentity,
        color.matrix == Some(VideoMatrixCoefficients::Other) ==> model_of(Some(color), model)
            == model,
        range_of(None, range) == range,
        color.range is None ==> range_of(Some(color), range) == range,
        color.range == Some(VideoColorRange::Full) ==> range_of(Some(color), range)
            == YcbcrRange::ItuFull,
        color.range == Some(VideoColorRange::Limited) ==> range_of(Some(color), range)
            == YcbcrRange::ItuNarrow,
{
}

/// A texture can be used if nothing is under way on it, or what was is done; one of which it
/// is not known is tried.
pub proof fn textures_are_used_again_when_they_are_free(
    bridge: Bridge,
    fences: Seq<FenceStatus>,
    from: int,
)
    requires
        0 <= from <= bridge.slots.len(),
    ensures
        bridge.first_candidate(fences, from) matches Some(index) ==> {
            &&& from <= index < bridge.slots.len()
            &&& !bridge.slots[index].inflight || fences[index] == FenceStatus::Signalled
                || fences[index] == FenceStatus::Failed
        },
    decreases bridge.slots.len() - from,
{
    if from < bridge.slots.len() && !is_free(bridge.slots[from], fences[from]) && !is_unknown(
        bridge.slots[from],
        fences[from],
    ) {
        textures_are_used_again_when_they_are_free(bridge, fences, from + 1);
    }
}

} // verus!
