//! The surface that frames are presented on: how it is configured, what is done when it
//! cannot be drawn on, and the GPU device behind it.

use crate::model;
use crate::model::{
    push_row, AppCommand, DebugEdge, DebugGraph, DebugGraphLane, DebugNode, Graph, Node,
};
use crate::playback::decode_mode::{DecodeMode, Platform};
use crate::text;
use crate::time::{Duration, MAX_NANOS};
use vstd::prelude::*;
use vstd::string::*;

verus! {

/// How often in a row a surface is reconfigured after it failed validation.
pub const MAX_SURFACE_VALIDATION_RECOVERY_ATTEMPTS: u8 = 3;

/// What came of asking the surface for a texture to draw on.
#[derive(Clone, Copy, Debug, PartialEq, Eq, Structural)]
pub enum SurfaceTexture {
    Success,
    Suboptimal,
    Outdated,
    Lost,
    Timeout,
    Occluded,
    Validation,
}

/// What became of a frame.
#[derive(Clone, Copy, Debug, PartialEq, Eq, Structural)]
pub enum RenderStatus {
    Presented,
    Reconfigure,
    Skip,
}

/// A frame that was rendered, or why none was.
pub struct RenderFrame {
    pub status: RenderStatus,
    pub commands: Vec<AppCommand>,
    pub repaint_after: Option<Duration>,
}

/// The delay after which the next frame is wanted: none where the delay has no end.
pub open spec fn finite_delay(delay: Option<Duration>) -> Option<Duration> {
    match delay {
        Some(delay) if delay.nanos != MAX_NANOS => Some(delay),
        _ => None,
    }
}

impl RenderFrame {
    /// A frame that was not drawn.
    pub fn status(status: RenderStatus) -> (frame: Self)
        ensures
            frame.status == status,
            frame.commands@ == Seq::<AppCommand>::empty(),
            frame.repaint_after is None,
    {
        RenderFrame { status, commands: Vec::new(), repaint_after: None }
    }

    /// A frame that was drawn and presented.
    pub fn presented(
        reconfigure_after_present: bool,
        commands: Vec<AppCommand>,
        repaint_delay: Option<Duration>,
    ) -> (frame: Self)
        ensures
            frame.status == (if reconfigure_after_present {
                RenderStatus::Reconfigure
            } else {
                RenderStatus::Presented
            }),
            frame.commands == commands,
            frame.repaint_after == finite_delay(repaint_delay),
    {
        let status = if reconfigure_after_present {
            RenderStatus::Reconfigure
        } else {
            RenderStatus::Presented
        };
        let repaint_after = match repaint_delay {
            Some(delay) => if delay.nanos != MAX_NANOS { Some(delay) } else { None },
            None => None,
        };
        RenderFrame { status, commands, repaint_after }
    }
}

/// The number of the next attempt to recover, as long as attempts are left.
pub open spec fn next_attempt(failures: u8) -> Option<u8> {
    if failures < MAX_SURFACE_VALIDATION_RECOVERY_ATTEMPTS {
        Some((failures + 1) as u8)
    } else {
        None
    }
}

pub fn next_surface_validation_recovery_attempt(previous_failures: u8) -> (attempt: Option<u8>)
    ensures
        attempt == next_attempt(previous_failures),
{
    if previous_failures < MAX_SURFACE_VALIDATION_RECOVERY_ATTEMPTS {
        Some(previous_failures + 1)
    } else {
        None
    }
}

/// What is done with the texture that was asked for.
#[derive(Clone, Copy, Debug, PartialEq, Eq, Structural)]
pub enum Acquisition {
    Draw { reconfigure_after_present: bool },
    Leave(RenderStatus),
}

/// Why no frame can be drawn any more.
#[derive(Clone, Copy, Debug, PartialEq, Eq, Structural)]
pub enum SurfaceError {
    /// Validation failed again after the last attempt to recover.
    ValidationPersisted,
}

impl SurfaceError {
    pub open spec fn text(self) -> Seq<char> {
        "surface acquisition validation persisted after 3 recovery attempts"@
    }

    pub fn message(self) -> (message: String)
        ensures
            message@ == self.text(),
    {
        "surface acquisition validation persisted after 3 recovery attempts".to_owned()
    }
}

/// What is done with a texture, given how often validation has failed in a row.
pub open spec fn acquisition(failures: u8, texture: SurfaceTexture) -> Result<Acquisition, SurfaceError> {
    match texture {
        SurfaceTexture::Success => Ok(Acquisition::Draw { reconfigure_after_present: false }),
        SurfaceTexture::Suboptimal => Ok(Acquisition::Draw { reconfigure_after_present: true }),
        SurfaceTexture::Outdated | SurfaceTexture::Lost => Ok(
            Acquisition::Leave(RenderStatus::Reconfigure),
        ),
        SurfaceTexture::Timeout | SurfaceTexture::Occluded => Ok(
            Acquisition::Leave(RenderStatus::Skip),
        ),
        SurfaceTexture::Validation => match next_attempt(failures) {
            Some(_) => Ok(Acquisition::Leave(RenderStatus::Reconfigure)),
            None => Err(SurfaceError::ValidationPersisted),
        },
    }
}

/// How often validation has failed in a row once a texture was asked for.
pub open spec fn failures_after(failures: u8, texture: SurfaceTexture) -> u8 {
    match texture {
        SurfaceTexture::Success | SurfaceTexture::Suboptimal => 0,
        SurfaceTexture::Validation => match next_attempt(failures) {
            Some(attempt) => attempt,
            None => failures,
        },
        _ => failures,
    }
}

/// The size of the surface and how often validation has failed in a row.
#[derive(Clone, Copy, Debug, PartialEq, Eq, Structural)]
pub struct SurfaceState {
    pub width: u32,
    pub height: u32,
    pub max_dimension: u32,
    pub validation_failures: u8,
}

/// A side of the surface: at least one pixel and no more than a texture can have.
pub open spec fn side(length: u32, max_dimension: u32) -> u32 {
    if length < 1 {
        1
    } else if length > max_dimension {
        max_dimension
    } else {
        length
    }
}

fn clamp_side(length: u32, max_dimension: u32) -> (clamped: u32)
    requires
        max_dimension >= 1,
    ensures
        clamped == side(length, max_dimension),
        1 <= clamped <= max_dimension,
{
    if length < 1 {
        1
    } else if length > max_dimension {
        max_dimension
    } else {
        length
    }
}

impl SurfaceState {
    /// The surface is never empty nor larger than a texture.
    pub open spec fn wf(self) -> bool {
        &&& 1 <= self.width <= self.max_dimension
        &&& 1 <= self.height <= self.max_dimension
        &&& self.validation_failures <= MAX_SURFACE_VALIDATION_RECOVERY_ATTEMPTS
    }

    pub fn new(width: u32, height: u32, max_dimension: u32) -> (state: Self)
        requires
            max_dimension >= 1,
        ensures
            state.wf(),
            state == (SurfaceState {
                width: side(width, max_dimension),
                height: side(height, max_dimension),
                max_dimension,
                validation_failures: 0,
            }),
    {
        SurfaceState {
            width: clamp_side(width, max_dimension),
            height: clamp_side(height, max_dimension),
            max_dimension,
            validation_failures: 0,
        }
    }

    pub fn resize(&mut self, width: u32, height: u32)
        requires
            old(self).wf(),
        ensures
            final(self).wf(),
            *final(self) == (SurfaceState {
                width: side(width, old(self).max_dimension),
                height: side(height, old(self).max_dimension),
                ..*old(self)
            }),
    {
        self.width = clamp_side(width, self.max_dimension);
        self.height = clamp_side(height, self.max_dimension);
    }

    /// Takes note of what came of asking for a texture, and says what is done.
    pub fn acquire(&mut self, texture: SurfaceTexture) -> (acquired: Result<Acquisition, SurfaceError>)
        ensures
            acquired == acquisition(old(self).validation_failures, texture),
            *final(self) == (SurfaceState {
                validation_failures: failures_after(old(self).validation_failures, texture),
                ..*old(self)
            }),
            old(self).wf() ==> final(self).wf(),
    {
        match texture {
            SurfaceTexture::Success => {
                self.validation_failures = 0;
                Ok(Acquisition::Draw { reconfigure_after_present: false })
            },
            SurfaceTexture::Suboptimal => {
                self.validation_failures = 0;
                Ok(Acquisition::Draw { reconfigure_after_present: true })
            },
            SurfaceTexture::Outdated | SurfaceTexture::Lost => Ok(
                Acquisition::Leave(RenderStatus::Reconfigure),
            ),
            SurfaceTexture::Timeout | SurfaceTexture::Occluded => Ok(
                Acquisition::Leave(RenderStatus::Skip),
            ),
            SurfaceTexture::Validation => {
                match next_surface_validation_recovery_attempt(self.validation_failures) {
                    Some(attempt) => {
                        self.validation_failures = attempt;
                        Ok(Acquisition::Leave(RenderStatus::Reconfigure))
                    },
                    None => Err(SurfaceError::ValidationPersisted),
                }
            },
        }
    }
}

/// How often validation has failed in a row after `textures`.
pub open spec fn failures_after_all(failures: u8, textures: Seq<SurfaceTexture>) -> u8
    decreases textures.len(),
{
    if textures.len() == 0 {
        failures
    } else {
        failures_after(failures_after_all(failures, textures.drop_last()), textures.last())
    }
}

/// A surface that fails validation for the first time, or after a frame was drawn, is
/// reconfigured three times, and given up if validation fails once more.
pub proof fn recovery_is_bounded(attempts: nat)
    ensures
        ({
            let failed = Seq::new(attempts, |i: int| SurfaceTexture::Validation);
            let failures = failures_after_all(0, failed);
            &&& attempts < 3 ==> acquisition(failures, SurfaceTexture::Validation) == Ok::<
                Acquisition,
                SurfaceError,
            >(Acquisition::Leave(RenderStatus::Reconfigure))
            &&& attempts >= 3 ==> acquisition(failures, SurfaceTexture::Validation) == Err::<
                Acquisition,
                SurfaceError,
            >(SurfaceError::ValidationPersisted)
        }),
        failures_after_all(0, Seq::new(attempts, |i: int| SurfaceTexture::Validation)) == (if attempts
            < 3 {
            attempts as int
        } else {
            3
        }),
    decreases attempts,
{
    let failed = Seq::new(attempts, |i: int| SurfaceTexture::Validation);
    if attempts > 0 {
        recovery_is_bounded((attempts - 1) as nat);
        assert(failed.drop_last() =~= Seq::new(
            (attempts - 1) as nat,
            |i: int| SurfaceTexture::Validation,
        ));
    }
}

/// A frame that is drawn gives back all attempts to recover, whatever came before.
pub proof fn drawn_frame_restores_attempts(failures: u8, texture: SurfaceTexture)
    requires
        acquisition(failures, texture) matches Ok(Acquisition::Draw { .. }),
    ensures
        failures_after(failures, texture) == 0,
{
}

/// The formats of pixels that the player tells apart.
#[derive(Clone, Copy, Debug, PartialEq, Eq, Structural)]
pub enum SurfaceFormat {
    Bgra8Unorm,
    Rgba8Unorm,
    /// Any other format, by a number of the caller's.
    Other(u32),
}

/// Whether video that is already transfer-encoded keeps its look in a format.
pub open spec fn is_plain(format: SurfaceFormat) -> bool {
    format == SurfaceFormat::Bgra8Unorm || format == SurfaceFormat::Rgba8Unorm
}

/// The first of `formats` that keeps the look of video, if there is one.
pub open spec fn first_plain(formats: Seq<SurfaceFormat>) -> Option<SurfaceFormat>
    decreases formats.len(),
{
    if formats.len() == 0 {
        None
    } else if is_plain(formats[0]) {
        Some(formats[0])
    } else {
        first_plain(formats.skip(1))
    }
}

pub fn plain_format(formats: &Vec<SurfaceFormat>) -> (format: Option<SurfaceFormat>)
    ensures
        format == first_plain(formats@),
{
    let mut i: usize = 0;
    assert(formats@.skip(0) =~= formats@);
    while i < formats.len()
        invariant
            i <= formats.len(),
            first_plain(formats@) == first_plain(formats@.skip(i as int)),
        decreases formats.len() - i,
    {
        let format = formats[i];
        if format == SurfaceFormat::Bgra8Unorm || format == SurfaceFormat::Rgba8Unorm {
            return Some(format);
        }
        assert(formats@.skip(i as int).skip(1) =~= formats@.skip(i + 1));
        i += 1;
    }
    None
}

/// The format of the surface: one that keeps the look of video, or else the first.
pub fn preferred_format(formats: &Vec<SurfaceFormat>) -> (format: SurfaceFormat)
    requires
        formats@.len() > 0,
    ensures
        format == (match first_plain(formats@) {
            Some(format) => format,
            None => formats@[0],
        }),
{
    match plain_format(formats) {
        Some(format) => format,
        None => formats[0],
    }
}

/// How the surface is blended with what lies behind the window.
#[derive(Clone, Copy, Debug, PartialEq, Eq, Structural)]
pub enum AlphaMode {
    Opaque,
    /// Any other mode, by a number of the caller's.
    Other(u32),
}

/// The alpha mode: opaque where that can be had, or else the first.
pub fn preferred_alpha_mode(modes: &Vec<AlphaMode>) -> (mode: AlphaMode)
    requires
        modes@.len() > 0,
    ensures
        mode == (if modes@.contains(AlphaMode::Opaque) { AlphaMode::Opaque } else { modes@[0] }),
{
    let mut i: usize = 0;
    while i < modes.len()
        invariant
            i <= modes.len(),
            forall|k: int| 0 <= k < i ==> modes@[k] != AlphaMode::Opaque,
        decreases modes.len() - i,
    {
        if modes[i] == AlphaMode::Opaque {
            assert(modes@[i as int] == AlphaMode::Opaque);
            return AlphaMode::Opaque;
        }
        i += 1;
    }
    modes[0]
}

/// Which GPU device is asked for.
#[derive(Clone, Copy, Debug, PartialEq, Eq, Structural)]
pub enum DeviceRequest {
    /// One that also decodes video.
    SharedWithVideo,
    Ordinary,
}

/// The device that is asked for first.
pub open spec fn first_request(mode: DecodeMode, platform: Platform) -> DeviceRequest {
    if platform == Platform::Windows && (mode == DecodeMode::Auto || mode
        == DecodeMode::VulkanDirect) {
        DeviceRequest::SharedWithVideo
    } else {
        DeviceRequest::Ordinary
    }
}

pub fn device_request(mode: DecodeMode, platform: Platform) -> (request: DeviceRequest)
    ensures
        request == first_request(mode, platform),
{
    if platform == Platform::Windows && mode.prefers_windows_shared_vulkan_device() {
        DeviceRequest::SharedWithVideo
    } else {
        DeviceRequest::Ordinary
    }
}

/// What is asked for once the shared device could not be had: an ordinary one, or nothing
/// where the decode mode needs the shared one.
pub fn after_shared_failure(mode: DecodeMode, error: String) -> (next: Result<DeviceRequest, String>)
    ensures
        next == (if mode == DecodeMode::VulkanDirect {
            Err(error)
        } else {
            Ok(DeviceRequest::Ordinary)
        }),
{
    if mode.requires_windows_shared_vulkan_device() {
        Err(error)
    } else {
        Ok(DeviceRequest::Ordinary)
    }
}

/// What is said when no ordinary device could be had.
pub open spec fn device_error_text(shared: Option<Seq<char>>, error: Seq<char>) -> Seq<char> {
    match shared {
        Some(shared) => "request shared Vulkan Video device: "@ + shared
            + "; fallback request_device: "@ + error,
        None => "request_device: "@ + error,
    }
}

pub fn device_error(shared: Option<&String>, error: &String) -> (message: String)
    ensures
        message@ == device_error_text(
            match shared {
                Some(shared) => Some(shared@),
                None => None,
            },
            error@,
        ),
{
    match shared {
        Some(shared) => {
            let mut message = "request shared Vulkan Video device: ".to_owned();
            message.append(shared.as_str());
            message.append("; fallback request_device: ");
            message.append(error.as_str());
            message
        },
        None => {
            let mut message = "request_device: ".to_owned();
            message.append(error.as_str());
            message
        },
    }
}

/// The queues of a device that also decodes video.
#[derive(Clone, Copy, Debug, PartialEq, Eq, Structural)]
pub struct SharedDevice {
    pub graphics_queue_family: u32,
    pub video_queue_family: u32,
    pub video_queue: u32,
}

/// What is known of the GPU and the surface, in the words of the graphics library.
pub struct GraphicsInfo {
    pub adapter: String,
    pub backend: String,
    pub device_type: String,
    pub max_dimension: u32,
    pub shared: Option<SharedDevice>,
    pub width: u32,
    pub height: u32,
    pub format: String,
    pub present_mode: String,
    pub alpha_mode: String,
    pub frame_latency: u32,
}

impl GraphicsInfo {
    pub open spec fn surface_text(self) -> Seq<char> {
        text::decimal(self.width as nat) + "x"@ + text::decimal(self.height as nat) + " "@
            + self.format@
    }

    pub open spec fn device_rows(self) -> Seq<(Seq<char>, Seq<char>)> {
        let rows = seq![
            ("adapter"@, self.adapter@),
            ("backend"@, self.backend@),
            ("device type"@, self.device_type@),
            ("max texture dimension"@, text::decimal(self.max_dimension as nat)),
        ];
        match self.shared {
            Some(shared) => rows + seq![
                ("shared Vulkan Video device"@, "true"@),
                ("graphics queue family"@, text::decimal(shared.graphics_queue_family as nat)),
                ("video decode queue family"@, text::decimal(shared.video_queue_family as nat)),
                ("video decode queue index"@, text::decimal(shared.video_queue as nat)),
            ],
            None => rows,
        }
    }

    pub open spec fn device_node(self) -> Node {
        Node {
            id: "wgpu-device"@,
            title: "wgpu device / graphics queue"@,
            summary: self.backend@,
            lane: DebugGraphLane::Shared,
            column: 5,
            rows: self.device_rows(),
        }
    }

    pub open spec fn surface_node(self) -> Node {
        Node {
            id: "presentation-surface"@,
            title: "wgpu presentation surface"@,
            summary: self.surface_text(),
            lane: DebugGraphLane::Video,
            column: 9,
            rows: seq![
                ("size / format"@, self.surface_text()),
                ("present mode"@, self.present_mode@),
                ("alpha mode"@, self.alpha_mode@),
                ("frame latency"@, text::decimal(self.frame_latency as nat)),
            ],
        }
    }

    /// The diagram of a video renderer, with the device and the surface added to it.
    pub open spec fn graph(self, video: Graph) -> Graph {
        let joined = match self.shared {
            Some(_) => video.with_edge(
                model::relationship("oxideav-video-stage-0"@, "wgpu-device"@, "same VkDevice"@),
            ).with_edge(
                model::relationship("video-direct-copy"@, "wgpu-device"@, "wgpu graphics queue"@),
            ),
            None => video,
        };
        let shown = joined.with_node(self.device_node()).with_node(self.surface_node());
        let last = if shown.has_node("video-shader"@) {
            "video-shader"@
        } else {
            "video-presentation"@
        };
        shown.with_edge(model::flow(last, "presentation-surface"@, "render pass"@)).with_edge(
            model::relationship(
                "wgpu-device"@,
                "presentation-surface"@,
                "owns surface/render queue"@,
            ),
        )
    }

    fn surface_summary(&self) -> (summary: String)
        ensures
            summary@ == self.surface_text(),
    {
        let mut summary = number_text(self.width);
        summary.append("x");
        text::push_decimal(&mut summary, self.height as u64);
        summary.append(" ");
        summary.append(self.format.as_str());
        summary
    }

    fn debug_device_node(&self) -> (node: DebugNode)
        ensures
            node@ == self.device_node(),
    {
        let mut rows: Vec<(String, String)> = Vec::new();
        push_row(&mut rows, "adapter", self.adapter.clone());
        push_row(&mut rows, "backend", self.backend.clone());
        push_row(&mut rows, "device type", self.device_type.clone());
        push_row(&mut rows, "max texture dimension", number_text(self.max_dimension));
        if let Some(shared) = self.shared {
            push_row(&mut rows, "shared Vulkan Video device", "true".to_owned());
            push_row(&mut rows, "graphics queue family", number_text(shared.graphics_queue_family));
            push_row(&mut rows, "video decode queue family", number_text(shared.video_queue_family));
            push_row(&mut rows, "video decode queue index", number_text(shared.video_queue));
        }
        assert(model::rows_view(rows@) =~= self.device_rows());
        DebugNode::new(
            "wgpu-device",
            "wgpu device / graphics queue",
            self.backend.as_str(),
            DebugGraphLane::Shared,
            5,
            rows,
        )
    }

    fn debug_surface_node(&self) -> (node: DebugNode)
        ensures
            node@ == self.surface_node(),
    {
        let summary = self.surface_summary();
        let mut rows: Vec<(String, String)> = Vec::new();
        push_row(&mut rows, "size / format", self.surface_summary());
        push_row(&mut rows, "present mode", self.present_mode.clone());
        push_row(&mut rows, "alpha mode", self.alpha_mode.clone());
        push_row(&mut rows, "frame latency", number_text(self.frame_latency));
        assert(model::rows_view(rows@) =~= self.surface_node().rows);
        DebugNode::new(
            "presentation-surface",
            "wgpu presentation surface",
            summary.as_str(),
            DebugGraphLane::Video,
            9,
            rows,
        )
    }

    /// Adds the device and the surface to the diagram of a video renderer.
    pub fn debug_graph(&self, video: DebugGraph) -> (graph: DebugGraph)
        ensures
            graph@ == self.graph(video@),
    {
        let mut graph = video;
        if self.shared.is_some() {
            graph.push_edge(
                DebugEdge::relationship("oxideav-video-stage-0", "wgpu-device", "same VkDevice"),
            );
            graph.push_edge(
                DebugEdge::relationship("video-direct-copy", "wgpu-device", "wgpu graphics queue"),
            );
        }
        graph.push_node(self.debug_device_node());
        graph.push_node(self.debug_surface_node());
        if graph.contains_node("video-shader") {
            graph.push_edge(DebugEdge::flow("video-shader", "presentation-surface", "render pass"));
        } else {
            graph.push_edge(
                DebugEdge::flow("video-presentation", "presentation-surface", "render pass"),
            );
        }
        graph.push_edge(
            DebugEdge::relationship(
                "wgpu-device",
                "presentation-surface",
                "owns surface/render queue",
            ),
        );
        graph
    }
}

fn number_text(n: u32) -> (number: String)
    ensures
        number@ == text::decimal(n as nat),
{
    let mut number = String::new();
    text::push_decimal(&mut number, n as u64);
    assert(number@ =~= text::decimal(n as nat));
    number
}

/// What was acquired is drawn on, and set up anew afterwards if it no longer fits; what is
/// out of date or lost is set up anew, and what is not there now is left for later.
pub proof fn acquired_textures_are_drawn_on(failures: u8)
    ensures
        acquisition(failures, SurfaceTexture::Success) == Ok::<Acquisition, SurfaceError>(
            Acquisition::Draw { reconfigure_after_present: false },
        ),
        acquisition(failures, SurfaceTexture::Suboptimal) == Ok::<Acquisition, SurfaceError>(
            Acquisition::Draw { reconfigure_after_present: true },
        ),
        acquisition(failures, SurfaceTexture::Outdated) == Ok::<Acquisition, SurfaceError>(
            Acquisition::Leave(RenderStatus::Reconfigure),
        ),
        acquisition(failures, SurfaceTexture::Lost) == Ok::<Acquisition, SurfaceError>(
            Acquisition::Leave(RenderStatus::Reconfigure),
        ),
        acquisition(failures, SurfaceTexture::Timeout) == Ok::<Acquisition, SurfaceError>(
            Acquisition::Leave(RenderStatus::Skip),
        ),
        acquisition(failures, SurfaceTexture::Occluded) == Ok::<Acquisition, SurfaceError>(
            Acquisition::Leave(RenderStatus::Skip),
        ),
        failures_after(failures, SurfaceTexture::Timeout) == failures,
        failures_after(failures, SurfaceTexture::Lost) == failures,
{
}

/// A side is as long as the window's, but at least one and at most what the device allows.
pub proof fn sides_fit_the_window(length: u32, max_dimension: u32)
    requires
        max_dimension >= 1,
    ensures
        1 <= side(length, max_dimension) <= max_dimension,
        1 <= length <= max_dimension ==> side(length, max_dimension) == length,
        length > max_dimension ==> side(length, max_dimension) == max_dimension,
{
}

/// The format is the first of those that hold colours as they are.
pub proof fn first_plain_format_is_taken(before: Seq<SurfaceFormat>, after: Seq<SurfaceFormat>)
    requires
        forall|i: int|
            0 <= i < before.len() ==> #[trigger] before[i] != SurfaceFormat::Bgra8Unorm && before[i]
                != SurfaceFormat::Rgba8Unorm,
    ensures
        first_plain(before) is None,
        first_plain(before + seq![SurfaceFormat::Bgra8Unorm] + after) == Some(
            SurfaceFormat::Bgra8Unorm,
        ),
        first_plain(before + seq![SurfaceFormat::Rgba8Unorm] + after) == Some(
            SurfaceFormat::Rgba8Unorm,
        ),
    decreases before.len(),
{
    let bgra = before + seq![SurfaceFormat::Bgra8Unorm] + after;
    let rgba = before + seq![SurfaceFormat::Rgba8Unorm] + after;
    if before.len() > 0 {
        let rest = before.skip(1);
        assert forall|i: int| 0 <= i < rest.len() implies #[trigger] rest[i]
            != SurfaceFormat::Bgra8Unorm && rest[i] != SurfaceFormat::Rgba8Unorm by {
            assert(rest[i] == before[i + 1]);
        }
        first_plain_format_is_taken(rest, after);
        assert(bgra.skip(1) =~= rest + seq![SurfaceFormat::Bgra8Unorm] + after);
        assert(rgba.skip(1) =~= rest + seq![SurfaceFormat::Rgba8Unorm] + after);
        assert(bgra[0] == before[0] && rgba[0] == before[0]);
    } else {
        assert(bgra[0] == SurfaceFormat::Bgra8Unorm);
        assert(rgba[0] == SurfaceFormat::Rgba8Unorm);
    }
}

/// The device is shared with the decoder where that can be of use, and nowhere else.
pub proof fn device_is_shared_where_it_is_of_use(mode: DecodeMode, platform: Platform)
    ensures
        first_request(mode, platform) is SharedWithVideo <==> platform is Windows && (mode is Auto
            || mode is VulkanDirect),
{
}

/// A delay without an end is none.
pub proof fn endless_delays_are_none(delay: Duration)
    ensures
        finite_delay(None) is None,
        delay.nanos == 18_446_744_073_709_551_615_999_999_999 ==> finite_delay(Some(delay)) is None,
        delay.nanos < 18_446_744_073_709_551_615_999_999_999 ==> finite_delay(Some(delay)) == Some(
            delay,
        ),
{
}

} // verus!
