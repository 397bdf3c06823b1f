//! The GPU on Android: which device is made, how its surface is set up, and what is done
//! when there is nothing to draw on.

use crate::surface;
use crate::surface::{plain_format, SurfaceFormat, SurfaceTexture};
use vstd::prelude::*;
use vstd::string::*;

verus! {

/// What a GPU can do that matters for video.
#[derive(Clone, Copy, Debug, PartialEq, Eq, Structural)]
pub struct GpuFeatures {
    /// Whether pixels can be stored as brightness and colour apart.
    pub nv12: bool,
    /// Whether it is driven by way of Vulkan.
    pub vulkan: bool,
    /// Whether it can read the buffers of the hardware decoder.
    pub hardware_buffers: bool,
    /// Whether it can take buffers over from the hardware decoder.
    pub foreign_queues: bool,
}

impl GpuFeatures {
    pub open spec fn can_share(self) -> bool {
        self.nv12 && self.vulkan && self.hardware_buffers && self.foreign_queues
    }

    /// Whether a device is asked for that shares buffers with the hardware decoder.
    pub fn wants_custom_device(self) -> (wants: bool)
        ensures
            wants == self.can_share(),
    {
        self.nv12 && self.vulkan && self.hardware_buffers && self.foreign_queues
    }
}

/// Whether a device can show what the hardware decoder wrote without copying it.
pub fn mediacodec_direct_gpu_available(features: GpuFeatures) -> (available: bool)
    ensures
        available == features.can_share(),
{
    if !features.nv12 {
        return false;
    }
    if !features.vulkan {
        return false;
    }
    features.hardware_buffers && features.foreign_queues
}

/// Whether video is shown without copying it: where the device can, unless that is switched
/// off.
pub fn direct_presentation(features: GpuFeatures, disabled: bool) -> (direct: bool)
    ensures
        direct == (features.can_share() && !disabled),
{
    mediacodec_direct_gpu_available(features) && !disabled
}

/// How a device is made.
#[derive(Clone, Copy, Debug, PartialEq, Eq, Structural)]
pub enum DeviceSource {
    /// From one that was made to share buffers with the hardware decoder.
    Custom,
    Ordinary,
}

/// How a device is made, where one that shares buffers was asked for, and made, or not.
pub fn device_source(features: GpuFeatures, custom_made: bool) -> (source: DeviceSource)
    ensures
        source == (if features.can_share() && custom_made {
            DeviceSource::Custom
        } else {
            DeviceSource::Ordinary
        }),
{
    if features.wants_custom_device() && custom_made {
        DeviceSource::Custom
    } else {
        DeviceSource::Ordinary
    }
}

/// Why nothing can be drawn.
#[derive(Debug)]
pub enum GpuError {
    NoWindow,
    Surface(String),
    NoAdapter(String),
    Wrapping(String),
    Device(String),
    Incompatible,
    /// A new surface cannot show the format that everything is set up for.
    FormatGone(String),
    RecreatedIncompatible,
    Validation,
}

impl GpuError {
    pub open spec fn text(self) -> Seq<char> {
        match self {
            GpuError::NoWindow => "Android native window is unavailable"@,
            GpuError::Surface(error) => "could not create Android wgpu surface: "@ + error@,
            GpuError::NoAdapter(error) => "could not find Android GPU adapter: "@ + error@,
            GpuError::Wrapping(error) => "could not wrap Android Vulkan device: "@ + error@,
            GpuError::Device(error) => "could not create Android GPU device: "@ + error@,
            GpuError::Incompatible => "Android surface is incompatible with the selected GPU"@,
            GpuError::FormatGone(format) => "recreated Android surface no longer supports "@
                + format@,
            GpuError::RecreatedIncompatible => "recreated Android surface is incompatible"@,
            GpuError::Validation => "Android surface acquisition failed validation"@,
        }
    }

    pub fn message(&self) -> (message: String)
        ensures
            message@ == self.text(),
    {
        match self {
            GpuError::NoWindow => "Android native window is unavailable".to_owned(),
            GpuError::Surface(error) => joined("could not create Android wgpu surface: ", error),
            GpuError::NoAdapter(error) => joined("could not find Android GPU adapter: ", error),
            GpuError::Wrapping(error) => joined("could not wrap Android Vulkan device: ", error),
            GpuError::Device(error) => joined("could not create Android GPU device: ", error),
            GpuError::Incompatible => {
                "Android surface is incompatible with the selected GPU".to_owned()
            },
            GpuError::FormatGone(format) => joined(
                "recreated Android surface no longer supports ",
                format,
            ),
            GpuError::RecreatedIncompatible => "recreated Android surface is incompatible".to_owned(),
            GpuError::Validation => "Android surface acquisition failed validation".to_owned(),
        }
    }
}

fn joined(start: &str, end: &String) -> (whole: String)
    ensures
        whole@ == start@ + end@,
{
    let mut whole = start.to_owned();
    whole.append(end.as_str());
    whole
}

/// The size and the format of the surface. Frames wait for the screen, one at a time.
#[derive(Clone, Copy, Debug, PartialEq, Eq, Structural)]
pub struct AndroidSurface {
    pub width: u32,
    pub height: u32,
    pub format: SurfaceFormat,
    pub frame_latency: u32,
}

/// A side of the window: at least one pixel.
pub open spec fn window_side(length: i32) -> u32 {
    if length < 1 { 1 } else { length as u32 }
}

fn side_of(length: i32) -> (side: u32)
    ensures
        side == window_side(length),
        side >= 1,
{
    if length < 1 { 1 } else { length as u32 }
}

/// The GPU, and the surface where there is one.
#[derive(Clone, Copy, Debug, PartialEq, Eq, Structural)]
pub struct AndroidGpu {
    pub format: SurfaceFormat,
    pub surface: Option<AndroidSurface>,
}

/// What is done with the texture that was asked for.
#[derive(Clone, Copy, Debug, PartialEq, Eq, Structural)]
pub enum AndroidAcquisition {
    Draw,
    /// The surface is made anew; nothing is drawn until then.
    Reattach,
    Skip,
}

impl AndroidGpu {
    /// A surface has the format that everything is set up for, and is not empty.
    pub open spec fn wf(self) -> bool {
        self.surface matches Some(surface) ==> surface.format == self.format && surface.width >= 1
            && surface.height >= 1 && surface.frame_latency == 1
    }

    pub open spec fn attached(self, width: i32, height: i32) -> Self {
        AndroidGpu {
            surface: Some(
                AndroidSurface {
                    width: window_side(width),
                    height: window_side(height),
                    format: self.format,
                    frame_latency: 1,
                },
            ),
            ..self
        }
    }

    /// Sets up for a window of a size, on a surface that can show `formats` and shows
    /// `default_format` if nothing else is said; it shows nothing where there is none.
    pub fn new(
        width: i32,
        height: i32,
        formats: &Vec<SurfaceFormat>,
        default_format: Option<SurfaceFormat>,
    ) -> (gpu: Result<Self, GpuError>)
        ensures
            match default_format {
                Some(default_format) => gpu matches Ok(gpu) && gpu.wf() && gpu == (AndroidGpu {
                    format: match surface::first_plain(formats@) {
                        Some(format) => format,
                        None => default_format,
                    },
                    surface: None,
                }).attached(width, height),
                None => gpu matches Err(GpuError::Incompatible),
            },
    {
        match default_format {
            Some(default_format) => {
                let format = match plain_format(formats) {
                    Some(format) => format,
                    None => default_format,
                };
                Ok(
                    AndroidGpu {
                        format,
                        surface: Some(
                            AndroidSurface {
                                width: side_of(width),
                                height: side_of(height),
                                format,
                                frame_latency: 1,
                            },
                        ),
                    },
                )
            },
            None => Err(GpuError::Incompatible),
        }
    }

    /// Goes on in a new window of a size, on a surface that can show `formats`, and some
    /// format by default or none at all.
    pub fn attach_window(
        &mut self,
        width: i32,
        height: i32,
        formats: &Vec<SurfaceFormat>,
        has_default: bool,
        format_name: String,
    ) -> (attached: Result<(), GpuError>)
        ensures
            if !formats@.contains(old(self).format) {
                &&& attached matches Err(GpuError::FormatGone(name)) && name == format_name
                &&& *final(self) == *old(self)
            } else if !has_default {
                attached matches Err(GpuError::RecreatedIncompatible) && *final(self) == *old(self)
            } else {
                attached is Ok && *final(self) == old(self).attached(width, height)
            },
            old(self).wf() ==> final(self).wf(),
    {
        let mut supported: bool = false;
        let mut i: usize = 0;
        while i < formats.len()
            invariant
                i <= formats.len(),
                supported == exists|k: int| 0 <= k < i && formats@[k] == self.format,
            decreases formats.len() - i,
        {
            if formats[i] == self.format {
                supported = true;
            }
            i += 1;
        }
        if !supported {
            return Err(GpuError::FormatGone(format_name));
        }
        if !has_default {
            return Err(GpuError::RecreatedIncompatible);
        }
        self.surface = Some(
            AndroidSurface {
                width: side_of(width),
                height: side_of(height),
                format: self.format,
                frame_latency: 1,
            },
        );
        Ok(())
    }

    pub fn detach_window(&mut self)
        ensures
            *final(self) == (AndroidGpu { surface: None, ..*old(self) }),
            final(self).wf(),
    {
        self.surface = None;
    }

    /// Takes over the size of the window, where there is a surface; whether there is.
    pub fn resize(&mut self, width: i32, height: i32) -> (resized: bool)
        ensures
            resized == old(self).surface is Some,
            *final(self) == (match old(self).surface {
                Some(surface) => AndroidGpu {
                    surface: Some(
                        AndroidSurface {
                            width: window_side(width),
                            height: window_side(height),
                            ..surface
                        },
                    ),
                    ..*old(self)
                },
                None => *old(self),
            }),
            old(self).wf() ==> final(self).wf(),
    {
        match self.surface {
            Some(surface) => {
                self.surface = Some(
                    AndroidSurface { width: side_of(width), height: side_of(height), ..surface },
                );
                true
            },
            None => false,
        }
    }

    pub fn dimensions(&self) -> (dimensions: Option<(u32, u32)>)
        ensures
            dimensions == (match self.surface {
                Some(surface) => Some((surface.width, surface.height)),
                None => None,
            }),
    {
        match self.surface {
            Some(surface) => Some((surface.width, surface.height)),
            None => None,
        }
    }

    /// What is done with the texture that was asked for: nothing can be drawn without a
    /// surface.
    pub fn acquire(&self, texture: SurfaceTexture) -> (acquired: Result<AndroidAcquisition, GpuError>)
        ensures
            match acquired {
                Ok(acquired) => acquired == (if self.surface is None {
                    AndroidAcquisition::Skip
                } else {
                    match texture {
                        SurfaceTexture::Success
                        | SurfaceTexture::Suboptimal => AndroidAcquisition::Draw,
                        SurfaceTexture::Outdated
                        | SurfaceTexture::Lost => AndroidAcquisition::Reattach,
                        _ => AndroidAcquisition::Skip,
                    }
                }) && (texture is Validation ==> self.surface is None),
                Err(error) => error is Validation && texture is Validation && self.surface is Some,
            },
    {
        if self.surface.is_none() {
            return Ok(AndroidAcquisition::Skip);
        }
        match texture {
            SurfaceTexture::Success | SurfaceTexture::Suboptimal => Ok(AndroidAcquisition::Draw),
            SurfaceTexture::Outdated | SurfaceTexture::Lost => Ok(AndroidAcquisition::Reattach),
            SurfaceTexture::Timeout | SurfaceTexture::Occluded => Ok(AndroidAcquisition::Skip),
            SurfaceTexture::Validation => Err(GpuError::Validation),
        }
    }
}

/// A surface keeps its format from one window to the next.
pub proof fn format_outlives_the_window(gpu: AndroidGpu, width: i32, height: i32)
    ensures
        gpu.attached(width, height).format == gpu.format,
        gpu.attached(width, height).wf(),
        gpu.attached(width, height).surface.unwrap().format == gpu.format,
{
}

/// A window that is attached is drawn on at its size, at least one in each direction, with one
/// frame at a time under way.
pub proof fn windows_are_drawn_at_their_size(gpu: AndroidGpu, width: i32, height: i32)
    ensures
        gpu.attached(width, height).surface matches Some(surface) && {
            &&& width >= 1 ==> surface.width == width
            &&& height >= 1 ==> surface.height == height
            &&& width < 1 ==> surface.width == 1
            &&& height < 1 ==> surface.height == 1
            &&& surface.frame_latency == 1
        },
{
}

} // verus!
