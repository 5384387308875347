//! Whether a device takes the textures of a surface.

use crate::model;
use crate::model::{COPY_SRC, RENDER_ATTACHMENT, TEXTURE_BINDING};
use crate::texture::{
    adapter_decides, device_backend, enabled_on, format_enabled, limits_of, renders,
    texture_limits, trial_taken, usage_guaranteed, uses_adapter_formats, within_limits, Backend,
    TextureInfo,
};
use vstd::prelude::*;

verus! {

/// What a device says of a surface's textures before they are made.
#[derive(Clone, Copy, Debug, PartialEq, Eq, Structural)]
pub enum Support {
    /// It takes them.
    Supported,
    /// It rejects them.
    Unsupported,
    /// Its adapter decides, and a texture that was tried out was not seen to be taken.
    Untaken,
}

/// The side lengths are within the device's limits and the device has the format's features: what
/// can be asked about before any texture is made.
pub open spec fn admits(
    device: wgpu::Device,
    width: u32,
    height: u32,
    format: wgpu::TextureFormat,
) -> bool {
    &&& within_limits(limits_of(device), model::clamped(width), model::clamped(height))
    &&& enabled_on(device, format)
}

impl Support {
    /// What follows from the device's answers: whether it admits the size and the format, whether
    /// its adapter decides, and whether the textures are accepted, by the guarantees or in a trial
    /// on the adapter.
    pub fn from_answers(admitted: bool, adapter_decides: bool, accepted: bool) -> (support: Support)
        ensures
            support is Supported <==> admitted && accepted,
            support is Untaken <==> admitted && adapter_decides && !accepted,
    {
        if !admitted {
            Support::Unsupported
        } else if accepted {
            Support::Supported
        } else if adapter_decides {
            Support::Untaken
        } else {
            Support::Unsupported
        }
    }
}

/// Asks a device whether it takes the textures of a surface of this size and format.
///
/// Where the device's adapter decides, a small texture is tried out.
pub fn support(
    device: &wgpu::Device,
    width: u32,
    height: u32,
    format: wgpu::TextureFormat,
    deep_capture: bool,
) -> (support: Support)
    ensures
        match support {
            Support::Supported => model::can_make(*device, width, height, format, deep_capture),
            Support::Unsupported => !model::can_make(*device, width, height, format, deep_capture),
            Support::Untaken => {
                &&& admits(*device, width, height, format)
                &&& adapter_decides(*device)
            },
        },
        support is Unsupported && adapter_decides(*device) ==> !admits(
            *device,
            width,
            height,
            format,
        ),
{
    let limits = texture_limits(device);
    let w = texture_side(width);
    let h = texture_side(height);
    let fits = w <= limits.max_side && h <= limits.max_side && 1 <= limits.max_layers;
    let admitted = format_enabled(device, format) && fits;
    let backend = device_backend(device);
    let guaranteed_backend = backend == Backend::Noop || backend == Backend::Metal || backend
        == Backend::Dx12;
    let adapter = uses_adapter_formats(device) || !guaranteed_backend;
    let usage = texture_usage(deep_capture);
    let accepted = if !admitted {
        false
    } else if adapter {
        trial_taken(
            device,
            TextureInfo {
                label: "surface_trial",
                width: 1,
                height: 1,
                depth_or_array_layers: 1,
                mip_level_count: 1,
                sample_count: 1,
                format,
                usage,
            },
        )
    } else {
        usage_guaranteed(device, format, usage)
    };
    Support::from_answers(admitted, adapter, accepted)
}

/// A side length as the GPU takes it.
pub(crate) fn texture_side(length: u32) -> (side: u32)
    ensures
        side == model::clamped(length),
{
    if length == 0 {
        1
    } else {
        length
    }
}

/// The usage bits of a surface texture.
pub(crate) fn texture_usage(deep_capture: bool) -> (usage: u32)
    ensures
        usage == model::surface_usage(deep_capture),
        renders(usage),
{
    let deep_capture_readback: u32 = if deep_capture {
        COPY_SRC
    } else {
        0
    };
    assert(16u32 | 4u32 | 0u32 == 20u32 && 20u32 & 16u32 != 0) by (bit_vector);
    assert(16u32 | 4u32 | 1u32 == 21u32 && 21u32 & 16u32 != 0) by (bit_vector);
    RENDER_ATTACHMENT | TEXTURE_BINDING | deep_capture_readback
}

} // verus!
