//! The GPU textures of a surface, and the calls into `wgpu` that make and copy them.
//!
//! What `wgpu` hands out (textures, views, submission indices) is carried through as it is. What
//! the library states of a texture, it states of the plain values that the texture was made with.

use vstd::prelude::*;

verus! {

/// `wgpu::Device`, carried through.
#[verifier::external_type_specification]
#[verifier::external_body]
pub struct ExDevice(wgpu::Device);

/// `wgpu::Texture`, carried through.
#[verifier::external_type_specification]
#[verifier::external_body]
pub struct ExTexture(wgpu::Texture);

/// `wgpu::TextureView`, carried through.
#[verifier::external_type_specification]
#[verifier::external_body]
pub struct ExTextureView(wgpu::TextureView);

/// `wgpu::TextureFormat`, carried through.
#[verifier::external_type_specification]
#[verifier::external_body]
pub struct ExTextureFormat(wgpu::TextureFormat);

/// `wgpu::SubmissionIndex`, carried through.
#[verifier::external_type_specification]
#[verifier::external_body]
pub struct ExSubmissionIndex(wgpu::SubmissionIndex);

/// `Clone` of `wgpu::Texture`, a reference-counted handle with the descriptor of its texture: the
/// clone is a handle to the same texture, with the same descriptor.
pub assume_specification[ <wgpu::Texture as Clone>::clone ](texture: &wgpu::Texture) -> (copy:
    wgpu::Texture)
    ensures
        copy == *texture,
;

/// `Clone` of `wgpu::TextureView`, a reference-counted handle with one to the texture that it
/// views: the clone is a handle to the same view.
pub assume_specification[ <wgpu::TextureView as Clone>::clone ](view: &wgpu::TextureView) -> (copy:
    wgpu::TextureView)
    ensures
        copy == *view,
;

/// How a two-dimensional texture is made: the fields of `wgpu::TextureDescriptor`.
#[derive(Clone, Copy)]
pub struct TextureInfo {
    pub label: &'static str,
    pub width: u32,
    pub height: u32,
    pub depth_or_array_layers: u32,
    pub mip_level_count: u32,
    pub sample_count: u32,
    pub format: wgpu::TextureFormat,
    /// The bits of `wgpu::TextureUsages`.
    pub usage: u32,
}

/// A texture with the view of it that is drawn into and read from.
pub struct SurfaceBuffer {
    pub texture: wgpu::Texture,
    pub view: wgpu::TextureView,
}

/// How large a device's two-dimensional textures can be.
#[derive(Clone, Copy)]
pub struct TextureLimits {
    /// The largest width and height.
    pub max_side: u32,
    /// The largest number of array layers.
    pub max_layers: u32,
}

/// The kind of driver under a device: the variants of `wgpu::Backend`.
#[derive(Clone, Copy, PartialEq, Eq, Structural)]
pub enum Backend {
    Noop,
    Vulkan,
    Metal,
    Dx12,
    Gl,
    BrowserWebGpu,
}

/// The device that made a texture, and what it was asked for.
pub uninterp spec fn made_with(texture: wgpu::Texture) -> (wgpu::Device, TextureInfo);

/// The texture that a view refers to: what `wgpu::TextureView::texture` returns.
pub uninterp spec fn viewed(view: wgpu::TextureView) -> wgpu::Texture;

/// The texture limits of a device, out of what `wgpu::Device::limits` returns.
pub uninterp spec fn limits_of(device: wgpu::Device) -> TextureLimits;

/// The backend of a device, out of what `wgpu::Device::adapter_info` returns.
pub uninterp spec fn backend_of(device: wgpu::Device) -> Backend;

/// The device has the feature `TEXTURE_ADAPTER_SPECIFIC_FORMAT_FEATURES`.
pub uninterp spec fn adapter_formats_of(device: wgpu::Device) -> bool;

/// The device has the features that `wgpu::TextureFormat::required_features` names.
pub uninterp spec fn enabled_on(device: wgpu::Device, format: wgpu::TextureFormat) -> bool;

/// The device takes textures of this format for these usages, with their default views, at every
/// size within its limits: a request for one raises no validation error.
pub uninterp spec fn allows(
    device: wgpu::Device,
    format: wgpu::TextureFormat,
    usage: u32,
) -> bool;

/// A texture of this size with one layer is within the limits.
pub open spec fn within_limits(limits: TextureLimits, width: u32, height: u32) -> bool {
    &&& width <= limits.max_side
    &&& height <= limits.max_side
    &&& 1 <= limits.max_layers
}

/// The device's adapter may differ from what WebGPU guarantees of texture formats: it was asked to,
/// or its backend does not always come up to the guarantees.
pub open spec fn adapter_decides(device: wgpu::Device) -> bool {
    ||| adapter_formats_of(device)
    ||| !(backend_of(device) is Noop || backend_of(device) is Metal || backend_of(device) is Dx12)
}

/// `usage` is made of WebGPU's own usages, and is one of a render target.
pub open spec fn renders(usage: u32) -> bool {
    &&& usage < 32
    &&& usage & 16 != 0
}

/// `wgpu::Device::limits`: the limits on width and height and on layers, which are fixed when the
/// device is made.
#[verifier::external_body]
pub(crate) fn texture_limits(device: &wgpu::Device) -> (limits: TextureLimits)
    ensures
        limits == limits_of(*device),
{
    let limits = device.limits();
    TextureLimits {
        max_side: limits.max_texture_dimension_2d,
        max_layers: limits.max_texture_array_layers,
    }
}

/// `wgpu::Device::adapter_info`: the backend, which is fixed when the device is made.
#[verifier::external_body]
pub(crate) fn device_backend(device: &wgpu::Device) -> (backend: Backend)
    ensures
        backend == backend_of(*device),
{
    match device.adapter_info().backend {
        wgpu::Backend::Noop => Backend::Noop,
        wgpu::Backend::Vulkan => Backend::Vulkan,
        wgpu::Backend::Metal => Backend::Metal,
        wgpu::Backend::Dx12 => Backend::Dx12,
        wgpu::Backend::Gl => Backend::Gl,
        wgpu::Backend::BrowserWebGpu => Backend::BrowserWebGpu,
    }
}

/// `wgpu::Device::features`: whether the device has the feature with which its adapter, and not
/// WebGPU's guarantees, says what a format can be used for. Features are fixed when the device is
/// made.
#[verifier::external_body]
pub(crate) fn uses_adapter_formats(device: &wgpu::Device) -> (adapter_formats: bool)
    ensures
        adapter_formats == adapter_formats_of(*device),
{
    device.features().contains(wgpu::Features::TEXTURE_ADAPTER_SPECIFIC_FORMAT_FEATURES)
}

/// `wgpu::TextureFormat::required_features`: whether the device has all of them. Without them it
/// takes no texture of the format.
#[verifier::external_body]
pub(crate) fn format_enabled(device: &wgpu::Device, format: wgpu::TextureFormat) -> (enabled: bool)
    ensures
        enabled == enabled_on(*device, format),
        !enabled ==> forall|usage: u32| !allows(*device, format, usage),
{
    device.features().contains(format.required_features())
}

/// `wgpu::TextureFormat::guaranteed_format_features`: whether all the usages are allowed by it.
///
/// Where the adapter does not decide and the format's features are there, this is what the device
/// goes by. A format that may be rendered into is neither compressed nor of several planes, so
/// every size will do.
#[verifier::external_body]
pub(crate) fn usage_guaranteed(device: &wgpu::Device, format: wgpu::TextureFormat, usage: u32) -> (
guaranteed: bool)
    requires
        renders(usage),
        enabled_on(*device, format),
        !adapter_decides(*device),
    ensures
        guaranteed == allows(*device, format, usage),
{
    let features = format.guaranteed_format_features(device.features());
    features.allowed_usages.contains(wgpu::TextureUsages::from_bits_retain(usage))
}

/// `wgpu::Device::create_texture` and `wgpu::Texture::create_view`, tried out on a texture of one
/// texel between `wgpu::Device::push_error_scope` and `wgpu::ErrorScopeGuard::pop`: whether no
/// validation error came up.
///
/// The checks that a device makes do not depend on the size within the limits, but for formats
/// whose sides have to be multiples of two or more, and of these one texel is no texture. So what
/// is taken once is taken at every size. A device that was lost raises no validation errors any
/// more, whatever it is asked for, and all trials are then taken.
///
/// Left unsaid is what follows from a texture that is not taken: in a browser the answer is not
/// there at once, and counts as none. A device that runs out of memory on the trial tells its error
/// handler or panics.
#[verifier::external_body]
pub(crate) fn trial_taken(device: &wgpu::Device, info: TextureInfo) -> (taken: bool)
    requires
        info.width == 1,
        info.height == 1,
        within_limits(limits_of(*device), info.width, info.height),
        info.depth_or_array_layers == 1,
        info.mip_level_count == 1,
        info.sample_count == 1,
        renders(info.usage),
        enabled_on(*device, info.format),
        adapter_decides(*device),
    ensures
        taken ==> allows(*device, info.format, info.usage),
{
    let scope = device.push_error_scope(wgpu::ErrorFilter::Validation);
    let TextureInfo { width, height, depth_or_array_layers, mip_level_count, sample_count, format, .. } = info;
    let texture = device.create_texture(&wgpu::TextureDescriptor {
        label: Some(info.label),
        size: wgpu::Extent3d { width, height, depth_or_array_layers },
        mip_level_count, sample_count, format,
        dimension: wgpu::TextureDimension::D2,
        usage: wgpu::TextureUsages::from_bits_retain(info.usage),
        view_formats: &[],
    });
    let _view = texture.create_view(&wgpu::TextureViewDescriptor::default());
    let mut context = std::task::Context::from_waker(std::task::Waker::noop());
    let answer = std::future::Future::poll(Box::pin(scope.pop()).as_mut(), &mut context);
    matches!(answer, std::task::Poll::Ready(None))
}

/// `wgpu::Device::create_texture`, for a plain two-dimensional texture without further view
/// formats, and at once `wgpu::Texture::create_view` of it with the default descriptor, which views
/// the whole texture in its own format.
///
/// The new texture is one made by this device with this description: `wgpu::Texture` keeps the
/// descriptor that it was created with, but for the label and the view formats, and its getters
/// give the size, level and sample counts, format and usage back. The label goes on to the device
/// and has no getter. The texture is none of the `_others`: `wgpu` identifies every texture that is held by a
/// number of its own. The view refers to the texture.
///
/// A request that the device does not take is a validation error, on which a device without an
/// error handler of its own panics: such requests are left out. Left unsaid is what comes of a
/// device that is lost, which makes textures that are invalid, and of one that runs out of memory,
/// which tells its error handler or panics.
#[verifier::external_body]
pub(crate) fn create_surface_buffer(
    device: &wgpu::Device,
    info: TextureInfo,
    _others: &Vec<wgpu::Texture>,
) -> (buffer: SurfaceBuffer)
    requires
        info.width > 0,
        info.height > 0,
        within_limits(limits_of(*device), info.width, info.height),
        info.depth_or_array_layers == 1,
        info.mip_level_count == 1,
        info.sample_count == 1,
        renders(info.usage),
        allows(*device, info.format, info.usage),
    ensures
        made_with(buffer.texture) == (*device, info),
        viewed(buffer.view) == buffer.texture,
        !_others@.contains(buffer.texture),
{
    let TextureInfo { width, height, depth_or_array_layers, .. } = info;
    let texture = device.create_texture(&wgpu::TextureDescriptor {
        label: Some(info.label),
        size: wgpu::Extent3d { width, height, depth_or_array_layers },
        mip_level_count: info.mip_level_count,
        sample_count: info.sample_count,
        dimension: wgpu::TextureDimension::D2,
        format: info.format,
        usage: wgpu::TextureUsages::from_bits_retain(info.usage),
        view_formats: &[],
    });
    let view = texture.create_view(&wgpu::TextureViewDescriptor::default());
    SurfaceBuffer { texture, view }
}

} // verus!
