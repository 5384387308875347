use surface_registry::{support, Support, SurfaceRegistry};

const FORMAT: wgpu::TextureFormat = wgpu::TextureFormat::Rgba8Unorm;

fn device_with(features: wgpu::Features, limits: wgpu::Limits) -> wgpu::Device {
    let (device, _queue) = wgpu::Device::noop(&wgpu::DeviceDescriptor {
        required_features: features,
        required_limits: limits,
        ..Default::default()
    });
    device
}

fn plain_device() -> wgpu::Device {
    device_with(wgpu::Features::empty(), wgpu::Limits::default())
}

/// Whether `wgpu` itself takes a texture of this kind and its default view.
fn is_taken(
    device: &wgpu::Device,
    width: u32,
    height: u32,
    format: wgpu::TextureFormat,
    deep_capture: bool,
) -> bool {
    let readback = if deep_capture {
        wgpu::TextureUsages::COPY_SRC
    } else {
        wgpu::TextureUsages::empty()
    };
    let scope = device.push_error_scope(wgpu::ErrorFilter::Validation);
    let texture = device.create_texture(&wgpu::TextureDescriptor {
        label: None,
        size: wgpu::Extent3d { width, height, depth_or_array_layers: 1 },
        mip_level_count: 1,
        sample_count: 1,
        dimension: wgpu::TextureDimension::D2,
        format,
        usage: wgpu::TextureUsages::RENDER_ATTACHMENT
            | wgpu::TextureUsages::TEXTURE_BINDING
            | readback,
        view_formats: &[],
    });
    let _view = texture.create_view(&wgpu::TextureViewDescriptor::default());
    pollster::block_on(scope.pop()).is_none()
}

fn formats() -> Vec<wgpu::TextureFormat> {
    vec![
        wgpu::TextureFormat::R8Unorm,
        wgpu::TextureFormat::R8Snorm,
        wgpu::TextureFormat::Rgba8Unorm,
        wgpu::TextureFormat::Rgba8UnormSrgb,
        wgpu::TextureFormat::Rgba8Snorm,
        wgpu::TextureFormat::Bgra8Unorm,
        wgpu::TextureFormat::Rgba16Float,
        wgpu::TextureFormat::Rg11b10Ufloat,
        wgpu::TextureFormat::Rgb9e5Ufloat,
        wgpu::TextureFormat::R64Uint,
        wgpu::TextureFormat::R16Unorm,
        wgpu::TextureFormat::Depth32Float,
        wgpu::TextureFormat::Depth24PlusStencil8,
        wgpu::TextureFormat::Depth32FloatStencil8,
        wgpu::TextureFormat::Stencil8,
        wgpu::TextureFormat::NV12,
        wgpu::TextureFormat::P010,
        wgpu::TextureFormat::Bc1RgbaUnorm,
        wgpu::TextureFormat::Etc2Rgb8Unorm,
    ]
}

#[test]
fn support_says_what_the_device_does() {
    let renderable = wgpu::Features::RG11B10UFLOAT_RENDERABLE
        | wgpu::Features::TEXTURE_COMPRESSION_BC
        | wgpu::Features::TEXTURE_FORMAT_NV12
        | wgpu::Features::TEXTURE_FORMAT_16BIT_NORM
        | wgpu::Features::DEPTH32FLOAT_STENCIL8;
    for features in [wgpu::Features::empty(), renderable] {
        let device = device_with(features, wgpu::Limits::default());
        for format in formats() {
            for (width, height) in [(4, 4), (3, 5), (8192, 1), (1, 8193)] {
                for deep_capture in [false, true] {
                    let expected = if is_taken(&device, width, height, format, deep_capture) {
                        Support::Supported
                    } else {
                        Support::Unsupported
                    };
                    assert_eq!(
                        support(&device, width, height, format, deep_capture),
                        expected,
                        "{format:?} at {width} by {height}"
                    );
                }
            }
        }
    }
}

#[test]
fn limits_are_those_of_the_device() {
    let device = device_with(
        wgpu::Features::empty(),
        wgpu::Limits { max_texture_dimension_2d: 64, ..wgpu::Limits::default() },
    );
    assert_eq!(support(&device, 64, 64, FORMAT, false), Support::Supported);
    assert_eq!(support(&device, 65, 1, FORMAT, false), Support::Unsupported);
    assert_eq!(support(&device, 1, 65, FORMAT, false), Support::Unsupported);
    assert_eq!(support(&device, 0, 0, FORMAT, false), Support::Supported);
}

#[test]
fn formats_need_their_features() {
    let stencil = wgpu::TextureFormat::Depth32FloatStencil8;
    assert_eq!(support(&plain_device(), 4, 4, stencil, false), Support::Unsupported);
    let device =
        device_with(wgpu::Features::DEPTH32FLOAT_STENCIL8, wgpu::Limits::default());
    assert_eq!(support(&device, 4, 4, stencil, false), Support::Supported);
}

fn adapter_formats_device() -> wgpu::Device {
    device_with(
        wgpu::Features::TEXTURE_ADAPTER_SPECIFIC_FORMAT_FEATURES,
        wgpu::Limits::default(),
    )
}

#[test]
fn adapters_that_decide_are_tried_out() {
    // The noop adapter allows no usage of any format.
    let device = adapter_formats_device();
    assert!(!is_taken(&device, 4, 4, FORMAT, false));
    assert_eq!(support(&device, 4, 4, FORMAT, false), Support::Untaken);
    // The limits and the format's features are the device's own.
    assert_eq!(support(&device, 4, 8193, FORMAT, false), Support::Unsupported);
    let bc = wgpu::TextureFormat::Bc1RgbaUnorm;
    assert_eq!(support(&device, 4, 4, bc, false), Support::Unsupported);
    let mut registry = SurfaceRegistry::new();
    assert_eq!(registry.try_create(&device, 4, 4, FORMAT), None);
    assert!(registry.textures().is_empty());
}

#[test]
fn trials_do_not_disturb_an_open_error_scope() {
    let device = adapter_formats_device();
    let scope = device.push_error_scope(wgpu::ErrorFilter::Validation);
    assert_eq!(support(&device, 4, 4, FORMAT, false), Support::Untaken);
    assert!(pollster::block_on(scope.pop()).is_none());
}

#[test]
fn lost_devices_take_what_they_are_asked_for() {
    let device = adapter_formats_device();
    device.destroy();
    assert_eq!(support(&device, 4, 4, FORMAT, false), Support::Supported);
    let mut registry = SurfaceRegistry::new();
    let id = registry.try_create(&device, 4, 4, FORMAT).unwrap();
    assert_eq!(registry.size(id), Some((4, 4)));
}

#[test]
fn answers_add_up() {
    for adapter_decides in [false, true] {
        assert_eq!(Support::from_answers(true, adapter_decides, true), Support::Supported);
        for accepted in [false, true] {
            assert_eq!(
                Support::from_answers(false, adapter_decides, accepted),
                Support::Unsupported
            );
        }
    }
    assert_eq!(Support::from_answers(true, false, false), Support::Unsupported);
    assert_eq!(Support::from_answers(true, true, false), Support::Untaken);
}

#[test]
fn unsupported_surfaces_are_not_created() {
    let device = plain_device();
    let mut registry = SurfaceRegistry::new();
    let first = registry.try_create(&device, 4, 4, FORMAT).unwrap();
    assert_eq!(registry.size(first), Some((4, 4)));
    assert_eq!(registry.try_create(&device, 8193, 4, FORMAT), None);
    assert_eq!(registry.try_create(&device, 4, 4, wgpu::TextureFormat::Rgb9e5Ufloat), None);
    assert_eq!(registry.memory_usage(|_| 1), 3);
    let second = registry.try_create(&device, 0, 8192, FORMAT).unwrap();
    assert_ne!(first, second);
    assert_eq!(registry.size(second), Some((1, 8192)));
}

#[test]
fn unsupported_sizes_are_not_taken() {
    let device = plain_device();
    let mut registry = SurfaceRegistry::new();
    let id = registry.create(&device, 4, 4, FORMAT);
    let back = registry.back_view(id);
    assert_eq!(registry.try_resize(&device, id, 4, 8193), None);
    assert_eq!(registry.back_view(id), back);
    assert_eq!(registry.size(id), Some((4, 4)));
    assert_eq!(registry.try_resize(&device, id, 4, 8192), Some(true));
    assert_eq!(registry.size(id), Some((4, 8192)));
    registry.remove(id);
    assert_eq!(registry.try_resize(&device, id, 4, 8193), Some(false));
}

#[test]
fn sizes_that_are_there_are_taken_on_every_device() {
    let mut registry = SurfaceRegistry::new();
    let id = registry.create(&plain_device(), 128, 128, FORMAT);
    let small = device_with(
        wgpu::Features::empty(),
        wgpu::Limits { max_texture_dimension_2d: 64, ..wgpu::Limits::default() },
    );
    assert_eq!(registry.try_resize(&small, id, 128, 128), Some(true));
    assert_eq!(registry.try_resize(&small, id, 128, 127), None);
}
