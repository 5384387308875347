use surface_registry::{model, SurfaceId, SurfaceRegistry};

const FORMAT: wgpu::TextureFormat = wgpu::TextureFormat::Rgba8Unorm;

fn noop_device() -> (wgpu::Device, wgpu::Queue) {
    wgpu::Device::noop(&wgpu::DeviceDescriptor::default())
}

/// A registry with one surface of the given size.
fn registry_with_surface(
    device: &wgpu::Device,
    width: u32,
    height: u32,
) -> (SurfaceRegistry, SurfaceId) {
    let mut registry = SurfaceRegistry::new();
    let id = registry.create(device, width, height, FORMAT);
    (registry, id)
}

/// Presents a frame and returns the view that it was drawn into.
fn present(registry: &mut SurfaceRegistry, id: SurfaceId) -> wgpu::TextureView {
    let drawn = registry.back_view(id).unwrap();
    registry.swap_rendering_ready_no_sync(id);
    drawn
}

#[test]
fn usage_bits_are_those_of_wgpu() {
    assert_eq!(model::COPY_SRC, wgpu::TextureUsages::COPY_SRC.bits());
    assert_eq!(model::TEXTURE_BINDING, wgpu::TextureUsages::TEXTURE_BINDING.bits());
    assert_eq!(model::RENDER_ATTACHMENT, wgpu::TextureUsages::RENDER_ATTACHMENT.bits());
}

#[test]
fn created_surface_has_its_size_and_format() {
    let (device, _queue) = noop_device();
    let (registry, id) = registry_with_surface(&device, 640, 480);
    assert_eq!(registry.size(id), Some((640, 480)));
    assert_eq!(registry.format(id), Some(FORMAT));
    assert_eq!(registry.frame_generation(id), Some(0));
    let front = registry.front_view(id).unwrap();
    let back = registry.back_view(id).unwrap();
    assert_ne!(front, back);
    for view in [front, back] {
        let texture = view.texture();
        assert_eq!((texture.width(), texture.height()), (640, 480));
        assert_eq!(texture.depth_or_array_layers(), 1);
        assert_eq!(texture.mip_level_count(), 1);
        assert_eq!(texture.sample_count(), 1);
        assert_eq!(texture.dimension(), wgpu::TextureDimension::D2);
        assert_eq!(texture.format(), FORMAT);
        assert_eq!(
            texture.usage(),
            wgpu::TextureUsages::RENDER_ATTACHMENT | wgpu::TextureUsages::TEXTURE_BINDING
        );
    }
}

#[test]
fn zero_lengths_count_as_one() {
    let (device, _queue) = noop_device();
    let (mut registry, id) = registry_with_surface(&device, 0, 7);
    assert_eq!(registry.size(id), Some((1, 7)));
    assert!(registry.resize(&device, id, 5, 0));
    assert_eq!(registry.size(id), Some((5, 1)));
    let (view, size) = registry.lock_and_get_back_with_size(id).unwrap();
    assert_eq!(size, (5, 1));
    assert_eq!((view.texture().width(), view.texture().height()), (5, 1));
}

#[test]
fn views_come_with_the_size_of_their_textures() {
    let (device, _queue) = noop_device();
    let (mut registry, id) = registry_with_surface(&device, 16, 9);
    registry.resize(&device, id, 32, 18);
    let (front, front_size) = registry.front_view_with_size(id).unwrap();
    let (back, back_size) = registry.lock_and_get_back_with_size(id).unwrap();
    assert_eq!(front, registry.front_view(id).unwrap());
    assert_eq!(back, registry.back_view(id).unwrap());
    assert_eq!(front_size, (16, 9));
    assert_eq!((front.texture().width(), front.texture().height()), front_size);
    assert_eq!(back_size, (32, 18));
    assert_eq!((back.texture().width(), back.texture().height()), back_size);
}

#[test]
fn ids_are_new_and_surfaces_independent() {
    let (device, _queue) = noop_device();
    let mut registry = SurfaceRegistry::new();
    let first = registry.create(&device, 1, 1, FORMAT);
    let second = registry.create(&device, 2, 2, FORMAT);
    assert_ne!(first, second);
    assert_eq!(registry.size(first), Some((1, 1)));
    assert_eq!(registry.size(second), Some((2, 2)));
    registry.swap_rendering_ready_no_sync(first);
    assert_eq!(registry.frame_generation(first), Some(1));
    assert_eq!(registry.frame_generation(second), Some(0));
    registry.remove(first);
    let third = registry.create(&device, 3, 3, FORMAT);
    assert_ne!(third, first);
    assert_ne!(third, second);
    assert_eq!(registry.size(first), None);
    assert_eq!(registry.size(second), Some((2, 2)));
}

#[test]
fn ids_do_not_come_back_after_removals() {
    let (device, _queue) = noop_device();
    let mut registry = SurfaceRegistry::new();
    let mut seen: Vec<SurfaceId> = Vec::new();
    for round in 0..20 {
        let id = registry.create(&device, 1, 1, FORMAT);
        assert!(!seen.contains(&id));
        seen.push(id);
        registry.swap_rendering_ready_no_sync(id);
        if round % 2 == 0 {
            registry.remove(id);
        }
    }
}

#[test]
fn surfaces_have_textures_of_their_own() {
    let (device, _queue) = noop_device();
    let mut registry = SurfaceRegistry::new();
    assert!(registry.textures().is_empty());
    let first = registry.create(&device, 4, 4, FORMAT);
    let second = registry.create(&device, 4, 4, FORMAT);
    registry.resize(&device, first, 5, 5);
    let textures = registry.textures();
    assert_eq!(textures.len(), 9);
    for i in 0..textures.len() {
        for j in 0..i {
            assert_ne!(textures[i], textures[j]);
        }
    }
    assert_ne!(registry.front_view(first), registry.front_view(second));
    assert_ne!(registry.back_view(first), registry.back_view(second));
    assert_ne!(registry.back_view(first), registry.front_view(second));
    assert!(textures.contains(registry.back_view(first).unwrap().texture()));
    registry.remove(second);
    assert_eq!(registry.textures().len(), 6);
}

#[test]
fn unregistered_surfaces_are_not_found() {
    let (device, queue) = noop_device();
    let (mut registry, id) = registry_with_surface(&device, 4, 4);
    registry.remove(id);
    registry.remove(id);
    assert!(registry.back_view(id).is_none());
    assert!(registry.front_view(id).is_none());
    assert!(registry.front_view_with_size(id).is_none());
    assert!(registry.lock_and_get_back_with_size(id).is_none());
    assert!(registry.front_texture_snapshot(id, |_| 4).is_none());
    assert_eq!(registry.size(id), None);
    assert_eq!(registry.format(id), None);
    assert_eq!(registry.frame_generation(id), None);
    assert!(!registry.resize(&device, id, 8, 8));
    assert!(!registry.swap_ready_display(&device, id));
    assert!(!registry.swap_ready_display_if_new(id));
    assert!(!registry.set_redraw_pending(id));
    assert!(!registry.set_redraw_pending(id));
    registry.clear_redraw_pending(id);
    registry.swap_rendering_ready_no_sync(id);
    registry.swap_rendering_ready(id, queue.submit(None::<wgpu::CommandBuffer>));
    assert_eq!(registry.size(id), None);
    assert!(registry.get_pending_surfaces().is_empty());
    assert_eq!(registry.memory_usage(|_| 1), 0);
}

#[test]
fn presented_frame_is_displayed_next() {
    let (device, queue) = noop_device();
    let (mut registry, id) = registry_with_surface(&device, 4, 4);
    let initial = registry.front_view(id).unwrap();
    let drawn = registry.back_view(id).unwrap();
    registry.swap_rendering_ready(id, queue.submit(None::<wgpu::CommandBuffer>));
    assert_eq!(registry.front_view(id), Some(initial));
    assert_ne!(registry.back_view(id), Some(drawn.clone()));
    assert_eq!(registry.frame_generation(id), Some(1));
    let back = registry.back_view(id);
    assert!(registry.swap_ready_display_if_new(id));
    assert_eq!(registry.front_view(id), Some(drawn));
    assert_eq!(registry.back_view(id), back);
    assert_eq!(registry.frame_generation(id), Some(1));
}

#[test]
fn paints_without_a_new_frame_hold_the_display() {
    let (device, _queue) = noop_device();
    let (mut registry, id) = registry_with_surface(&device, 4, 4);
    let initial = registry.front_view(id);
    assert!(!registry.swap_ready_display_if_new(id));
    assert_eq!(registry.front_view(id), initial);
    let drawn = present(&mut registry, id);
    assert!(registry.swap_ready_display_if_new(id));
    for _ in 0..5 {
        assert!(!registry.swap_ready_display_if_new(id));
        assert_eq!(registry.front_view(id), Some(drawn.clone()));
    }
}

#[test]
fn renderer_ahead_of_the_compositor_is_shown_at_its_latest_frame() {
    let (device, _queue) = noop_device();
    let (mut registry, id) = registry_with_surface(&device, 4, 4);
    present(&mut registry, id);
    present(&mut registry, id);
    let latest = present(&mut registry, id);
    assert!(registry.swap_ready_display_if_new(id));
    assert_eq!(registry.front_view(id), Some(latest));
    assert_eq!(registry.frame_generation(id), Some(3));
}

#[test]
fn second_ungated_swap_takes_the_frame_off_display() {
    let (device, _queue) = noop_device();
    let (mut registry, id) = registry_with_surface(&device, 4, 4);
    let initial = registry.front_view(id);
    let drawn = present(&mut registry, id);
    assert!(registry.swap_ready_display(&device, id));
    assert_eq!(registry.front_view(id), Some(drawn));
    assert!(registry.swap_ready_display(&device, id));
    assert_eq!(registry.front_view(id), initial);
}

#[test]
fn gated_paint_holds_what_an_ungated_swap_shows() {
    let (device, _queue) = noop_device();
    let (mut registry, id) = registry_with_surface(&device, 16, 16);
    let drawn = registry.back_view(id);
    registry.swap_rendering_ready_no_sync(id);
    assert!(registry.swap_ready_display(&device, id));
    assert_eq!(registry.front_view(id), drawn);
    assert!(!registry.swap_ready_display_if_new(id));
    assert_eq!(registry.front_view(id), drawn);
    // The next frame is new again.
    let next = present(&mut registry, id);
    assert!(registry.swap_ready_display_if_new(id));
    assert_eq!(registry.front_view(id), Some(next));
}

#[test]
fn gated_paint_holds_a_replacement_that_an_ungated_swap_shows() {
    let (device, _queue) = noop_device();
    let (mut registry, id) = registry_with_surface(&device, 4, 4);
    registry.resize(&device, id, 8, 6);
    let drawn = present(&mut registry, id);
    assert!(registry.swap_ready_display(&device, id));
    assert!(!registry.swap_ready_display_if_new(id));
    assert_eq!(registry.front_view_with_size(id), Some((drawn, (8, 6))));
}

#[test]
fn resize_back_draws_into_buffers_of_its_own() {
    let (device, _queue) = noop_device();
    let (mut registry, id) = registry_with_surface(&device, 4, 4);
    let mut displayed: Vec<wgpu::TextureView> = Vec::new();
    for _ in 0..3 {
        displayed.push(present(&mut registry, id));
        registry.swap_ready_display_if_new(id);
    }
    let front = registry.front_view_with_size(id);
    assert!(registry.resize(&device, id, 8, 6));
    let replaced = registry.back_view(id).unwrap();
    assert!(registry.resize(&device, id, 4, 4));
    assert_eq!(registry.size(id), Some((4, 4)));
    assert_eq!(registry.front_view_with_size(id), front);
    assert_eq!(registry.frame_generation(id), Some(0));
    let back = registry.back_view(id).unwrap();
    assert_ne!(back, replaced);
    for view in displayed {
        assert_ne!(back, view);
        assert_ne!(back.texture(), view.texture());
    }
}

#[test]
fn roles_are_those_of_the_buffers_drawn_into() {
    let (device, _queue) = noop_device();
    let (mut registry, id) = registry_with_surface(&device, 4, 4);
    assert_eq!(registry.roles(id), Some((0, 1, 2)));
    present(&mut registry, id);
    assert_eq!(registry.roles(id), Some((1, 0, 2)));
    registry.swap_ready_display_if_new(id);
    assert_eq!(registry.roles(id), Some((1, 2, 0)));
    registry.resize(&device, id, 8, 6);
    assert_eq!(registry.roles(id), Some((0, 1, 2)));
    registry.remove(id);
    assert_eq!(registry.roles(id), None);
}

#[test]
fn registered_sets_are_surfaces() {
    let (device, _queue) = noop_device();
    let mut registry = SurfaceRegistry::new();
    let set = SurfaceRegistry::create_triple_buffer(&device, 3, 0, FORMAT, false, Vec::new());
    let id = registry.register(set);
    assert_eq!(registry.size(id), Some((3, 1)));
    assert_ne!(registry.create(&device, 1, 1, FORMAT), id);
}

#[test]
fn roles_have_textures_of_their_own() {
    let (device, _queue) = noop_device();
    let (mut registry, id) = registry_with_surface(&device, 4, 4);
    for step in 0..12 {
        let front = registry.front_view(id).unwrap();
        let back = registry.back_view(id).unwrap();
        assert_ne!(front, back);
        assert_ne!(front.texture(), back.texture());
        present(&mut registry, id);
        if step % 3 != 0 {
            registry.swap_ready_display_if_new(id);
        }
    }
}

#[test]
fn resize_keeps_the_displayed_frame_until_the_next_one() {
    let (device, _queue) = noop_device();
    let (mut registry, id) = registry_with_surface(&device, 4, 4);
    let drawn = present(&mut registry, id);
    assert!(registry.swap_ready_display_if_new(id));
    assert!(registry.resize(&device, id, 8, 6));
    assert_eq!(registry.size(id), Some((8, 6)));
    assert_eq!(registry.format(id), Some(FORMAT));
    assert_eq!(registry.frame_generation(id), Some(0));
    assert!(!registry.swap_ready_display_if_new(id));
    assert_eq!(registry.front_view_with_size(id), Some((drawn, (4, 4))));

    let first = present(&mut registry, id);
    assert_eq!(registry.front_view_with_size(id).unwrap().1, (4, 4));
    assert!(registry.swap_ready_display_if_new(id));
    assert_eq!(registry.front_view_with_size(id), Some((first, (8, 6))));
    assert_eq!(registry.frame_generation(id), Some(1));
}

#[test]
fn ungated_swap_promotes_a_replacement_with_a_frame() {
    let (device, _queue) = noop_device();
    let (mut registry, id) = registry_with_surface(&device, 4, 4);
    registry.resize(&device, id, 8, 6);
    assert!(registry.swap_ready_display(&device, id));
    assert_eq!(registry.front_view_with_size(id).unwrap().1, (4, 4));
    let first = present(&mut registry, id);
    assert!(registry.swap_ready_display(&device, id));
    assert_eq!(registry.front_view_with_size(id), Some((first, (8, 6))));
}

#[test]
fn frame_presented_before_a_resize_is_still_shown() {
    let (device, _queue) = noop_device();
    let (mut registry, id) = registry_with_surface(&device, 4, 4);
    let drawn = present(&mut registry, id);
    registry.resize(&device, id, 8, 6);
    assert!(registry.swap_ready_display_if_new(id));
    assert_eq!(registry.front_view_with_size(id), Some((drawn, (4, 4))));
}

#[test]
fn another_resize_gives_up_the_replacement() {
    let (device, _queue) = noop_device();
    let (mut registry, id) = registry_with_surface(&device, 4, 4);
    let drawn = present(&mut registry, id);
    registry.resize(&device, id, 8, 6);
    present(&mut registry, id);
    registry.resize(&device, id, 4, 4);
    assert_eq!(registry.size(id), Some((4, 4)));
    assert_eq!(registry.frame_generation(id), Some(0));
    assert_ne!(registry.back_view(id), Some(drawn.clone()));
    assert!(registry.swap_ready_display_if_new(id));
    assert_eq!(registry.front_view(id), Some(drawn));
}

#[test]
fn resize_to_the_same_size_changes_nothing() {
    let (device, _queue) = noop_device();
    let (mut registry, id) = registry_with_surface(&device, 4, 4);
    present(&mut registry, id);
    let back = registry.back_view(id);
    assert!(registry.resize(&device, id, 4, 4));
    assert_eq!(registry.back_view(id), back);
    assert_eq!(registry.frame_generation(id), Some(1));
    registry.resize(&device, id, 8, 6);
    let back = registry.back_view(id);
    assert!(registry.resize(&device, id, 8, 6));
    assert_eq!(registry.back_view(id), back);
    // The size asked for is compared as it is, and a length of zero is no size that buffers have.
    assert!(registry.resize(&device, id, 0, 0));
    let back = registry.back_view(id);
    assert!(registry.resize(&device, id, 0, 0));
    assert_ne!(registry.back_view(id), back);
}

#[test]
fn redraw_requests_are_coalesced() {
    let (device, _queue) = noop_device();
    let (mut registry, id) = registry_with_surface(&device, 4, 4);
    assert!(!registry.set_redraw_pending(id));
    assert!(registry.set_redraw_pending(id));
    assert!(registry.set_redraw_pending(id));
    registry.clear_redraw_pending(id);
    assert!(!registry.set_redraw_pending(id));
}

#[test]
fn pending_surfaces_are_those_with_a_redraw_request() {
    let (device, _queue) = noop_device();
    let mut registry = SurfaceRegistry::new();
    let mut ids: Vec<SurfaceId> = Vec::new();
    for _ in 0..6 {
        ids.push(registry.create(&device, 2, 2, FORMAT));
    }
    assert!(registry.get_pending_surfaces().is_empty());
    registry.set_redraw_pending(ids[1]);
    registry.set_redraw_pending(ids[3]);
    registry.set_redraw_pending(ids[4]);
    registry.clear_redraw_pending(ids[3]);
    let pending = registry.get_pending_surfaces();
    assert_eq!(pending.len(), 2);
    assert!(pending.contains(&ids[1]));
    assert!(pending.contains(&ids[4]));
    // A replacement set starts without a request.
    registry.resize(&device, ids[1], 3, 3);
    assert_eq!(registry.get_pending_surfaces(), vec![ids[4]]);
}

#[test]
fn memory_usage_counts_every_texture() {
    let (device, _queue) = noop_device();
    let bytes = |texture: &wgpu::Texture| texture.width() as u64 * texture.height() as u64 * 4;
    let mut registry = SurfaceRegistry::new();
    assert_eq!(registry.memory_usage(bytes), 0);
    let first = registry.create(&device, 10, 10, FORMAT);
    assert_eq!(registry.memory_usage(bytes), 3 * 400);
    registry.create(&device, 5, 2, FORMAT);
    assert_eq!(registry.memory_usage(bytes), 3 * 400 + 3 * 40);
    registry.resize(&device, first, 1, 1);
    assert_eq!(registry.memory_usage(bytes), 3 * 400 + 3 * 40 + 3 * 4);
    registry.remove(first);
    assert_eq!(registry.memory_usage(bytes), 3 * 40);
    assert_eq!(registry.memory_usage(|_| u64::MAX), u64::MAX - 2);
}

#[test]
fn snapshot_shows_the_displayed_texture() {
    let (device, _queue) = noop_device();
    let (mut registry, id) = registry_with_surface(&device, 16, 9);
    let drawn = present(&mut registry, id);
    registry.swap_ready_display_if_new(id);
    registry.resize(&device, id, 32, 18);
    let snapshot = registry
        .front_texture_snapshot(id, |format| {
            assert_eq!(format, FORMAT);
            (1u64 << 32) + 4
        })
        .unwrap();
    assert_eq!(&snapshot.texture, drawn.texture());
    assert_eq!((snapshot.width, snapshot.height), (16, 9));
    assert_eq!(snapshot.bytes_per_pixel, 4);
}

/// Copies the displayed texture of a 16 by 16 surface into a buffer and returns what `wgpu` says.
fn copy_displayed_texture(mut registry: SurfaceRegistry) -> Option<wgpu::Error> {
    let (device, queue) = noop_device();
    let width = 16u32;
    let height = 16u32;
    let surface_id = registry.create(&device, width, height, FORMAT);

    let snapshot = registry
        .front_texture_snapshot(surface_id, |format| {
            format.block_copy_size(None).unwrap_or(0) as u64
        })
        .expect("a surface just created should have a snapshot-able front texture");
    assert_eq!(snapshot.width, width);
    assert_eq!(snapshot.height, height);
    assert_eq!(snapshot.bytes_per_pixel, 4);

    let error_scope = device.push_error_scope(wgpu::ErrorFilter::Validation);

    let bytes_per_pixel = snapshot.bytes_per_pixel;
    let align = wgpu::COPY_BYTES_PER_ROW_ALIGNMENT;
    let unpadded_bytes_per_row = width * bytes_per_pixel;
    let padded_bytes_per_row = unpadded_bytes_per_row.div_ceil(align) * align;
    let staging_buffer = device.create_buffer(&wgpu::BufferDescriptor {
        label: Some("regression_test_staging_buffer"),
        size: (padded_bytes_per_row as u64) * (height as u64),
        usage: wgpu::BufferUsages::MAP_READ | wgpu::BufferUsages::COPY_DST,
        mapped_at_creation: false,
    });

    let mut encoder =
        device.create_command_encoder(&wgpu::CommandEncoderDescriptor { label: None });
    encoder.copy_texture_to_buffer(
        wgpu::TexelCopyTextureInfo {
            texture: &snapshot.texture,
            mip_level: 0,
            origin: wgpu::Origin3d::ZERO,
            aspect: wgpu::TextureAspect::All,
        },
        wgpu::TexelCopyBufferInfo {
            buffer: &staging_buffer,
            layout: wgpu::TexelCopyBufferLayout {
                offset: 0,
                bytes_per_row: Some(padded_bytes_per_row),
                rows_per_image: Some(height),
            },
        },
        wgpu::Extent3d { width, height, depth_or_array_layers: 1 },
    );
    queue.submit(Some(encoder.finish()));

    pollster::block_on(error_scope.pop())
}

#[test]
fn surface_textures_created_with_flamegraph_feature_support_copy_texture_to_buffer_readback() {
    let error = copy_displayed_texture(SurfaceRegistry::with_deep_capture());
    assert!(
        error.is_none(),
        "surface front texture should accept a copy_texture_to_buffer read (COPY_SRC), got: {error:?}"
    );
}

#[test]
fn surface_textures_cannot_be_copied_from_without_deep_capture() {
    assert!(copy_displayed_texture(SurfaceRegistry::new()).is_some());
}
