//! What each operation does, stated by the parts of a value before and after it.
//!
//! These laws hold each definition that a contract speaks of to what a caller can see of it: which
//! buffer plays which role, which size and generation a set has, which surface an id leads to.

use crate::laws;
use crate::model;
use crate::model::{BufferSet, Registry, Surface};
use crate::registry;
use crate::registry::SurfaceRegistry;
use crate::support;
use crate::texture::{
    adapter_decides, adapter_formats_of, allows, backend_of, enabled_on, limits_of, made_with,
    renders, viewed, within_limits, Backend, TextureInfo, TextureLimits,
};
use vstd::prelude::*;

verus! {

// Numbers, sizes and devices.

/// Three roles can be packed exactly if they are the three numbers below three, in some order.
pub proof fn roles_are_permutations(rendering: int, ready: int, display: int)
    ensures
        model::distinct_roles(rendering, ready, display) <==> ({
            ||| (rendering, ready, display) == (0int, 1int, 2int)
            ||| (rendering, ready, display) == (0int, 2int, 1int)
            ||| (rendering, ready, display) == (1int, 0int, 2int)
            ||| (rendering, ready, display) == (1int, 2int, 0int)
            ||| (rendering, ready, display) == (2int, 0int, 1int)
            ||| (rendering, ready, display) == (2int, 1int, 0int)
        }),
{
}

/// The lower six bits of a state are made of its three roles, two bits each from the lowest.
pub proof fn states_are_made_of_roles(state: int)
    requires
        0 <= state < 256,
    ensures
        ({
            let (rendering, ready, display) = model::unpacked(state);
            &&& 0 <= rendering < 4
            &&& 0 <= ready < 4
            &&& 0 <= display < 4
            &&& state % 64 == rendering + 4 * ready + 16 * display
        }),
{
    let fourth = state / 64;
    assert(state == state % 4 + 4 * (state / 4 % 4) + 16 * (state / 16 % 4) + 64 * fourth);
}

/// Packing gives each role its two bits.
pub proof fn packing_places_roles(rendering: int, ready: int, display: int)
    ensures
        model::packed(rendering, ready, display) == rendering + 4 * ready + 16 * display,
{
}

/// Counting goes up by one, around the bound of `u64`.
pub proof fn counting_adds_one(count: u64)
    ensures
        count < u64::MAX ==> model::next_count(count) as int == count as int + 1,
        count == u64::MAX ==> model::next_count(count) == 0,
{
}

/// A side length is what was asked for, and at least one.
pub proof fn sides_are_what_was_asked_for(length: u32)
    ensures
        length > 0 ==> model::clamped(length) == length,
        length == 0 ==> model::clamped(length) == 1,
{
}

/// The usages of a surface texture: rendered into, sampled, and copied from for deep captures.
pub proof fn usages_are_known(usage: u32, deep_capture: bool)
    ensures
        model::surface_usage(false) == 16 + 4,
        model::surface_usage(true) == 16 + 4 + 1,
        model::RENDER_ATTACHMENT == 16,
        model::TEXTURE_BINDING == 4,
        model::COPY_SRC == 1,
        renders(usage) <==> usage < 32 && usage & 16 != 0,
{
}

/// A device makes a surface's textures exactly if both sides and one layer are within its limits
/// and it takes the format for a surface's usages.
pub proof fn devices_make_what_they_take(
    device: wgpu::Device,
    width: u32,
    height: u32,
    format: wgpu::TextureFormat,
    deep_capture: bool,
)
    ensures
        model::can_make(device, width, height, format, deep_capture) <==> ({
            &&& width <= limits_of(device).max_side
            &&& height <= limits_of(device).max_side
            &&& 1 <= limits_of(device).max_side
            &&& 1 <= limits_of(device).max_layers
            &&& allows(device, format, if deep_capture { 21u32 } else { 20u32 })
        }),
        support::admits(device, width, height, format) <==> ({
            &&& width <= limits_of(device).max_side
            &&& height <= limits_of(device).max_side
            &&& 1 <= limits_of(device).max_side
            &&& 1 <= limits_of(device).max_layers
            &&& enabled_on(device, format)
        }),
        adapter_decides(device) <==> adapter_formats_of(device) || (backend_of(device)
            != Backend::Noop && backend_of(device) != Backend::Metal && backend_of(device)
            != Backend::Dx12),
{
}

/// What is within limits is no larger than they are.
pub proof fn limits_bound_sides(limits: TextureLimits, width: u32, height: u32)
    ensures
        within_limits(limits, width, height) <==> width <= limits.max_side && height
            <= limits.max_side && limits.max_layers > 0,
{
}

/// A surface texture is one layer and level of single samples, in the set's size and format, under
/// the label of its place.
pub proof fn textures_are_plain(
    info: TextureInfo,
    i: int,
    width: u32,
    height: u32,
    format: wgpu::TextureFormat,
    deep_capture: bool,
)
    requires
        0 <= i < 3,
    ensures
        model::surface_texture_info(info, i, width, height, format, deep_capture) <==> ({
            &&& i == 0 ==> info.label@ == "surface_buffer_0"@
            &&& i == 1 ==> info.label@ == "surface_buffer_1"@
            &&& i == 2 ==> info.label@ == "surface_buffer_2"@
            &&& (info.width, info.height) == (width, height)
            &&& (info.depth_or_array_layers, info.mip_level_count, info.sample_count) == (
                1u32,
                1u32,
                1u32,
            )
            &&& info.format == format
            &&& info.usage == if deep_capture { 21u32 } else { 20u32 }
        }),
{
}

/// The size of a view is that of its texture, and that is the one asked for.
pub proof fn sizes_are_those_asked_for(view: wgpu::TextureView, made: wgpu::Texture)
    ensures
        model::texture_size(made) == (made_with(made).1.width, made_with(made).1.height),
        model::view_size(view) == (made_with(viewed(view)).1.width, made_with(
            viewed(view),
        ).1.height),
{
}

// Texture sets.

/// A set is valid exactly if its roles are apart, it has three different textures of its size and
/// format, and each view is of the texture beside it.
pub proof fn valid_sets(set: BufferSet, deep_capture: bool)
    ensures
        set.roles_distinct() <==> ({
            &&& 0 <= set.rendering <= 2
            &&& 0 <= set.ready <= 2
            &&& 0 <= set.display <= 2
            &&& set.rendering != set.ready
            &&& set.rendering != set.display
            &&& set.ready != set.display
        }),
        set.valid(deep_capture) <==> ({
            &&& set.buffers.len() == 3 && set.submissions.len() == 3
            &&& 0 <= set.rendering <= 2
            &&& 0 <= set.ready <= 2
            &&& 0 <= set.display <= 2
            &&& set.rendering != set.ready
            &&& set.rendering != set.display
            &&& set.ready != set.display
            &&& set.width >= 1 && set.height >= 1
            &&& set.buffers[0].texture != set.buffers[1].texture
            &&& set.buffers[0].texture != set.buffers[2].texture
            &&& set.buffers[1].texture != set.buffers[2].texture
            &&& forall|i: int|
                0 <= i < 3 ==> {
                    let buffer = #[trigger] set.buffers[i];
                    let info = made_with(buffer.texture).1;
                    &&& viewed(buffer.view) == buffer.texture
                    &&& i == 0 ==> info.label@ == "surface_buffer_0"@
                    &&& i == 1 ==> info.label@ == "surface_buffer_1"@
                    &&& i == 2 ==> info.label@ == "surface_buffer_2"@
                    &&& (info.width, info.height) == (set.width, set.height)
                    &&& info.depth_or_array_layers == 1 && info.mip_level_count == 1
                        && info.sample_count == 1
                    &&& info.format == set.format
                    &&& info.usage == if deep_capture { 21u32 } else { 20u32 }
                }
        }),
{
    let three = set.buffers[0].texture != set.buffers[1].texture && set.buffers[0].texture
        != set.buffers[2].texture && set.buffers[1].texture != set.buffers[2].texture;
    assert(three ==> forall|i: int, j: int|
        0 <= i < j < 3 ==> (#[trigger] set.buffers[i]).texture != (
        #[trigger] set.buffers[j]).texture);
}

/// A set is unused exactly if it is valid, its roles are the initial ones, and nothing was counted,
/// noted or asked for. It is fresh if it was also made by the device in the size and format asked
/// for.
pub proof fn fresh_sets(
    set: BufferSet,
    device: wgpu::Device,
    width: u32,
    height: u32,
    format: wgpu::TextureFormat,
    deep_capture: bool,
)
    ensures
        set.unused(deep_capture) <==> ({
            &&& set.valid(deep_capture)
            &&& (set.rendering, set.ready, set.display) == (0int, 1int, 2int)
            &&& forall|i: int| 0 <= i < 3 ==> (#[trigger] set.submissions[i]) is None
            &&& !set.redraw_pending
            &&& set.frame_generation == 0 && set.last_composited_generation == 0
        }),
        set.fresh(device, width, height, format, deep_capture) <==> ({
            &&& set.unused(deep_capture)
            &&& made_with(set.buffers[0].texture).0 == device
            &&& made_with(set.buffers[1].texture).0 == device
            &&& made_with(set.buffers[2].texture).0 == device
            &&& set.width == if width == 0 { 1 } else { width }
            &&& set.height == if height == 0 { 1 } else { height }
            &&& set.format == format
        }),
{
    if set.valid(deep_capture) && forall|i: int|
        0 <= i < 3 ==> (#[trigger] set.submissions[i]) is None {
        assert(set.submissions =~= seq![None, None, None]);
    }
}

/// Both sets are apart exactly if no buffer of one has a texture of the other.
pub proof fn sets_apart(set: BufferSet, other: BufferSet)
    ensures
        set.apart(other) <==> (forall|i: int, j: int|
            0 <= i <= 2 && 0 <= j <= 2 ==> (#[trigger] set.buffers[i]).texture != (
            #[trigger] other.buffers[j]).texture),
{
}

/// The back is the buffer that is rendered into, the front the one on display.
pub proof fn back_and_front(set: BufferSet)
    ensures
        set.back() == set.buffers[set.rendering],
        set.front() == set.buffers[set.display],
        set.size() == (set.width, set.height),
        set.textures().len() == 3,
        set.textures()[0] == set.buffers[0].texture,
        set.textures()[1] == set.buffers[1].texture,
        set.textures()[2] == set.buffers[2].texture,
{
}

/// A present puts the buffer that was drawn into in the place of the ready one, which is drawn into
/// next, and advances the generation by one. It does so whatever waits already, and changes nothing
/// else.
pub proof fn present_hands_the_drawn_buffer_over(set: BufferSet)
    ensures
        ({
            let after = set.present();
            &&& after.ready == set.rendering
            &&& after.rendering == set.ready
            &&& after.display == set.display
            &&& set.frame_generation < u64::MAX ==> after.frame_generation as int
                == set.frame_generation as int + 1
            &&& set.frame_generation == u64::MAX ==> after.frame_generation == 0
            &&& after.last_composited_generation == set.last_composited_generation
            &&& after.buffers == set.buffers
            &&& after.submissions == set.submissions
            &&& after.redraw_pending == set.redraw_pending
            &&& (after.width, after.height) == (set.width, set.height)
            &&& after.format == set.format
        }),
{
}

/// A present with a submission does what one without does, and notes the submission for the buffer
/// that was drawn into, and for no other.
pub proof fn present_notes_the_submission(set: BufferSet, submission: wgpu::SubmissionIndex)
    requires
        0 <= set.rendering < set.submissions.len(),
    ensures
        ({
            let after = set.present_submission(submission);
            let plain = set.present();
            &&& after.submissions.len() == set.submissions.len()
            &&& after.submissions[set.rendering] == Some(submission)
            &&& forall|i: int|
                0 <= i < set.submissions.len() && i != set.rendering
                    ==> #[trigger] after.submissions[i] == set.submissions[i]
            &&& (after.rendering, after.ready, after.display) == (
                plain.rendering,
                plain.ready,
                plain.display,
            )
            &&& after.frame_generation == plain.frame_generation
            &&& after.last_composited_generation == set.last_composited_generation
            &&& after.buffers == set.buffers
            &&& after.redraw_pending == set.redraw_pending
            &&& (after.width, after.height) == (set.width, set.height)
            &&& after.format == set.format
        }),
{
}

/// A swap into display puts the ready buffer there, keeps the other one ready, and counts all
/// frames presented so far as seen. It changes nothing else.
pub proof fn show_puts_the_ready_buffer_on_display(set: BufferSet)
    ensures
        ({
            let after = set.show();
            &&& after.display == set.ready
            &&& after.ready == set.display
            &&& after.rendering == set.rendering
            &&& after.last_composited_generation == set.frame_generation
            &&& after.frame_generation == set.frame_generation
            &&& after.buffers == set.buffers
            &&& after.submissions == set.submissions
            &&& after.redraw_pending == set.redraw_pending
            &&& (after.width, after.height) == (set.width, set.height)
            &&& after.format == set.format
        }),
{
}

/// A gated paint shows the ready buffer if the generation has moved since the last swap, and leaves
/// the set alone if it has not.
pub proof fn paint_shows_new_frames_only(set: BufferSet)
    ensures
        set.has_new_frame() <==> set.frame_generation != set.last_composited_generation,
        set.frame_generation == set.last_composited_generation ==> set.composite() == set,
        set.frame_generation != set.last_composited_generation ==> ({
            let after = set.composite();
            &&& after.display == set.ready
            &&& after.ready == set.display
            &&& after.rendering == set.rendering
            &&& after.last_composited_generation == set.frame_generation
            &&& after.frame_generation == set.frame_generation
            &&& after.buffers == set.buffers
            &&& after.submissions == set.submissions
            &&& after.redraw_pending == set.redraw_pending
            &&& (after.width, after.height) == (set.width, set.height)
            &&& after.format == set.format
        }),
{
}

/// A redraw request sets the flag and nothing else.
pub proof fn redraw_sets_the_flag(set: BufferSet, redraw_pending: bool)
    ensures
        ({
            let after = set.with_redraw_pending(redraw_pending);
            &&& after.redraw_pending == redraw_pending
            &&& (after.rendering, after.ready, after.display) == (
                set.rendering,
                set.ready,
                set.display,
            )
            &&& after.frame_generation == set.frame_generation
            &&& after.last_composited_generation == set.last_composited_generation
            &&& after.buffers == set.buffers
            &&& after.submissions == set.submissions
            &&& (after.width, after.height) == (set.width, set.height)
            &&& after.format == set.format
        }),
{
}

// Surfaces.

/// A surface is valid exactly if its sets are, have one format and no texture in common, and
/// nothing of the replacement was shown.
pub proof fn valid_surfaces(surface: Surface, deep_capture: bool)
    ensures
        surface.valid(deep_capture) <==> ({
            &&& surface.active.valid(deep_capture)
            &&& surface.pending is Some ==> {
                let pending = surface.pending->0;
                &&& pending.valid(deep_capture)
                &&& pending.format == surface.active.format
                &&& pending.last_composited_generation == 0
                &&& forall|i: int, j: int|
                    0 <= i < 3 && 0 <= j < 3 ==> (#[trigger] pending.buffers[i]).texture != (
                    #[trigger] surface.active.buffers[j]).texture
            }
        }),
        surface.roles_distinct() <==> surface.active.roles_distinct() && (surface.pending is Some
            ==> surface.pending->0.roles_distinct()),
{
}

/// The renderer draws into the replacement from the moment it waits until it is taken over, frame or
/// no frame, and into the active set otherwise.
pub proof fn renderer_draws_into_the_replacement(surface: Surface)
    ensures
        surface.pending is Some ==> surface.render_target() == surface.pending->0,
        surface.pending is None ==> surface.render_target() == surface.active,
{
}

/// A present goes to the set that the renderer draws into and leaves the other one alone.
pub proof fn present_goes_to_the_render_target(surface: Surface, submission: wgpu::SubmissionIndex)
    ensures
        surface.pending is None ==> ({
            &&& surface.present().pending is None
            &&& surface.present().active == surface.active.present()
            &&& surface.present_submission(submission).pending is None
            &&& surface.present_submission(submission).active
                == surface.active.present_submission(submission)
        }),
        surface.pending is Some ==> ({
            &&& surface.present().active == surface.active
            &&& surface.present().pending == Some(surface.pending->0.present())
            &&& surface.present_submission(submission).active == surface.active
            &&& surface.present_submission(submission).pending == Some(
                surface.pending->0.present_submission(submission),
            )
        }),
{
}

/// A redraw request goes to the set that the renderer draws into and leaves the other one alone.
pub proof fn redraw_goes_to_the_render_target(surface: Surface, redraw_pending: bool)
    ensures
        ({
            let after = surface.with_redraw_pending(redraw_pending);
            &&& surface.pending is None ==> after.pending is None && after.active
                == surface.active.with_redraw_pending(redraw_pending)
            &&& surface.pending is Some ==> after.active == surface.active && after.pending == Some(
                surface.pending->0.with_redraw_pending(redraw_pending),
            )
        }),
{
}

/// A paint, gated or not, first takes a replacement over that has a frame which was not shown, and
/// then works on the active set. A replacement without one goes on waiting.
pub proof fn paint_takes_a_ready_replacement_over(surface: Surface)
    ensures
        ({
            let taken_over = surface.pending is Some && surface.pending->0.frame_generation
                != surface.pending->0.last_composited_generation;
            let shown_set = if taken_over { surface.pending->0 } else { surface.active };
            &&& surface.promote().active == shown_set
            &&& surface.composite().active == shown_set.composite()
            &&& surface.swap_ready_display().active == shown_set.show()
            &&& surface.has_new_frame() <==> shown_set.frame_generation
                != shown_set.last_composited_generation
            &&& taken_over ==> {
                &&& surface.promote().pending is None
                &&& surface.composite().pending is None
                &&& surface.swap_ready_display().pending is None
            }
            &&& !taken_over ==> {
                &&& surface.promote().pending == surface.pending
                &&& surface.composite().pending == surface.pending
                &&& surface.swap_ready_display().pending == surface.pending
            }
        }),
{
}

/// A resize to the size that the renderer draws at changes nothing, whatever was presented or
/// painted before. Any other makes a fresh replacement, of textures that the surface did not have,
/// and leaves the active set alone.
pub proof fn resize_changes_nothing_but_the_replacement(
    surface: Surface,
    to: Surface,
    device: wgpu::Device,
    width: u32,
    height: u32,
    deep_capture: bool,
)
    ensures
        ({
            let target = if surface.pending is Some { surface.pending->0 } else { surface.active };
            let there = target.width == width && target.height == height;
            &&& there ==> (surface.resizes_to(to, device, width, height, deep_capture) <==> to
                == surface)
            &&& !there ==> (surface.resizes_to(to, device, width, height, deep_capture) <==> {
                &&& to.active == surface.active
                &&& to.pending is Some
                &&& to.pending->0.fresh(device, width, height, surface.active.format, deep_capture)
                &&& forall|i: int, j: int|
                    0 <= i < 3 && 0 <= j < 3 ==> (#[trigger] to.pending->0.buffers[i]).texture != (
                    #[trigger] surface.active.buffers[j]).texture
                &&& surface.pending is Some ==> forall|i: int, j: int|
                    0 <= i < 3 && 0 <= j < 3 ==> (#[trigger] to.pending->0.buffers[i]).texture != (
                    #[trigger] surface.pending->0.buffers[j]).texture
            })
        }),
{
}

/// A replacement takes the place of any other and leaves the active set alone.
pub proof fn replacement_waits(surface: Surface, replacement: BufferSet)
    ensures
        surface.resize(replacement).active == surface.active,
        surface.resize(replacement).pending == Some(replacement),
{
}

/// The textures of a surface are the three of its active set and the three of a replacement.
pub proof fn surfaces_have_three_textures_per_set(surface: Surface)
    ensures
        surface.textures().len() == if surface.pending is Some { 6int } else { 3int },
        forall|i: int|
            0 <= i < 3 ==> #[trigger] surface.textures()[i] == surface.active.buffers[i].texture,
        surface.pending is Some ==> forall|i: int|
            3 <= i < 6 ==> #[trigger] surface.textures()[i] == surface.pending->0.buffers[i
                - 3].texture,
{
}

/// Surfaces are apart exactly if no texture is in the lists of both.
pub proof fn surfaces_apart(surface: Surface, other: Surface)
    ensures
        surface.apart(other) <==> (forall|i: int, j: int|
            0 <= i < surface.textures().len() && 0 <= j < other.textures().len()
                ==> #[trigger] surface.textures()[i] != #[trigger] other.textures()[j]),
{
    if surface.apart(other) {
        assert forall|i: int, j: int|
            0 <= i < surface.textures().len() && 0 <= j < other.textures().len()
                implies #[trigger] surface.textures()[i] != #[trigger] other.textures()[j] by {
            assert(surface.textures().contains(surface.textures()[i]));
            assert(other.textures().contains(other.textures()[j]));
        }
    }
}

// The registry.

/// A registry is well-formed exactly if its surfaces are finitely many, valid and apart.
pub proof fn valid_registries(registry: Registry, held: SurfaceRegistry)
    ensures
        held.wf() <==> held@.valid(),
        registry.valid() <==> ({
            &&& registry.surfaces.dom().finite()
            &&& forall|id: u64|
                registry.surfaces.dom().contains(id) ==> (#[trigger] registry.surfaces[id]).valid(
                    registry.deep_capture,
                )
            &&& forall|a: u64, b: u64|
                registry.surfaces.dom().contains(a) && registry.surfaces.dom().contains(b) && a != b
                    ==> (#[trigger] registry.surfaces[a]).apart(#[trigger] registry.surfaces[b])
        }),
{
}

/// An id is registered exactly if there is a surface under it.
pub proof fn registered_ids_have_surfaces(registry: Registry, id: u64)
    ensures
        registry.registered(id) <==> registry.surfaces.dom().contains(id),
{
}

/// After an operation the surface under the id is what the operation makes of it, and all else is as
/// it was. Nothing happens under an id without a surface.
pub proof fn operations_reach_their_surface(registry: Registry, id: u64, to: Surface, other: u64)
    ensures
        ({
            let after = registry.replace(id, to);
            &&& registry.surfaces.dom().contains(id) ==> after.surfaces.dom().contains(id)
                && after.surfaces[id] == to
            &&& !registry.surfaces.dom().contains(id) ==> after == registry
            &&& after.surfaces.dom() == registry.surfaces.dom()
            &&& other != id && registry.surfaces.dom().contains(other) ==> after.surfaces[other]
                == registry.surfaces[other]
            &&& after.next_id == registry.next_id
            &&& after.deep_capture == registry.deep_capture
        }),
{
    assert(registry.replace(id, to).surfaces.dom() =~= registry.surfaces.dom());
}

/// Every question about a registered surface is answered by what that surface is, and about any
/// other id not at all.
pub proof fn questions_are_answered_by_the_surface<T>(
    registry: Registry,
    id: u64,
    answer: spec_fn(Surface) -> T,
)
    ensures
        registry.surfaces.dom().contains(id) ==> registry.ask(id, answer) == Some(
            answer(registry.surfaces[id]),
        ),
        !registry.surfaces.dom().contains(id) ==> registry.ask(id, answer) == None::<T>,
{
}

/// A creation registers the surface under the next number, which goes up by one, and changes
/// nothing else.
pub proof fn creation_adds_one_surface(registry: Registry, surface: Surface, id: u64, other: u64)
    ensures
        ({
            let after = registry.create(surface);
            &&& after.surfaces.dom() == registry.surfaces.dom().insert(registry.next_id)
            &&& after.surfaces[registry.next_id] == surface
            &&& other != registry.next_id && registry.surfaces.dom().contains(other)
                ==> after.surfaces[other] == registry.surfaces[other]
            &&& registry.next_id < u64::MAX ==> after.next_id as int == registry.next_id as int + 1
            &&& registry.next_id == u64::MAX ==> after.next_id == 0
            &&& after.deep_capture == registry.deep_capture
        }),
        ({
            let after = registry.with_surface(id, surface);
            &&& after.surfaces.dom() == registry.surfaces.dom().insert(id)
            &&& after.surfaces[id] == surface
            &&& other != id && registry.surfaces.dom().contains(other) ==> after.surfaces[other]
                == registry.surfaces[other]
            &&& after.next_id == registry.next_id
            &&& after.deep_capture == registry.deep_capture
        }),
{
}

/// A removal takes the surface out, and changes nothing else.
pub proof fn removal_takes_one_surface(registry: Registry, id: u64, other: u64)
    ensures
        ({
            let after = registry.remove(id);
            &&& after.surfaces.dom() == registry.surfaces.dom().remove(id)
            &&& other != id && registry.surfaces.dom().contains(other) ==> after.surfaces[other]
                == registry.surfaces[other]
            &&& after.next_id == registry.next_id
            &&& after.deep_capture == registry.deep_capture
        }),
{
}

/// A redraw is pending exactly if the set that the renderer draws into has the flag set, and a
/// resize needs a replacement exactly if that set has another size.
pub proof fn pending_redraws_and_resizes(registry: Registry, id: u64, width: u32, height: u32)
    ensures
        ({
            let there = registry.surfaces.dom().contains(id);
            let surface = registry.surfaces[id];
            let target = if surface.pending is Some { surface.pending->0 } else { surface.active };
            &&& registry.redraw_pending(id) <==> there && target.redraw_pending
            &&& registry.needs_replacement(id, width, height) <==> there && (target.width != width
                || target.height != height)
        }),
{
}

/// The registry's textures are those in the lists of its surfaces, and a surface is apart from the
/// registry exactly if it is from each of them.
pub proof fn registry_textures(registry: Registry, texture: wgpu::Texture, surface: Surface)
    ensures
        registry.has_texture(texture) <==> (exists|id: u64, i: int|
            registry.surfaces.dom().contains(id) && 0 <= i < registry.surfaces[id].textures().len()
                && (#[trigger] registry.surfaces[id].textures()[i]) == texture),
        registry.apart_from(surface) <==> (forall|id: u64|
            registry.surfaces.dom().contains(id) ==> surface.apart(
                #[trigger] registry.surfaces[id],
            )),
{
    if registry.has_texture(texture) {
        let id = choose|id: u64|
            registry.registered(id) && (#[trigger] registry.surfaces[id]).textures().contains(
                texture,
            );
        let list = registry.surfaces[id].textures();
        let i = choose|i: int| 0 <= i < list.len() && list[i] == texture;
        assert(registry.surfaces[id].textures()[i] == texture);
    }
    if exists|id: u64, i: int|
        registry.surfaces.dom().contains(id) && 0 <= i < registry.surfaces[id].textures().len()
            && (#[trigger] registry.surfaces[id].textures()[i]) == texture {
        let (id, i) = choose|id: u64, i: int|
            registry.surfaces.dom().contains(id) && 0 <= i < registry.surfaces[id].textures().len()
                && (#[trigger] registry.surfaces[id].textures()[i]) == texture;
        assert(registry.registered(id));
        assert(registry.surfaces[id].textures().contains(texture));
    }
}

// Memory.

/// What the textures of a list take together.
pub open spec fn total(textures: Seq<wgpu::Texture>, bytes: spec_fn(wgpu::Texture) -> nat) -> nat
    decreases textures.len(),
{
    if textures.len() == 0 {
        0
    } else {
        total(textures.drop_last(), bytes) + bytes(textures.last())
    }
}

/// A surface takes the memory of all its textures, three for each set, whatever was presented,
/// painted or asked for.
pub proof fn surface_memory_is_that_of_its_textures(
    surface: Surface,
    bytes: spec_fn(wgpu::Texture) -> nat,
)
    ensures
        surface.memory(bytes) == total(surface.textures(), bytes),
        ({
            let active = surface.active.buffers;
            let pending = surface.pending->0.buffers;
            let first = bytes(active[0].texture) + bytes(active[1].texture) + bytes(
                active[2].texture,
            );
            let second = bytes(pending[0].texture) + bytes(pending[1].texture) + bytes(
                pending[2].texture,
            );
            surface.memory(bytes) == first + if surface.pending is Some { second } else { 0 }
        }),
        model::set_memory(surface.active, bytes) == total(surface.active.textures(), bytes),
        surface.memory(|texture: wgpu::Texture| 1nat) == if surface.pending is Some {
            6nat
        } else {
            3nat
        },
{
    reveal_with_fuel(total, 7);
    let active = surface.active.textures();
    assert(active.drop_last().drop_last().drop_last().len() == 0);
    if let Some(pending) = surface.pending {
        let all = surface.textures();
        assert(all.drop_last().drop_last().drop_last() =~= active);
    }
}

/// Presents, redraw requests and paints leave the memory as it is, but for a paint that takes a
/// replacement over: it gives up the textures of the set that was on display.
pub proof fn frames_take_no_memory(
    surface: Surface,
    submission: wgpu::SubmissionIndex,
    redraw_pending: bool,
    bytes: spec_fn(wgpu::Texture) -> nat,
)
    ensures
        surface.present().memory(bytes) == surface.memory(bytes),
        surface.present_submission(submission).memory(bytes) == surface.memory(bytes),
        surface.with_redraw_pending(redraw_pending).memory(bytes) == surface.memory(bytes),
        ({
            let set = surface.pending->0;
            let replacement = bytes(set.buffers[0].texture) + bytes(set.buffers[1].texture) + bytes(
                set.buffers[2].texture,
            );
            let left = if surface.pending is Some && set.frame_generation
                != set.last_composited_generation {
                replacement
            } else {
                surface.memory(bytes)
            };
            &&& surface.composite().memory(bytes) == left
            &&& surface.swap_ready_display().memory(bytes) == left
        }),
{
}

/// An empty registry takes no memory, and each surface adds its own, whichever it is.
pub proof fn registry_memory_is_that_of_its_surfaces(
    registry: Registry,
    id: u64,
    bytes: spec_fn(wgpu::Texture) -> nat,
)
    requires
        registry.surfaces.dom().finite(),
    ensures
        registry.surfaces.dom() == Set::<u64>::empty() ==> registry.memory(bytes) == 0,
        registry.surfaces.dom().contains(id) ==> registry.memory(bytes) == registry.remove(
            id,
        ).memory(bytes) + registry.surfaces[id].memory(bytes),
{
    if registry.surfaces.dom().contains(id) {
        let rest = registry.remove(id);
        let keys = registry.surfaces.dom();
        let weight = |id: u64| registry.surfaces[id].memory(bytes);
        let rest_weight = |id: u64| rest.surfaces[id].memory(bytes);
        model::sum_over_splits(keys, weight, id);
        assert(rest.surfaces.dom() =~= keys.remove(id));
        laws::sums_agree(keys.remove(id), weight, rest_weight);
    }
}

/// With one byte for each texture, the memory is three for each surface and three more for each
/// that has a replacement waiting.
pub proof fn textures_are_counted(registry: Registry)
    requires
        registry.surfaces.dom().finite(),
    ensures
        registry.memory(|texture: wgpu::Texture| 1nat) >= 3 * registry.surfaces.dom().len(),
        (forall|id: u64|
            registry.surfaces.dom().contains(id) ==> (#[trigger] registry.surfaces[id]).pending
                is None) ==> registry.memory(|texture: wgpu::Texture| 1nat) == 3
            * registry.surfaces.dom().len(),
        (forall|id: u64|
            registry.surfaces.dom().contains(id) ==> (#[trigger] registry.surfaces[id]).pending
                is Some) ==> registry.memory(|texture: wgpu::Texture| 1nat) == 6
            * registry.surfaces.dom().len(),
    decreases registry.surfaces.dom().len(),
{
    let one = |texture: wgpu::Texture| 1nat;
    let keys = registry.surfaces.dom();
    if keys.len() == 0 {
        assert(keys =~= Set::<u64>::empty());
        registry_memory_is_that_of_its_surfaces(registry, 0, one);
    } else {
        let id = keys.choose();
        let rest = registry.remove(id);
        assert(rest.surfaces.dom() =~= keys.remove(id));
        textures_are_counted(rest);
        registry_memory_is_that_of_its_surfaces(registry, id, one);
    }
}

/// A total that wraps around is short of the sum by whole turns, and is the sum if that fits.
pub proof fn totals_wrap_by_whole_turns(sum: nat, total: u64)
    ensures
        model::wraps_to(sum, total) <==> total <= sum && (sum - total) % 0x1_0000_0000_0000_0000
            == 0,
        sum <= u64::MAX ==> (model::wraps_to(sum, total) <==> total == sum),
{
}

/// A measure measures `bytes` exactly if it returns nothing else, and can be taken of a set or a
/// surface exactly if it can be called on each of its textures.
pub proof fn measures_return_what_they_measure<F: Fn(&wgpu::Texture) -> u64>(
    measure: F,
    bytes: spec_fn(wgpu::Texture) -> nat,
    surface: Surface,
)
    ensures
        registry::measures(measure, bytes) <==> (forall|texture: wgpu::Texture, n: u64|
            #[trigger] call_ensures(measure, (&texture,), n) ==> n as nat == bytes(texture)),
        registry::measurable(measure, surface.active) <==> ({
            &&& call_requires(measure, (&surface.active.buffers[0].texture,))
            &&& call_requires(measure, (&surface.active.buffers[1].texture,))
            &&& call_requires(measure, (&surface.active.buffers[2].texture,))
        }),
        registry::surface_measurable(measure, surface) <==> registry::measurable(
            measure,
            surface.active,
        ) && (surface.pending is Some ==> registry::measurable(measure, surface.pending->0)),
{
    assert(registry::measurable(measure, surface.active) ==> call_requires(
        measure,
        (&surface.active.buffers[0].texture,),
    ));
}

} // verus!
