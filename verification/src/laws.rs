//! What holds of the registry as a whole: laws that relate several operations.

use crate::model;
use crate::model::{BufferSet, Registry, Surface};
use crate::texture::viewed;
use vstd::prelude::*;

verus! {

/// Packing loses nothing: three distinct roles come back out of the state that holds them.
pub proof fn unpacking_inverts_packing(rendering: int, ready: int, display: int)
    requires
        model::distinct_roles(rendering, ready, display),
    ensures
        model::unpacked(model::packed(rendering, ready, display)) == (rendering, ready, display),
        0 <= model::packed(rendering, ready, display) < 64,
{
}

/// A state of six bits is the packing of the roles in it.
pub proof fn packing_inverts_unpacking(state: int)
    requires
        0 <= state < 64,
    ensures
        ({
            let (rendering, ready, display) = model::unpacked(state);
            model::packed(rendering, ready, display) == state
        }),
{
}

/// In a texture set the buffers of different roles are different textures, with different views.
pub proof fn roles_never_share_a_texture(set: BufferSet, deep_capture: bool)
    requires
        set.valid(deep_capture),
    ensures
        set.back().texture != set.front().texture,
        set.back().view != set.front().view,
        set.buffers[set.ready].texture != set.back().texture,
        set.buffers[set.ready].texture != set.front().texture,
        set.buffers[set.ready].view != set.back().view,
        set.buffers[set.ready].view != set.front().view,
{
}

/// The renderer never draws into the texture that the compositor reads from, whether or not a
/// replacement set waits.
pub proof fn renderer_never_draws_into_the_displayed_texture(surface: Surface, deep_capture: bool)
    requires
        surface.valid(deep_capture),
    ensures
        surface.render_target().back().texture != surface.active.front().texture,
        surface.render_target().back().view != surface.active.front().view,
        viewed(surface.render_target().back().view) != viewed(surface.active.front().view),
{
}

/// A paint before the first frame changes nothing.
pub proof fn first_paint_keeps_the_initial_buffer(surface: Surface, deep_capture: bool)
    requires
        surface.active.unused(deep_capture),
        surface.pending is None,
    ensures
        surface.composite() == surface,
{
}

/// A surface's paint without a new frame changes nothing.
pub proof fn idle_paint_changes_nothing(surface: Surface)
    requires
        !surface.has_new_frame(),
    ensures
        surface.composite() == surface,
{
}

/// After a gated paint there is no new frame, so further gated paints change nothing.
pub proof fn gated_paint_is_idempotent(surface: Surface)
    ensures
        !surface.composite().has_new_frame(),
        surface.composite().composite() == surface.composite(),
{
}

/// A presented frame is what the next gated paint puts on display: the buffer that was rendered
/// into is then the one in front, in its own texture set.
///
/// Generations wrap around. The only frame that goes unnoticed is one that brings the count back
/// to where it was at the last gated paint.
pub proof fn presented_frame_is_shown_next(surface: Surface, deep_capture: bool)
    requires
        surface.valid(deep_capture),
        model::next_count(surface.render_target().frame_generation)
            != surface.render_target().last_composited_generation,
    ensures
        surface.present().has_new_frame(),
        surface.present().composite().active.front() == surface.render_target().back(),
        surface.present().composite().active.size() == surface.render_target().size(),
        surface.present().composite().pending is None,
        forall|submission: wgpu::SubmissionIndex|
            {
                let shown = (#[trigger] surface.present_submission(submission)).composite();
                &&& surface.present_submission(submission).has_new_frame()
                &&& shown.active.front() == surface.render_target().back()
                &&& shown.active.size() == surface.render_target().size()
                &&& shown.pending is None
            },
{
}

/// A frame presented with a submission is presented as one without, and its buffer keeps the
/// submission.
pub proof fn submission_stays_with_its_frame(
    surface: Surface,
    submission: wgpu::SubmissionIndex,
    deep_capture: bool,
)
    requires
        surface.valid(deep_capture),
    ensures
        ({
            let presented = surface.present_submission(submission).render_target();
            &&& presented.submissions[presented.ready] == Some(submission)
            &&& BufferSet { submissions: surface.render_target().submissions, ..presented }
                == surface.present().render_target()
            &&& presented.submissions.len() == surface.render_target().submissions.len()
            &&& forall|i: int|
                0 <= i < 3 && i != presented.ready ==> #[trigger] presented.submissions[i]
                    == surface.render_target().submissions[i]
        }),
{
}

/// After an ungated swap there is no new frame, so gated paints hold the display.
pub proof fn gated_paint_holds_what_an_ungated_swap_shows(surface: Surface)
    ensures
        !surface.swap_ready_display().has_new_frame(),
        surface.swap_ready_display().composite() == surface.swap_ready_display(),
{
}

/// With a new frame there is no difference between an ungated swap and a gated paint.
pub proof fn swaps_agree_on_a_new_frame(surface: Surface)
    requires
        surface.has_new_frame(),
    ensures
        surface.swap_ready_display() == surface.composite(),
{
}

/// Two ungated swaps undo each other, but for what is noted as seen: without a frame in between,
/// the second one takes the latest frame off display again.
pub proof fn second_ungated_swap_undoes_the_first(surface: Surface)
    ensures
        ({
            let before = surface.promote();
            surface.swap_ready_display().swap_ready_display() == (Surface {
                active: BufferSet {
                    last_composited_generation: before.active.frame_generation,
                    ..before.active
                },
                ..before
            })
        }),
        surface.pending is None
            ==> surface.present().swap_ready_display().swap_ready_display().active.front()
            == surface.active.front(),
{
}

/// Presenting leaves alone what the compositor reads from.
pub proof fn presenting_keeps_the_front(surface: Surface, submission: wgpu::SubmissionIndex)
    ensures
        surface.present().active.front() == surface.active.front(),
        surface.present().active.size() == surface.active.size(),
        surface.present_submission(submission).active.front() == surface.active.front(),
        surface.present_submission(submission).active.size() == surface.active.size(),
{
}

/// The compositor's swaps leave alone what the renderer draws into, and its size.
pub proof fn compositing_keeps_the_back(surface: Surface)
    ensures
        surface.composite().render_target().back() == surface.render_target().back(),
        surface.composite().render_target().size() == surface.render_target().size(),
        surface.swap_ready_display().render_target().back() == surface.render_target().back(),
        surface.swap_ready_display().render_target().size() == surface.render_target().size(),
{
}

/// The generation advances by one for each presented frame, and the compositor does not change it.
pub proof fn generation_counts_presented_frames(
    surface: Surface,
    submission: wgpu::SubmissionIndex,
)
    ensures
        surface.present().render_target().frame_generation == model::next_count(
            surface.render_target().frame_generation,
        ),
        surface.present_submission(submission).render_target().frame_generation
            == model::next_count(surface.render_target().frame_generation),
        surface.composite().render_target().frame_generation
            == surface.render_target().frame_generation,
        surface.swap_ready_display().render_target().frame_generation
            == surface.render_target().frame_generation,
{
}

/// A resize discards nothing that is on display, and nothing of the replacement is displayed before
/// its first frame: until then the compositor goes on with the old set. The first frame brings the
/// replacement on display, at its size.
pub proof fn resize_keeps_the_displayed_frame(
    surface: Surface,
    replacement: BufferSet,
    device: wgpu::Device,
    width: u32,
    height: u32,
    deep_capture: bool,
)
    requires
        replacement.fresh(device, width, height, surface.active.format, deep_capture),
    ensures
        surface.resize(replacement).active == surface.active,
        surface.resize(replacement).render_target() == replacement,
        surface.resize(replacement).composite() == (Surface {
            active: surface.active.composite(),
            pending: Some(replacement),
        }),
        surface.resize(replacement).swap_ready_display() == (Surface {
            active: surface.active.show(),
            pending: Some(replacement),
        }),
        ({
            let shown = surface.resize(replacement).present().composite();
            &&& shown.pending is None
            &&& shown.active.front() == replacement.back()
            &&& shown.active.size() == (model::clamped(width), model::clamped(height))
        }),
{
}

/// A resize hands the renderer a texture that the surface did not have, unless the size is there
/// already. What is on display stays, and nothing of the replacement was presented or asked for.
pub proof fn resize_hands_out_new_buffers(
    surface: Surface,
    to: Surface,
    device: wgpu::Device,
    width: u32,
    height: u32,
    deep_capture: bool,
)
    requires
        surface.valid(deep_capture),
        surface.resizes_to(to, device, width, height, deep_capture),
        surface.render_target().size() != (width, height),
    ensures
        to.valid(deep_capture),
        to.active == surface.active,
        to.render_target().size() == (model::clamped(width), model::clamped(height)),
        to.render_target().frame_generation == 0,
        !to.render_target().redraw_pending,
        !surface.textures().contains(to.render_target().back().texture),
        to.render_target().back().view != surface.render_target().back().view,
        forall|i: int|
            0 <= i < 3 ==> to.render_target().back().view != (
            #[trigger] surface.active.buffers[i]).view,
{
    let back = to.render_target().back().texture;
    if surface.textures().contains(back) {
        let i = choose|i: int|
            0 <= i < surface.textures().len() && surface.textures()[i] == back;
        if i < 3 {
            assert(surface.active.buffers[i].texture == back);
        } else {
            assert(surface.pending->0.buffers[i - 3].texture == back);
        }
    }
}

/// A resize back to the displayed size does not go back to the displayed buffers: the renderer
/// draws into those of a replacement set, and the display stays.
pub proof fn resize_back_keeps_the_display_apart(
    surface: Surface,
    between: Surface,
    last: Surface,
    device: wgpu::Device,
    device_back: wgpu::Device,
    width: u32,
    height: u32,
    deep_capture: bool,
)
    requires
        surface.valid(deep_capture),
        surface.pending is None,
        surface.active.size() != (width, height),
        surface.resizes_to(between, device, width, height, deep_capture),
        between.resizes_to(
            last,
            device_back,
            surface.active.width,
            surface.active.height,
            deep_capture,
        ),
    ensures
        last.active == surface.active,
        last.pending is Some,
        last.render_target().size() == surface.active.size(),
        last.render_target().frame_generation == 0,
        forall|i: int|
            0 <= i < 3 ==> last.render_target().back().view != (
            #[trigger] surface.active.buffers[i]).view,
        forall|i: int|
            0 <= i < 3 ==> viewed(last.render_target().back().view) != (
            #[trigger] surface.active.buffers[i]).texture,
{
}

/// What is drawn into or read from in one surface is no texture of another.
pub proof fn surfaces_never_share_a_texture(registry: Registry, a: u64, b: u64)
    requires
        registry.valid(),
        registry.registered(a),
        registry.registered(b),
        a != b,
    ensures
        registry.surfaces[a].apart(registry.surfaces[b]),
        ({
            let first = registry.surfaces[a];
            let second = registry.surfaces[b];
            &&& first.active.front().view != second.active.front().view
            &&& first.active.front().view != second.render_target().back().view
            &&& first.render_target().back().view != second.active.front().view
            &&& first.render_target().back().view != second.render_target().back().view
        }),
{
    let first = registry.surfaces[a];
    let second = registry.surfaces[b];
    assert(first.apart(second));
    first.buffers_are_listed();
    second.buffers_are_listed();
    let front = first.active.front().texture;
    let back = first.render_target().back().texture;
    assert(first.textures().contains(front));
    assert(first.textures().contains(back));
    assert(second.textures().contains(second.active.front().texture));
    assert(second.textures().contains(second.render_target().back().texture));
}

/// Presents and swaps neither raise nor drop a redraw request.
pub proof fn frames_keep_redraw_requests(surface: Surface, submission: wgpu::SubmissionIndex)
    ensures
        surface.present().render_target().redraw_pending
            == surface.render_target().redraw_pending,
        surface.present_submission(submission).render_target().redraw_pending
            == surface.render_target().redraw_pending,
        surface.composite().render_target().redraw_pending
            == surface.render_target().redraw_pending,
        surface.swap_ready_display().render_target().redraw_pending
            == surface.render_target().redraw_pending,
{
}

/// Setting the redraw flag of a surface makes a redraw pending, clearing it makes it not pending,
/// and no other surface's flag changes.
pub proof fn redraw_requests_coalesce(registry: Registry, id: u64, other: u64)
    requires
        registry.registered(id),
        other != id,
    ensures
        ({
            let surface = registry.surfaces[id];
            let set = registry.replace(id, surface.with_redraw_pending(true));
            let cleared = registry.replace(id, surface.with_redraw_pending(false));
            &&& set.redraw_pending(id)
            &&& !cleared.redraw_pending(id)
            &&& set.redraw_pending(other) == registry.redraw_pending(other)
            &&& cleared.redraw_pending(other) == registry.redraw_pending(other)
        }),
{
}

/// An operation on one surface leaves every other one as it was, and registers none.
pub proof fn operations_keep_other_surfaces(registry: Registry, id: u64, to: Surface, other: u64)
    requires
        other != id,
    ensures
        registry.replace(id, to).registered(other) == registry.registered(other),
        registry.replace(id, to).registered(id) == registry.registered(id),
        registry.registered(other) ==> registry.replace(id, to).surfaces[other]
            == registry.surfaces[other],
        registry.remove(id).registered(other) == registry.registered(other),
        registry.registered(other) ==> registry.remove(id).surfaces[other]
            == registry.surfaces[other],
        !registry.remove(id).registered(id),
{
}

/// A created surface gets an id that no registered surface has, and the others stay as they were.
/// As long as the numbers have not run out, the next number grows and stays above all ids: the next
/// creation finds a new one too, and the id of a removed surface does not come back.
pub proof fn created_ids_are_new(registry: Registry, surface: Surface)
    requires
        registry.ids_below_next(),
    ensures
        !registry.registered(registry.next_id),
        registry.create(surface).registered(registry.next_id),
        forall|id: u64| #[trigger]
            registry.registered(id) ==> {
                &&& registry.create(surface).registered(id)
                &&& registry.create(surface).surfaces[id] == registry.surfaces[id]
            },
        registry.next_id < u64::MAX ==> {
            &&& registry.create(surface).next_id > registry.next_id
            &&& registry.create(surface).ids_below_next()
        },
{
}

/// No operation but the creation of a surface changes which id comes next, and none lets an
/// existing id reach it.
pub proof fn ids_stay_below_next(registry: Registry, id: u64, to: Surface)
    requires
        registry.ids_below_next(),
    ensures
        registry.replace(id, to).ids_below_next(),
        registry.replace(id, to).next_id == registry.next_id,
        registry.remove(id).ids_below_next(),
        registry.remove(id).next_id == registry.next_id,
{
}

/// A new surface adds the memory of its textures, and its removal takes that away again.
pub proof fn memory_follows_registration(
    registry: Registry,
    id: u64,
    surface: Surface,
    bytes: spec_fn(wgpu::Texture) -> nat,
)
    requires
        registry.valid(),
        !registry.registered(id),
    ensures
        registry.with_surface(id, surface).memory(bytes) == registry.memory(bytes)
            + surface.memory(bytes),
        registry.with_surface(id, surface).remove(id).memory(bytes) == registry.memory(bytes),
{
    let with = registry.with_surface(id, surface);
    let weight = |id: u64| with.surfaces[id].memory(bytes);
    let keys = with.surfaces.dom();
    model::sum_over_splits(keys, weight, id);
    assert(keys.remove(id) =~= registry.surfaces.dom());
    sums_agree(registry.surfaces.dom(), weight, |id: u64| registry.surfaces[id].memory(bytes));
    assert(with.remove(id).surfaces =~= registry.surfaces);
}

/// Weights that agree on a set have the same sum over it.
pub proof fn sums_agree(keys: Set<u64>, left: spec_fn(u64) -> nat, right: spec_fn(u64) -> nat)
    requires
        keys.finite(),
        forall|key: u64| #[trigger] keys.contains(key) ==> left(key) == right(key),
    ensures
        model::sum_over(keys, left) == model::sum_over(keys, right),
    decreases keys.len(),
{
    if keys.len() > 0 {
        sums_agree(keys.remove(keys.choose()), left, right);
    }
}

} // verus!
