//! What a registry shows over time: laws on its operations, one after the other.
//!
//! A surface is looked at as its users do: by the view that the renderer draws into, the view that
//! the compositor reads from, the size, and the generation.

use crate::history;
use crate::history::{blank, Event, Expected, Painted};
use crate::model::{Registry, Surface};
use vstd::prelude::*;

verus! {

/// A gated paint shows the latest presented frame if it is a new one, and nothing changes if it is
/// not. In both cases the next gated paint changes nothing.
///
/// The latest frame is in the ready buffer: in that of the replacement, if one was presented there,
/// or else in that of the active set.
pub proof fn gated_paint_shows_the_latest_frame(registry: Registry, id: u64)
    requires
        registry.surfaces.dom().contains(id),
    ensures
        ({
            let before = registry.surfaces[id];
            let latest = if before.pending is Some && before.pending->0.frame_generation
                != before.pending->0.last_composited_generation {
                before.pending->0
            } else {
                before.active
            };
            let new = latest.frame_generation != latest.last_composited_generation;
            let painted = registry.replace(id, before.composite());
            let shown = painted.surfaces[id].active;
            &&& before.has_new_frame() == new
            &&& new ==> shown.buffers[shown.display].view == latest.buffers[latest.ready].view
            &&& new ==> shown.buffers[shown.display].texture == latest.buffers[latest.ready].texture
            &&& new ==> (shown.width, shown.height) == (latest.width, latest.height)
            &&& !new ==> painted == registry
            &&& !painted.surfaces[id].has_new_frame()
            &&& painted.replace(id, painted.surfaces[id].composite()) == painted
        }),
{
    let painted = registry.replace(id, registry.surfaces[id].composite());
    assert(painted.replace(id, painted.surfaces[id].composite()).surfaces =~= painted.surfaces);
    if !registry.surfaces[id].has_new_frame() {
        assert(painted.surfaces =~= registry.surfaces);
    }
}

/// A swap that does not ask for a new frame shows the ready buffer, of the replacement if a frame
/// was presented there, and holds gated paints back until the next present.
pub proof fn ungated_swap_shows_the_ready_buffer(registry: Registry, id: u64)
    requires
        registry.surfaces.dom().contains(id),
    ensures
        ({
            let before = registry.surfaces[id];
            let latest = if before.pending is Some && before.pending->0.frame_generation
                != before.pending->0.last_composited_generation {
                before.pending->0
            } else {
                before.active
            };
            let swapped = registry.replace(id, before.swap_ready_display());
            let shown = swapped.surfaces[id].active;
            &&& shown.buffers[shown.display].view == latest.buffers[latest.ready].view
            &&& shown.buffers[shown.ready].view == latest.buffers[latest.display].view
            &&& (shown.width, shown.height) == (latest.width, latest.height)
            &&& !swapped.surfaces[id].has_new_frame()
            &&& swapped.replace(id, swapped.surfaces[id].composite()) == swapped
        }),
{
    let swapped = registry.replace(id, registry.surfaces[id].swap_ready_display());
    assert(swapped.replace(id, swapped.surfaces[id].composite()).surfaces =~= swapped.surfaces);
}

/// The view that the renderer draws into is, after a present and a gated paint, the view that the
/// compositor reads from, however many frames wait already and whether or not a replacement does.
/// The present advances the generation by one, keeps what is on display until the paint, and hands
/// the renderer another buffer.
///
/// Generations wrap around. The only frame that goes unnoticed is one that brings the count back to
/// where it was at the last swap.
pub proof fn presented_view_is_painted_next(
    registry: Registry,
    id: u64,
    submission: Option<wgpu::SubmissionIndex>,
)
    requires
        registry.surfaces.dom().contains(id),
    ensures
        ({
            let before = registry.surfaces[id];
            let target = if before.pending is Some { before.pending->0 } else { before.active };
            let drawn = target.buffers[target.rendering].view;
            let counted = (target.frame_generation + 1) % 0x1_0000_0000_0000_0000;
            let presented = registry.replace(
                id,
                match submission {
                    Some(submission) => before.present_submission(submission),
                    None => before.present(),
                },
            );
            let waiting = presented.surfaces[id];
            let next = if waiting.pending is Some { waiting.pending->0 } else { waiting.active };
            let painted = presented.replace(id, waiting.composite());
            let shown = painted.surfaces[id];
            &&& next.frame_generation == counted
            &&& next.buffers[next.rendering] == target.buffers[target.ready]
            &&& (next.width, next.height) == (target.width, target.height)
            &&& waiting.active.buffers[waiting.active.display]
                == before.active.buffers[before.active.display]
            &&& waiting.pending is Some == before.pending is Some
            &&& counted != target.last_composited_generation ==> {
                &&& waiting.has_new_frame()
                &&& shown.active.buffers[shown.active.display].view == drawn
                &&& (shown.active.width, shown.active.height) == (target.width, target.height)
                &&& shown.active.frame_generation == counted
                &&& shown.pending is None
                &&& !shown.has_new_frame()
            }
            &&& forall|other: u64|
                other != id && registry.surfaces.dom().contains(other)
                    ==> #[trigger] painted.surfaces[other] == registry.surfaces[other]
        }),
{
}

/// While a replacement waits, whether or not a frame was presented into it, the renderer's view,
/// size, generation and redraw flag are those of the replacement, and the compositor's view and size
/// are those of the active set.
pub proof fn renderer_sees_the_replacement(registry: Registry, id: u64)
    requires
        registry.surfaces.dom().contains(id),
    ensures
        ({
            let surface = registry.surfaces[id];
            let target = if surface.pending is Some { surface.pending->0 } else { surface.active };
            let active = surface.active;
            &&& registry.ask(id, |surface: Surface| surface.render_target().back().view) == Some(
                target.buffers[target.rendering].view,
            )
            &&& registry.ask(id, |surface: Surface| surface.render_target().size()) == Some(
                (target.width, target.height),
            )
            &&& registry.ask(
                id,
                |surface: Surface|
                    (surface.render_target().back().view, surface.render_target().size()),
            ) == Some((target.buffers[target.rendering].view, (target.width, target.height)))
            &&& registry.ask(id, |surface: Surface| surface.render_target().frame_generation)
                == Some(target.frame_generation)
            &&& registry.redraw_pending(id) == target.redraw_pending
            &&& registry.ask(id, |surface: Surface| surface.active.front().view) == Some(
                active.buffers[active.display].view,
            )
            &&& registry.ask(
                id,
                |surface: Surface| (surface.active.front().view, surface.active.size()),
            ) == Some((active.buffers[active.display].view, (active.width, active.height)))
            &&& registry.ask(id, |surface: Surface| surface.active.format) == Some(active.format)
        }),
{
}

/// An operation on a registry.
pub enum Act {
    /// The frame in the renderer's buffer is presented, with or without its submission.
    Present(u64, Option<wgpu::SubmissionIndex>),
    /// The compositor paints, and swaps a frame in if there is a new one.
    Composite(u64),
    /// The compositor swaps without asking for a new frame.
    SwapReadyDisplay(u64),
    /// A surface is asked to take a size, on a device, and becomes another.
    Resize(u64, wgpu::Device, u32, u32, Surface),
    /// The redraw flag is set or cleared.
    Redraw(u64, bool),
    /// A surface is created.
    Create(Surface),
    /// A surface is removed.
    Remove(u64),
}

/// The registry after an operation.
pub open spec fn step(registry: Registry, act: Act) -> Registry {
    match act {
        Act::Present(id, Some(submission)) => registry.replace(
            id,
            registry.surfaces[id].present_submission(submission),
        ),
        Act::Present(id, None) => registry.replace(id, registry.surfaces[id].present()),
        Act::Composite(id) => registry.replace(id, registry.surfaces[id].composite()),
        Act::SwapReadyDisplay(id) => registry.replace(
            id,
            registry.surfaces[id].swap_ready_display(),
        ),
        Act::Resize(id, _, _, _, to) => registry.replace(id, to),
        Act::Redraw(id, redraw_pending) => registry.replace(
            id,
            registry.surfaces[id].with_redraw_pending(redraw_pending),
        ),
        Act::Create(surface) => registry.create(surface),
        Act::Remove(id) => registry.remove(id),
    }
}

/// The registry after a sequence of operations.
pub open spec fn after(registry: Registry, acts: Seq<Act>) -> Registry
    decreases acts.len(),
{
    if acts.len() == 0 {
        registry
    } else {
        step(after(registry, acts.drop_last()), acts.last())
    }
}

/// The surface under an id before the `i`-th operation.
pub open spec fn before(registry: Registry, acts: Seq<Act>, id: u64, i: int) -> Surface {
    after(registry, acts.take(i)).surfaces[id]
}

/// The surface under `id` was just created, and none of the operations removes it or, once the
/// numbers have run out, puts another in its place. What resizes make of it is as
/// [`Surface::resizes_to`] says.
pub open spec fn keeps(registry: Registry, acts: Seq<Act>, id: u64) -> bool {
    &&& registry.surfaces.dom().contains(id)
    &&& registry.surfaces[id].pending is None
    &&& registry.surfaces[id].active.unused(registry.deep_capture)
    &&& forall|i: int|
        0 <= i < acts.len() ==> match #[trigger] acts[i] {
            Act::Remove(removed) => removed != id,
            Act::Create(_) => after(registry, acts.take(i)).next_id != id,
            Act::Resize(resized, device, width, height, to) => resized == id ==> before(
                registry,
                acts,
                id,
                i,
            ).resizes_to(to, device, width, height, registry.deep_capture),
            _ => true,
        }
}

/// The size that the renderer should draw at: what was last asked for, where zero counts as one.
pub open spec fn asked_size(registry: Registry, acts: Seq<Act>, id: u64) -> (u32, u32)
    decreases acts.len(),
{
    if acts.len() == 0 {
        (registry.surfaces[id].active.width, registry.surfaces[id].active.height)
    } else {
        match acts.last() {
            Act::Resize(resized, _, width, height, _) if resized == id => (
                if width == 0 { 1 } else { width },
                if height == 0 { 1 } else { height },
            ),
            _ => asked_size(registry, acts.drop_last(), id),
        }
    }
}

/// The last operation asks for a size other than the renderer draws at.
pub open spec fn resizes(registry: Registry, acts: Seq<Act>, id: u64) -> bool {
    acts.last() matches Act::Resize(resized, _, width, height, _) && resized == id && asked_size(
        registry,
        acts.drop_last(),
        id,
    ) != (width, height)
}

/// How many frames were presented since the size last changed.
pub open spec fn presented(registry: Registry, acts: Seq<Act>, id: u64) -> nat
    decreases acts.len(),
{
    if acts.len() == 0 {
        0
    } else {
        let earlier = presented(registry, acts.drop_last(), id);
        match acts.last() {
            Act::Present(presented, _) if presented == id => earlier + 1,
            _ => if resizes(registry, acts, id) { 0 } else { earlier },
        }
    }
}

/// What an operation on a registry is to the surface under `id`, where a presented frame is known by
/// the place of its operation in the sequence. `None` if it is nothing to it.
pub open spec fn event(registry: Registry, acts: Seq<Act>, id: u64) -> Option<Event> {
    match acts.last() {
        Act::Present(at, submission) if at == id => Some(
            Event::Present(acts.len() - 1, submission),
        ),
        Act::Composite(at) if at == id => Some(Event::Composite),
        Act::SwapReadyDisplay(at) if at == id => Some(Event::SwapReadyDisplay),
        Act::Resize(_, _, _, _, to) if resizes(registry, acts, id) => Some(
            Event::Resize(to.pending->0),
        ),
        Act::Redraw(at, redraw_pending) if at == id => Some(Event::Redraw(redraw_pending)),
        _ => None,
    }
}

/// What happens to the surface under `id` in a sequence of operations.
pub open spec fn events(registry: Registry, acts: Seq<Act>, id: u64) -> Seq<Event>
    decreases acts.len(),
{
    if acts.len() == 0 {
        Seq::empty()
    } else {
        let earlier = events(registry, acts.drop_last(), id);
        match event(registry, acts, id) {
            Some(event) => earlier.push(event),
            None => earlier,
        }
    }
}

/// The view that the renderer draws into before the `i`-th operation.
pub open spec fn drawn(registry: Registry, acts: Seq<Act>, id: u64, i: int) -> wgpu::TextureView {
    let surface = before(registry, acts, id, i);
    if surface.pending is Some {
        surface.pending->0.buffers[surface.pending->0.rendering].view
    } else {
        surface.active.buffers[surface.active.rendering].view
    }
}

/// The surface under an id, just created, with no frame in any buffer.
spec fn started(registry: Registry, id: u64) -> Painted {
    Painted { surface: registry.surfaces[id], active: blank(), pending: blank() }
}

proof fn prefixes(registry: Registry, acts: Seq<Act>, id: u64)
    requires
        keeps(registry, acts, id),
        acts.len() > 0,
    ensures
        keeps(registry, acts.drop_last(), id),
        acts.take(acts.len() - 1) == acts.drop_last(),
        forall|i: int| 0 <= i < acts.len() ==> #[trigger] acts.drop_last().take(i) == acts.take(i),
{
    let earlier = acts.drop_last();
    assert(acts.take(acts.len() - 1) =~= earlier);
    assert forall|i: int| 0 <= i < acts.len() implies #[trigger] earlier.take(i) == acts.take(
        i,
    ) by {
        assert(earlier.take(i) =~= acts.take(i));
    }
    assert forall|i: int| 0 <= i < earlier.len() implies #[trigger] earlier[i] == acts[i] by {}
}

/// The registry does to the surface what happens to it, and nothing else.
proof fn registry_follows_events(registry: Registry, acts: Seq<Act>, id: u64)
    requires
        keeps(registry, acts, id),
    ensures
        ({
            let surface = after(registry, acts).surfaces[id];
            let target = if surface.pending is Some { surface.pending->0 } else { surface.active };
            let happened = events(registry, acts, id);
            &&& after(registry, acts).surfaces.dom().contains(id)
            &&& started(registry, id).after(happened).surface == surface
            &&& history::resizes_are_fresh(started(registry, id), happened, registry.deep_capture)
            &&& surface.valid(registry.deep_capture)
            &&& (target.width, target.height) == asked_size(registry, acts, id)
            &&& target.frame_generation == presented(registry, acts, id)
                % 0x1_0000_0000_0000_0000
        }),
    decreases acts.len(),
{
    let start = started(registry, id);
    let happened = events(registry, acts, id);
    if acts.len() > 0 {
        let earlier = acts.drop_last();
        let last = acts.last();
        prefixes(registry, acts, id);
        registry_follows_events(registry, earlier, id);
        assert(acts[acts.len() - 1] == last);
        assert(before(registry, acts, id, acts.len() - 1) == after(registry, earlier).surfaces[id]);
        let so_far = events(registry, earlier, id);
        if let Some(event) = event(registry, acts, id) {
            assert(happened.drop_last() =~= so_far);
            assert(happened.last() == event);
            assert forall|i: int| 0 <= i < happened.len() implies (
            #[trigger] happened[i] matches Event::Resize(replacement) ==> {
                let surface = start.after(happened.take(i)).surface;
                &&& replacement.unused(registry.deep_capture)
                &&& replacement.format == surface.active.format
                &&& replacement.apart(surface.active)
            }) by {
                if i < so_far.len() {
                    assert(happened.take(i) =~= so_far.take(i));
                    assert(happened[i] == so_far[i]);
                } else {
                    assert(happened.take(i) =~= so_far);
                }
            }
        } else {
            assert(happened == so_far);
        }
    }
    history::surfaces_stay_valid(start, happened, registry.deep_capture);
}

/// Whatever frame a buffer holds was presented, and drawn into the view of that buffer.
spec fn frames_are_in_their_views(registry: Registry, acts: Seq<Act>, id: u64) -> bool {
    let painted = started(registry, id).after(events(registry, acts, id));
    let surface = after(registry, acts).surfaces[id];
    &&& painted.active.len() == 3
    &&& painted.pending.len() == 3
    &&& forall|b: int|
        0 <= b < 3 && (#[trigger] painted.active[b]) is Some ==> was_drawn(
            registry,
            acts,
            id,
            painted.active[b]->0,
            surface.active.buffers[b].view,
        )
    &&& surface.pending is Some ==> forall|b: int|
        0 <= b < 3 && (#[trigger] painted.pending[b]) is Some ==> was_drawn(
            registry,
            acts,
            id,
            painted.pending[b]->0,
            surface.pending->0.buffers[b].view,
        )
}

/// The `frame`-th operation presents a frame, drawn into this view.
pub open spec fn was_drawn(
    registry: Registry,
    acts: Seq<Act>,
    id: u64,
    frame: int,
    view: wgpu::TextureView,
) -> bool {
    &&& 0 <= frame < acts.len()
    &&& acts[frame] matches Act::Present(at, _) && at == id
    &&& drawn(registry, acts, id, frame) == view
}

proof fn frames_stay_in_their_views(registry: Registry, acts: Seq<Act>, id: u64)
    requires
        keeps(registry, acts, id),
    ensures
        frames_are_in_their_views(registry, acts, id),
    decreases acts.len(),
{
    registry_follows_events(registry, acts, id);
    if acts.len() > 0 {
        let start = started(registry, id);
        let earlier = acts.drop_last();
        prefixes(registry, acts, id);
        registry_follows_events(registry, earlier, id);
        frames_stay_in_their_views(registry, earlier, id);
        assert forall|frame: int, view: wgpu::TextureView| #[trigger]
            was_drawn(registry, earlier, id, frame, view) implies was_drawn(
            registry,
            acts,
            id,
            frame,
            view,
        ) by {
            assert(earlier[frame] == acts[frame]);
            assert(earlier.take(frame) == acts.take(frame));
        }
        assert(acts[acts.len() - 1] == acts.last());
        assert(before(registry, acts, id, acts.len() - 1) == after(registry, earlier).surfaces[id]);
        let happened = events(registry, acts, id);
        let so_far = events(registry, earlier, id);
        if let Some(event) = event(registry, acts, id) {
            assert(happened.drop_last() =~= so_far);
            assert(happened.last() == event);
            assert(start.after(happened) == start.after(so_far).step(event));
        }
    }
}

/// Over every sequence of operations on a registry, on this surface and on others, what the
/// compositor reads from is the view into which the frame that should be seen was drawn, and the one
/// that it started with as long as there is none.
///
/// Which one that is [`Expected`] says, by what was presented and painted alone: gated paints
/// without a new frame hold the last one, a renderer that outruns the compositor is shown at its
/// latest frame, and a replacement is not shown before it has a frame.
pub proof fn registry_shows_the_expected_frame(registry: Registry, acts: Seq<Act>, id: u64)
    requires
        keeps(registry, acts, id),
        history::ungated_swaps_are_due(events(registry, acts, id)),
        history::frames_are_noticed(events(registry, acts, id)),
    ensures
        ({
            let active = after(registry, acts).surfaces[id].active;
            let shown = Expected::created().after(events(registry, acts, id)).shown;
            let first = registry.surfaces[id].active;
            &&& shown is Some ==> was_drawn(
                registry,
                acts,
                id,
                shown->0,
                active.buffers[active.display].view,
            )
            &&& shown is None ==> active.buffers[active.display].view
                == first.buffers[first.display].view
        }),
{
    let start = started(registry, id);
    let happened = events(registry, acts, id);
    registry_follows_events(registry, acts, id);
    frames_stay_in_their_views(registry, acts, id);
    history::display_shows_the_expected_frame(start, happened, registry.deep_capture);
    if Expected::created().after(happened).shown is None {
        history::display_starts_with_the_initial_buffer(start, happened, registry.deep_capture);
    }
}

/// Over every sequence of operations on a registry, the surface stays registered and valid, the
/// renderer draws at the size last asked for, the generation counts the frames presented since the
/// size last changed, and the view drawn into is never the one on display.
pub proof fn registry_keeps_size_and_generation(registry: Registry, acts: Seq<Act>, id: u64)
    requires
        keeps(registry, acts, id),
    ensures
        ({
            let surface = after(registry, acts).surfaces[id];
            let target = if surface.pending is Some { surface.pending->0 } else { surface.active };
            &&& after(registry, acts).surfaces.dom().contains(id)
            &&& surface.valid(registry.deep_capture)
            &&& (target.width, target.height) == asked_size(registry, acts, id)
            &&& target.frame_generation == presented(registry, acts, id)
                % 0x1_0000_0000_0000_0000
            &&& target.buffers[target.rendering].view
                != surface.active.buffers[surface.active.display].view
        }),
{
    registry_follows_events(registry, acts, id);
}

} // verus!
