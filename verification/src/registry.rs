//! The registry of all surfaces.

use crate::model;
use crate::model::{BufferSet, Registry, Surface};
use crate::surface_buffers::SurfaceBuffers;
use crate::support::{support, texture_side, texture_usage, Support};
use crate::texture::{adapter_decides, create_surface_buffer, SurfaceBuffer, TextureInfo};
use crate::triple_buffer::TripleBuffer;
use std::collections::hash_map::Entry;
use std::collections::HashMap;
use vstd::prelude::*;

verus! {

broadcast use vstd::std_specs::hash::group_hash_axioms;

/// An opaque identifier for a registered surface.
#[derive(Clone, Copy, Debug, PartialEq, Eq, Hash, Structural)]
pub struct SurfaceId(pub(crate) u64);

impl View for SurfaceId {
    type V = u64;

    closed spec fn view(&self) -> u64 {
        self.0
    }
}

/// Two ids are the same exactly if their numbers are.
pub proof fn surface_ids_are_their_numbers(a: SurfaceId, b: SurfaceId)
    ensures
        a == b <==> a@ == b@,
{
}

/// A surface's displayed texture, with what a copy of its texels into a buffer needs to know.
pub struct SurfaceTextureSnapshot {
    pub texture: wgpu::Texture,
    pub width: u32,
    pub height: u32,
    pub bytes_per_pixel: u32,
}

/// Registry of all active surfaces: maps [`SurfaceId`] to triple-buffered texture sets.
///
/// Every operation takes the registry exclusively and is one step of its state. Threads that share
/// a registry put it behind a lock.
pub struct SurfaceRegistry {
    /// The surfaces by the number of their id.
    surfaces: HashMap<u64, SurfaceBuffers>,
    /// The number of the next id.
    next_id: u64,
    /// Surface textures can be copied from.
    deep_capture: bool,
}

impl View for SurfaceRegistry {
    type V = Registry;

    closed spec fn view(&self) -> Registry {
        Registry {
            surfaces: self.surfaces@.map_values(|surface: SurfaceBuffers| surface@),
            next_id: self.next_id,
            deep_capture: self.deep_capture,
        }
    }
}

/// Whatever `measure` returns for a texture is what `bytes` says of it.
pub open spec fn measures<F: Fn(&wgpu::Texture) -> u64>(
    measure: F,
    bytes: spec_fn(wgpu::Texture) -> nat,
) -> bool {
    forall|texture: wgpu::Texture, n: u64| #[trigger]
        call_ensures(measure, (&texture,), n) ==> n == bytes(texture)
}

/// `measure` can be called on every texture of a set.
pub open spec fn measurable<F: Fn(&wgpu::Texture) -> u64>(measure: F, set: BufferSet) -> bool {
    forall|i: int|
        0 <= i < 3 ==> call_requires(measure, (&(#[trigger] set.buffers[i]).texture,))
}

/// `measure` can be called on every texture of a surface.
pub open spec fn surface_measurable<F: Fn(&wgpu::Texture) -> u64>(
    measure: F,
    surface: Surface,
) -> bool {
    &&& measurable(measure, surface.active)
    &&& surface.pending matches Some(pending) ==> measurable(measure, pending)
}

/// `entries` lists what `map` holds, one entry for each key.
spec fn lists_entries<'a>(
    entries: Seq<(&'a u64, &'a SurfaceBuffers)>,
    map: Map<u64, SurfaceBuffers>,
) -> bool {
    &&& entries.no_duplicates()
    &&& forall|i: int| #![trigger entries[i]]
        0 <= i < entries.len() ==> map.contains_key(*entries[i].0) && map[*entries[i].0]
            == *entries[i].1
    &&& forall|k: u64| #[trigger]
        map.contains_key(k) ==> exists|i: int|
            0 <= i < entries.len() && *(#[trigger] entries[i]).0 == k
}

impl SurfaceRegistry {
    /// Every registered surface is valid: in each texture set the roles are distinct, and all
    /// textures have the set's size and format.
    pub open spec fn wf(&self) -> bool {
        self@.valid()
    }

    /// Creates an empty registry. Its first id has the number one.
    pub fn new() -> (registry: SurfaceRegistry)
        ensures
            registry.wf(),
            registry@ == (Registry { surfaces: Map::empty(), next_id: 1, deep_capture: false }),
    {
        SurfaceRegistry { surfaces: HashMap::new(), next_id: 1, deep_capture: false }
    }

    /// Creates an empty registry whose surface textures can be copied from.
    ///
    /// A deep capture reads the displayed texture back with `copy_texture_to_buffer`, which `wgpu`
    /// rejects for a texture without the `COPY_SRC` usage. Registries that are not captured from
    /// do without it: see [`SurfaceRegistry::new`].
    pub fn with_deep_capture() -> (registry: SurfaceRegistry)
        ensures
            registry.wf(),
            registry@ == (Registry { surfaces: Map::empty(), next_id: 1, deep_capture: true }),
    {
        SurfaceRegistry { surfaces: HashMap::new(), next_id: 1, deep_capture: true }
    }

    /// Creates a new triple-buffered surface and returns its id.
    ///
    /// A width or height of zero counts as one. Ids are numbered upwards, and from zero again after
    /// the largest `u64`; a surface that still has the number is then replaced. The device has to
    /// take the textures: see [`SurfaceRegistry::try_create`].
    pub fn create(
        &mut self,
        device: &wgpu::Device,
        width: u32,
        height: u32,
        format: wgpu::TextureFormat,
    ) -> (id: SurfaceId)
        requires
            old(self).wf(),
            model::can_make(*device, width, height, format, old(self)@.deep_capture),
        ensures
            final(self).wf(),
            id@ == old(self)@.next_id,
            final(self)@ == old(self)@.create(final(self)@.surfaces[id@]),
            old(self)@.apart_from(final(self)@.surfaces[id@]),
            final(self)@.surfaces[id@].pending is None,
            final(self)@.surfaces[id@].active.fresh(
                *device,
                width,
                height,
                format,
                old(self)@.deep_capture,
            ),
    {
        let active = SurfaceRegistry::create_triple_buffer(
            device,
            width,
            height,
            format,
            self.deep_capture,
            self.textures(),
        );
        proof {
            self@.new_sets_are_apart(active@);
        }
        self.register(active)
    }

    /// As [`SurfaceRegistry::create`], for a device that may not take the textures: asks it first,
    /// and does nothing unless it is sure to.
    pub fn try_create(
        &mut self,
        device: &wgpu::Device,
        width: u32,
        height: u32,
        format: wgpu::TextureFormat,
    ) -> (id: Option<SurfaceId>)
        requires
            old(self).wf(),
        ensures
            final(self).wf(),
            id is Some ==> model::can_make(
                *device,
                width,
                height,
                format,
                old(self)@.deep_capture,
            ),
            id is None ==> adapter_decides(*device) || !model::can_make(
                *device,
                width,
                height,
                format,
                old(self)@.deep_capture,
            ),
            match id {
                Some(id) => {
                    &&& id@ == old(self)@.next_id
                    &&& final(self)@ == old(self)@.create(final(self)@.surfaces[id@])
                    &&& old(self)@.apart_from(final(self)@.surfaces[id@])
                    &&& final(self)@.surfaces[id@].pending is None
                    &&& final(self)@.surfaces[id@].active.fresh(
                        *device,
                        width,
                        height,
                        format,
                        old(self)@.deep_capture,
                    )
                },
                None => final(self)@ == old(self)@,
            },
    {
        if support(device, width, height, format, self.deep_capture) == Support::Supported {
            Some(self.create(device, width, height, format))
        } else {
            None
        }
    }

    /// Registers a surface that shows an unused texture set, made as the registry's own are, and
    /// returns its id.
    ///
    /// Together with [`SurfaceRegistry::create_triple_buffer`] this is
    /// [`SurfaceRegistry::create`], for callers that make the textures before they take the
    /// registry. The set has to be apart from what is registered, as every set just made is.
    pub fn register(&mut self, active: TripleBuffer) -> (id: SurfaceId)
        requires
            old(self).wf(),
            active@.unused(old(self)@.deep_capture),
            old(self)@.apart_from((Surface { active: active@, pending: None })),
        ensures
            final(self).wf(),
            id@ == old(self)@.next_id,
            final(self)@ == old(self)@.create((Surface { active: active@, pending: None })),
    {
        let id = SurfaceId(self.next_id);
        let ghost surface = Surface { active: active@, pending: None };
        self.next_id = self.next_id.wrapping_add(1);
        self.surfaces.insert(id.0, SurfaceBuffers::new(active));
        assert(self@ == old(self)@.create(surface));
        proof {
            old(self)@.with_surface_keeps_valid(id@, surface);
            assert(self@.surfaces == old(self)@.with_surface(id@, surface).surfaces);
        }
        id
    }

    /// Swaps the rendering and ready buffers: the external renderer calls this when it has drawn a
    /// frame.
    ///
    /// This is the "present" operation: it makes the new frame available to the compositor and
    /// gives the renderer another buffer to draw into. The submission that draws the frame is kept
    /// with the frame's buffer. Does nothing if the surface is not registered.
    pub fn swap_rendering_ready(&mut self, id: SurfaceId, submission_idx: wgpu::SubmissionIndex)
        requires
            old(self).wf(),
        ensures
            final(self).wf(),
            final(self)@ == old(self)@.replace(
                id@,
                old(self)@.surfaces[id@].present_submission(submission_idx),
            ),
    {
        proof {
            let surface = old(self)@.surfaces[id@];
            surface.operations_stay_within();
            old(self)@.replace_keeps_valid(id@, surface.present_submission(submission_idx));
        }
        if let Some(surface) = self.surface_mut(id) {
            surface.render_target_mut().present_submission(submission_idx);
        }
    }

    /// As [`SurfaceRegistry::swap_rendering_ready`], without a submission to keep.
    ///
    /// Prefer the other: this one is for callers that have no submission index.
    pub fn swap_rendering_ready_no_sync(&mut self, id: SurfaceId)
        requires
            old(self).wf(),
        ensures
            final(self).wf(),
            final(self)@ == old(self)@.replace(id@, old(self)@.surfaces[id@].present()),
    {
        proof {
            let surface = old(self)@.surfaces[id@];
            surface.operations_stay_within();
            old(self)@.replace_keeps_valid(id@, surface.present());
        }
        if let Some(surface) = self.surface_mut(id) {
            surface.render_target_mut().present();
        }
    }

    /// Swaps the ready and display buffers, whether or not there is a new frame, after putting a
    /// replacement set with a complete frame in the place of the active one. All frames presented so
    /// far then count as seen.
    ///
    /// Returns whether a swap occurred, which it does for every registered surface. The device is
    /// not polled: the thread that renders owns it, and polling it from several threads makes them
    /// contend in the driver. `wgpu` itself synchronizes accesses to the textures.
    pub fn swap_ready_display(&mut self, _device: &wgpu::Device, id: SurfaceId) -> (swapped: bool)
        requires
            old(self).wf(),
        ensures
            final(self).wf(),
            swapped == old(self)@.registered(id@),
            final(self)@ == old(self)@.replace(id@, old(self)@.surfaces[id@].swap_ready_display()),
    {
        proof {
            let surface = old(self)@.surfaces[id@];
            surface.operations_stay_within();
            old(self)@.replace_keeps_valid(id@, surface.swap_ready_display());
        }
        if let Some(surface) = self.surface_mut(id) {
            surface.swap_ready_display();
            return true;
        }
        false
    }

    /// Swaps the ready and display buffers only if the external renderer has presented a frame
    /// since the last successful compositor swap, by this method or by
    /// [`SurfaceRegistry::swap_ready_display`].
    ///
    /// Returns whether a swap occurred. If none did, the caller keeps compositing the current
    /// display buffer (see [`SurfaceRegistry::front_view`]). The compositor paints a surface every
    /// frame, whether or not the renderer drew anything; swapping regardless would put a stale
    /// buffer on display whenever the renderer skipped a frame, and the canvas would strobe.
    pub fn swap_ready_display_if_new(&mut self, id: SurfaceId) -> (swapped: bool)
        requires
            old(self).wf(),
        ensures
            final(self).wf(),
            swapped == (old(self)@.registered(id@) && old(self)@.surfaces[id@].has_new_frame()),
            final(self)@ == old(self)@.replace(id@, old(self)@.surfaces[id@].composite()),
    {
        proof {
            let surface = old(self)@.surfaces[id@];
            surface.operations_stay_within();
            old(self)@.replace_keeps_valid(id@, surface.composite());
        }
        if let Some(surface) = self.surface_mut(id) {
            return surface.composite();
        }
        false
    }

    /// The decision of [`SurfaceRegistry::swap_ready_display_if_new`]: the compositor swaps exactly
    /// if the renderer has advanced the generation since the compositor last did.
    ///
    /// Both start at zero, so a paint before the first frame keeps the initial buffer.
    #[inline]
    pub fn should_composite_swap(current_generation: u64, last_composited: u64) -> (swap: bool)
        ensures
            swap == (current_generation != last_composited),
    {
        current_generation != last_composited
    }

    /// The view of the rendering buffer: what the external renderer draws into.
    pub fn back_view(&self, id: SurfaceId) -> (view: Option<wgpu::TextureView>)
        requires
            self.wf(),
        ensures
            view == self@.ask(id@, |surface: Surface| surface.render_target().back().view),
    {
        match self.surface(id) {
            Some(surface) => Some(surface.render_target().back_view()),
            None => None,
        }
    }

    /// The view of the display buffer: what the compositor reads from.
    pub fn front_view(&self, id: SurfaceId) -> (view: Option<wgpu::TextureView>)
        requires
            self.wf(),
        ensures
            view == self@.ask(id@, |surface: Surface| surface.active.front().view),
    {
        match self.surface(id) {
            Some(surface) => Some(surface.active().front_view()),
            None => None,
        }
    }

    /// The view of the display buffer and the dimensions of its texture.
    pub fn front_view_with_size(&self, id: SurfaceId) -> (front: Option<
        (wgpu::TextureView, (u32, u32)),
    >)
        requires
            self.wf(),
        ensures
            front == self@.ask(
                id@,
                |surface: Surface| (surface.active.front().view, surface.active.size()),
            ),
            front matches Some((view, size)) ==> size == model::view_size(view),
    {
        match self.surface(id) {
            Some(surface) => Some((surface.active().front_view(), surface.active().size())),
            None => None,
        }
    }

    /// The view of the rendering buffer and the dimensions of its texture.
    ///
    /// Both come from one state of the surface, so resources made for the size (such as a depth
    /// buffer) match the view exactly.
    pub fn lock_and_get_back_with_size(&self, id: SurfaceId) -> (back: Option<
        (wgpu::TextureView, (u32, u32)),
    >)
        requires
            self.wf(),
        ensures
            back == self@.ask(
                id@,
                |surface: Surface|
                    (surface.render_target().back().view, surface.render_target().size()),
            ),
            back matches Some((view, size)) ==> size == model::view_size(view),
    {
        match self.surface(id) {
            Some(surface) => {
                let target = surface.render_target();
                Some((target.back_view(), target.size()))
            },
            None => None,
        }
    }

    /// Prepares replacement buffers of another size without discarding the displayed frame.
    ///
    /// Returns whether the surface is registered. Nothing changes if the buffers that the renderer
    /// draws into already have this size. If they do not, the device has to take the new textures:
    /// see [`SurfaceRegistry::try_resize`].
    pub fn resize(
        &mut self,
        device: &wgpu::Device,
        id: SurfaceId,
        width: u32,
        height: u32,
    ) -> (resized: bool)
        requires
            old(self).wf(),
            old(self)@.needs_replacement(id@, width, height) ==> model::can_make(
                *device,
                width,
                height,
                old(self)@.surfaces[id@].active.format,
                old(self)@.deep_capture,
            ),
        ensures
            final(self).wf(),
            resized == old(self)@.registered(id@),
            final(self)@ == old(self)@.replace(id@, final(self)@.surfaces[id@]),
            resized ==> old(self)@.surfaces[id@].resizes_to(
                final(self)@.surfaces[id@],
                *device,
                width,
                height,
                old(self)@.deep_capture,
            ),
    {
        let format = match self.surface(id) {
            Some(surface) => {
                let (target_width, target_height) = surface.render_target().size();
                if target_width == width && target_height == height {
                    return true;
                }
                surface.active().format()
            },
            None => return false,
        };
        let replacement = SurfaceRegistry::create_triple_buffer(
            device,
            width,
            height,
            format,
            self.deep_capture,
            self.textures(),
        );
        proof {
            old(self)@.new_replacements_are_apart(id@, replacement@);
            old(self)@.with_surface_keeps_valid(
                id@,
                old(self)@.surfaces[id@].resize(replacement@),
            );
        }
        if let Some(surface) = self.surface_mut(id) {
            surface.replace(replacement);
        }
        true
    }

    /// As [`SurfaceRegistry::resize`], for a device that may not take new textures: asks it first if
    /// any are needed, and does nothing and returns `None` unless it is sure to.
    pub fn try_resize(
        &mut self,
        device: &wgpu::Device,
        id: SurfaceId,
        width: u32,
        height: u32,
    ) -> (resized: Option<bool>)
        requires
            old(self).wf(),
        ensures
            final(self).wf(),
            resized is None ==> {
                &&& old(self)@.needs_replacement(id@, width, height)
                &&& adapter_decides(*device) || !model::can_make(
                    *device,
                    width,
                    height,
                    old(self)@.surfaces[id@].active.format,
                    old(self)@.deep_capture,
                )
            },
            resized is Some && old(self)@.needs_replacement(id@, width, height)
                ==> model::can_make(
                *device,
                width,
                height,
                old(self)@.surfaces[id@].active.format,
                old(self)@.deep_capture,
            ),
            match resized {
                Some(resized) => {
                    &&& resized == old(self)@.registered(id@)
                    &&& final(self)@ == old(self)@.replace(id@, final(self)@.surfaces[id@])
                    &&& resized ==> old(self)@.surfaces[id@].resizes_to(
                        final(self)@.surfaces[id@],
                        *device,
                        width,
                        height,
                        old(self)@.deep_capture,
                    )
                },
                None => final(self)@ == old(self)@,
            },
    {
        if let Some(surface) = self.surface(id) {
            let (target_width, target_height) = surface.render_target().size();
            if target_width != width || target_height != height {
                let format = surface.active().format();
                if support(device, width, height, format, self.deep_capture)
                    != Support::Supported {
                    return None;
                }
            }
        }
        Some(self.resize(device, id, width, height))
    }

    /// The current size of a surface: that of the buffers that the renderer draws into.
    pub fn size(&self, id: SurfaceId) -> (size: Option<(u32, u32)>)
        ensures
            size == self@.ask(id@, |surface: Surface| surface.render_target().size()),
    {
        match self.surface(id) {
            Some(surface) => Some(surface.render_target().size()),
            None => None,
        }
    }

    /// The `(rendering, ready, display)` roles in the buffers that the renderer draws into.
    pub fn roles(&self, id: SurfaceId) -> (roles: Option<(u8, u8, u8)>)
        ensures
            roles is Some == self@.registered(id@),
            roles matches Some((rendering, ready, display)) ==> {
                let target = self@.surfaces[id@].render_target();
                (rendering as int, ready as int, display as int) == (
                    target.rendering,
                    target.ready,
                    target.display,
                )
            },
    {
        match self.surface(id) {
            Some(surface) => Some(surface.render_target().roles()),
            None => None,
        }
    }

    /// The texture format of a surface.
    pub fn format(&self, id: SurfaceId) -> (format: Option<wgpu::TextureFormat>)
        ensures
            format == self@.ask(id@, |surface: Surface| surface.active.format),
    {
        match self.surface(id) {
            Some(surface) => Some(surface.active().format()),
            None => None,
        }
    }

    /// The displayed texture of a surface, for a deep capture.
    ///
    /// [`SurfaceRegistry::front_view`] is enough to bind the texture in a pipeline, but
    /// `copy_texture_to_buffer` takes the texture itself, and its caller needs the dimensions and
    /// the texel size to lay out the rows. `texel_size` gives the bytes per texel of a format.
    pub fn front_texture_snapshot<F: Fn(wgpu::TextureFormat) -> u64>(
        &self,
        id: SurfaceId,
        texel_size: F,
    ) -> (snapshot: Option<SurfaceTextureSnapshot>)
        requires
            self.wf(),
            self@.registered(id@) ==> call_requires(
                texel_size,
                (self@.surfaces[id@].active.format,),
            ),
        ensures
            snapshot is Some == self@.registered(id@),
            snapshot matches Some(snapshot) ==> {
                let active = self@.surfaces[id@].active;
                &&& snapshot.texture == active.front().texture
                &&& (snapshot.width, snapshot.height) == active.size()
                &&& (snapshot.width, snapshot.height) == model::texture_size(snapshot.texture)
                &&& exists|size: u64| #[trigger]
                    call_ensures(texel_size, (active.format,), size)
                        && snapshot.bytes_per_pixel == size as u32
            },
    {
        match self.surface(id) {
            Some(surface) => {
                let active = surface.active();
                let (width, height) = active.size();
                Some(
                    SurfaceTextureSnapshot {
                        texture: active.front_texture(),
                        width,
                        height,
                        bytes_per_pixel: texel_size(active.format()) as u32,
                    },
                )
            },
            None => None,
        }
    }

    /// Removes a surface from the registry.
    pub fn remove(&mut self, id: SurfaceId)
        requires
            old(self).wf(),
        ensures
            final(self).wf(),
            final(self)@ == old(self)@.remove(id@),
    {
        self.surfaces.remove(&id.0);
        assert(self@ == old(self)@.remove(id@));
    }

    /// Sets the redraw pending flag and returns its previous value, `false` if the surface is not
    /// registered. Coalesces redraw requests: only the caller that finds it unset goes on.
    pub fn set_redraw_pending(&mut self, id: SurfaceId) -> (previous: bool)
        requires
            old(self).wf(),
        ensures
            final(self).wf(),
            previous == old(self)@.redraw_pending(id@),
            final(self)@ == old(self)@.replace(
                id@,
                old(self)@.surfaces[id@].with_redraw_pending(true),
            ),
    {
        proof {
            let surface = old(self)@.surfaces[id@];
            surface.operations_stay_within();
            old(self)@.replace_keeps_valid(id@, surface.with_redraw_pending(true));
        }
        if let Some(surface) = self.surface_mut(id) {
            surface.render_target_mut().replace_redraw_pending(true)
        } else {
            false
        }
    }

    /// Clears the redraw pending flag. The compositor calls this after consuming a frame.
    pub fn clear_redraw_pending(&mut self, id: SurfaceId)
        requires
            old(self).wf(),
        ensures
            final(self).wf(),
            final(self)@ == old(self)@.replace(
                id@,
                old(self)@.surfaces[id@].with_redraw_pending(false),
            ),
    {
        proof {
            let surface = old(self)@.surfaces[id@];
            surface.operations_stay_within();
            old(self)@.replace_keeps_valid(id@, surface.with_redraw_pending(false));
        }
        if let Some(surface) = self.surface_mut(id) {
            surface.render_target_mut().replace_redraw_pending(false);
        }
    }

    /// The ids of all surfaces with a pending redraw, each once, in no particular order.
    pub fn get_pending_surfaces(&self) -> (ids: Vec<SurfaceId>)
        ensures
            ids@.no_duplicates(),
            forall|id: SurfaceId| #[trigger]
                ids@.contains(id) <==> self@.redraw_pending(id@),
    {
        let mut ids: Vec<SurfaceId> = Vec::new();
        let ghost mut seen: Set<u64> = Set::empty();
        for (id, surface) in it: self.surfaces.iter()
            invariant
                lists_entries(it.seq(), self.surfaces@),
                forall|k: u64| #[trigger]
                    seen.contains(k) <==> exists|i: int|
                        0 <= i < it.index() && *(#[trigger] it.seq()[i]).0 == k,
                ids@.no_duplicates(),
                forall|id: SurfaceId| #[trigger]
                    ids@.contains(id) <==> seen.contains(id.0) && self@.redraw_pending(id.0),
        {
            assert(!seen.contains(*id));
            let ghost before = ids@;
            if surface.render_target().redraw_pending() {
                assert(!before.contains(SurfaceId(*id)));
                ids.push(SurfaceId(*id));
                assert(ids@.last() == SurfaceId(*id));
                assert(forall|i: int| 0 <= i < before.len() ==> ids@[i] == before[i]);
            }
            proof {
                seen = seen.insert(*id);
                assert forall|other: SurfaceId| #[trigger] ids@.contains(other) <==> seen.contains(
                    other.0,
                ) && self@.redraw_pending(other.0) by {
                    if before.contains(other) {
                        let i = choose|i: int| 0 <= i < before.len() && before[i] == other;
                        assert(ids@[i] == other);
                    }
                }
            }
        }
        assert forall|id: SurfaceId| self@.redraw_pending(id@) implies seen.contains(id.0) by {
            assert(self.surfaces@.contains_key(id.0));
        }
        ids
    }

    /// The memory of every registered surface's textures, three for each texture set, where
    /// `texture_memory_bytes` gives that of one.
    ///
    /// The sum wraps around at the bound of `u64`.
    pub fn memory_usage<F: Fn(&wgpu::Texture) -> u64>(&self, texture_memory_bytes: F) -> (total:
        u64)
        requires
            forall|id: u64| #[trigger]
                self@.registered(id) ==> surface_measurable(
                    texture_memory_bytes,
                    self@.surfaces[id],
                ),
        ensures
            forall|bytes: spec_fn(wgpu::Texture) -> nat| #[trigger]
                measures(texture_memory_bytes, bytes) ==> model::wraps_to(
                    self@.memory(bytes),
                    total,
                ),
    {
        let mut total: u64 = 0;
        let ghost mut seen: Set<u64> = Set::empty();
        for (id, surface) in it: self.surfaces.iter()
            invariant
                forall|id: u64| #[trigger]
                    self@.registered(id) ==> surface_measurable(
                        texture_memory_bytes,
                        self@.surfaces[id],
                    ),
                lists_entries(it.seq(), self.surfaces@),
                forall|k: u64| #[trigger]
                    seen.contains(k) <==> exists|i: int|
                        0 <= i < it.index() && *(#[trigger] it.seq()[i]).0 == k,
                seen.finite(),
                forall|bytes: spec_fn(wgpu::Texture) -> nat| #[trigger]
                    measures(texture_memory_bytes, bytes) ==> model::wraps_to(
                        self@.memory_of(seen, bytes),
                        total,
                    ),
        {
            assert(!seen.contains(*id));
            assert(self@.registered(*id));
            let more = SurfaceRegistry::surface_memory_usage(surface, &texture_memory_bytes);
            proof {
                assert(self@.surfaces[*id] == surface@);
                assert forall|bytes: spec_fn(wgpu::Texture) -> nat| #[trigger]
                    measures(texture_memory_bytes, bytes) implies model::wraps_to(
                    self@.memory_of(seen.insert(*id), bytes),
                    total.wrapping_add(more),
                ) by {
                    self@.memory_of_one_more(seen, *id, bytes);
                }
                seen = seen.insert(*id);
            }
            total = total.wrapping_add(more);
        }
        assert(seen =~= self@.surfaces.dom());
        total
    }

    /// The memory of the textures of one surface.
    fn surface_memory_usage<F: Fn(&wgpu::Texture) -> u64>(
        surface: &SurfaceBuffers,
        texture_memory_bytes: &F,
    ) -> (total: u64)
        requires
            surface_measurable(*texture_memory_bytes, surface@),
        ensures
            forall|bytes: spec_fn(wgpu::Texture) -> nat| #[trigger]
                measures(*texture_memory_bytes, bytes) ==> model::wraps_to(
                    surface@.memory(bytes),
                    total,
                ),
    {
        let active = SurfaceRegistry::set_memory_usage(surface.active(), texture_memory_bytes);
        match surface.pending() {
            Some(set) => active.wrapping_add(
                SurfaceRegistry::set_memory_usage(set, texture_memory_bytes),
            ),
            None => active,
        }
    }

    /// The memory of the three textures of one set.
    fn set_memory_usage<F: Fn(&wgpu::Texture) -> u64>(
        set: &TripleBuffer,
        texture_memory_bytes: &F,
    ) -> (total: u64)
        requires
            measurable(*texture_memory_bytes, set@),
        ensures
            forall|bytes: spec_fn(wgpu::Texture) -> nat| #[trigger]
                measures(*texture_memory_bytes, bytes) ==> model::wraps_to(
                    model::set_memory(set@, bytes),
                    total,
                ),
    {
        let first = texture_memory_bytes(set.texture(0));
        let second = texture_memory_bytes(set.texture(1));
        let third = texture_memory_bytes(set.texture(2));
        first.wrapping_add(second).wrapping_add(third)
    }

    /// The textures of all registered surfaces, in no particular order.
    pub fn textures(&self) -> (textures: Vec<wgpu::Texture>)
        ensures
            forall|texture: wgpu::Texture| #[trigger]
                textures@.contains(texture) <==> self@.has_texture(texture),
    {
        let mut textures: Vec<wgpu::Texture> = Vec::new();
        for (id, surface) in it: self.surfaces.iter()
            invariant
                lists_entries(it.seq(), self.surfaces@),
                forall|texture: wgpu::Texture| #[trigger]
                    textures@.contains(texture) ==> self@.has_texture(texture),
                forall|i: int, texture: wgpu::Texture|
                    0 <= i < it.index() && #[trigger] self@.surfaces[*it.seq()[i].0].textures().contains(
                        texture,
                    ) ==> textures@.contains(texture),
        {
            let ghost before = textures@;
            let mut more = surface.textures();
            let ghost added = more@;
            textures.append(&mut more);
            proof {
                assert(self@.surfaces[*id] == surface@);
                assert forall|texture: wgpu::Texture| #[trigger]
                    textures@.contains(texture) <==> before.contains(texture) || added.contains(
                    texture,
                ) by {
                    if before.contains(texture) {
                        let i = choose|i: int| 0 <= i < before.len() && before[i] == texture;
                        assert(textures@[i] == texture);
                    }
                    if added.contains(texture) {
                        let i = choose|i: int| 0 <= i < added.len() && added[i] == texture;
                        assert(textures@[before.len() + i] == texture);
                    }
                }
                assert forall|texture: wgpu::Texture| #[trigger]
                    added.contains(texture) implies self@.has_texture(texture) by {
                    assert(self@.registered(*id));
                    assert(self@.surfaces[*id].textures().contains(texture));
                }
            }
        }
        assert forall|texture: wgpu::Texture| #[trigger]
            self@.has_texture(texture) implies textures@.contains(texture) by {
            let id = choose|id: u64|
                self@.registered(id) && (#[trigger] self@.surfaces[id]).textures().contains(texture);
            assert(self.surfaces@.contains_key(id));
        }
        textures
    }

    /// The generation of a surface: how many frames were presented into the buffers that the
    /// renderer draws into. `None` if the surface is not registered.
    pub fn frame_generation(&self, id: SurfaceId) -> (generation: Option<u64>)
        ensures
            generation == self@.ask(
                id@,
                |surface: Surface| surface.render_target().frame_generation,
            ),
    {
        match self.surface(id) {
            Some(surface) => Some(surface.render_target().frame_generation()),
            None => None,
        }
    }

    /// The surface registered under `id`, to be read.
    fn surface(&self, id: SurfaceId) -> (surface: Option<&SurfaceBuffers>)
        ensures
            match surface {
                Some(surface) => {
                    &&& self@.surfaces.contains_key(id@)
                    &&& surface@ == self@.surfaces[id@]
                },
                None => !self@.surfaces.contains_key(id@),
            },
    {
        self.surfaces.get(&id.0)
    }

    /// The surface registered under `id`, to be changed.
    fn surface_mut(&mut self, id: SurfaceId) -> (surface: Option<&mut SurfaceBuffers>)
        ensures
            match surface {
                Some(surface) => {
                    &&& old(self)@.surfaces.contains_key(id@)
                    &&& surface@ == old(self)@.surfaces[id@]
                    &&& final(self)@ == old(self)@.with_surface(id@, final(surface)@)
                },
                None => {
                    &&& !old(self)@.surfaces.contains_key(id@)
                    &&& final(self)@ == old(self)@
                },
            },
    {
        match self.surfaces.entry(id.0) {
            Entry::Occupied(entry) => Some(entry.into_mut()),
            Entry::Vacant(_) => None,
        }
    }

    /// Makes three textures of one size and format, each with its view, apart from the `others`.
    ///
    /// A deep capture needs them to be usable as the source of a copy.
    pub fn create_triple_buffer(
        device: &wgpu::Device,
        width: u32,
        height: u32,
        format: wgpu::TextureFormat,
        deep_capture: bool,
        others: Vec<wgpu::Texture>,
    ) -> (set: TripleBuffer)
        requires
            model::can_make(*device, width, height, format, deep_capture),
        ensures
            set@.fresh(*device, width, height, format, deep_capture),
            forall|i: int|
                0 <= i < 3 ==> !others@.contains((#[trigger] set@.buffers[i]).texture),
    {
        let w = texture_side(width);
        let h = texture_side(height);
        let info = TextureInfo {
            label: "surface_buffer_0",
            width: w,
            height: h,
            depth_or_array_layers: 1,
            mip_level_count: 1,
            sample_count: 1,
            format,
            usage: texture_usage(deep_capture),
        };
        let mut apart = others;
        let buffer0 = create_surface_buffer(device, info, &apart);
        apart.push(buffer0.texture.clone());
        let buffer1 = create_surface_buffer(
            device,
            TextureInfo { label: "surface_buffer_1", ..info },
            &apart,
        );
        apart.push(buffer1.texture.clone());
        let buffer2 = create_surface_buffer(
            device,
            TextureInfo { label: "surface_buffer_2", ..info },
            &apart,
        );
        proof {
            let with0 = others@.push(buffer0.texture);
            assert(apart@ == with0.push(buffer1.texture));
            assert(with0[others@.len() as int] == buffer0.texture);
            assert(apart@[others@.len() as int] == buffer0.texture);
            assert(apart@[others@.len() as int + 1] == buffer1.texture);
            assert forall|other: wgpu::Texture| #[trigger] others@.contains(other) implies
                with0.contains(other) && apart@.contains(other) by {
                let i = choose|i: int| 0 <= i < others@.len() && others@[i] == other;
                assert(with0[i] == other);
                assert(apart@[i] == other);
            }
        }
        let buffers: [SurfaceBuffer; 3] = [buffer0, buffer1, buffer2];
        TripleBuffer::from_buffers(buffers, w, h, format)
    }
}

} // verus!
