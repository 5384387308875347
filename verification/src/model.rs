//! Mathematical models of the registry and of what it holds.
//!
//! Every contract of the library is stated over these: what a value is, and what each operation
//! makes of it.

use crate::texture::{
    allows, limits_of, made_with, viewed, within_limits, SurfaceBuffer, TextureInfo,
};
use vstd::prelude::*;

verus! {

/// The `COPY_SRC` bit of `wgpu::TextureUsages`.
pub const COPY_SRC: u32 = 1;

/// The `TEXTURE_BINDING` bit of `wgpu::TextureUsages`.
pub const TEXTURE_BINDING: u32 = 4;

/// The `RENDER_ATTACHMENT` bit of `wgpu::TextureUsages`.
pub const RENDER_ATTACHMENT: u32 = 16;

/// The three roles are held by three different buffers out of three.
pub open spec fn distinct_roles(rendering: int, ready: int, display: int) -> bool {
    &&& 0 <= rendering < 3
    &&& 0 <= ready < 3
    &&& 0 <= display < 3
    &&& rendering != ready
    &&& ready != display
    &&& display != rendering
}

/// The state that holds three roles, two bits for each.
pub open spec fn packed(rendering: int, ready: int, display: int) -> int {
    16 * display + 4 * ready + rendering
}

/// The `(rendering, ready, display)` roles in a state.
pub open spec fn unpacked(state: int) -> (int, int, int) {
    (state % 4, state / 4 % 4, state / 16 % 4)
}

/// One more than `count`, starting again at zero after the largest `u64`.
pub open spec fn next_count(count: u64) -> u64 {
    if count == u64::MAX {
        0
    } else {
        (count + 1) as u64
    }
}

/// A side length as the GPU takes it: never zero.
pub open spec fn clamped(length: u32) -> u32 {
    if length == 0 {
        1
    } else {
        length
    }
}

/// What a surface texture may be used for: a render target that can be sampled, and that can also
/// be copied from where deep captures are wanted.
pub open spec fn surface_usage(deep_capture: bool) -> u32 {
    if deep_capture {
        (RENDER_ATTACHMENT + TEXTURE_BINDING + COPY_SRC) as u32
    } else {
        (RENDER_ATTACHMENT + TEXTURE_BINDING) as u32
    }
}

/// The device takes the textures of a surface of this size and format.
pub open spec fn can_make(
    device: wgpu::Device,
    width: u32,
    height: u32,
    format: wgpu::TextureFormat,
    deep_capture: bool,
) -> bool {
    &&& within_limits(limits_of(device), clamped(width), clamped(height))
    &&& allows(device, format, surface_usage(deep_capture))
}

/// The label of the `i`-th texture of a set.
pub open spec fn buffer_label(i: int) -> Seq<char> {
    if i == 0 {
        "surface_buffer_0"@
    } else if i == 1 {
        "surface_buffer_1"@
    } else {
        "surface_buffer_2"@
    }
}

/// `info` describes the `i`-th texture of a set: plain, two-dimensional, of the set's size and
/// format.
pub open spec fn surface_texture_info(
    info: TextureInfo,
    i: int,
    width: u32,
    height: u32,
    format: wgpu::TextureFormat,
    deep_capture: bool,
) -> bool {
    &&& info.label@ == buffer_label(i)
    &&& info.width == width
    &&& info.height == height
    &&& info.depth_or_array_layers == 1
    &&& info.mip_level_count == 1
    &&& info.sample_count == 1
    &&& info.format == format
    &&& info.usage == surface_usage(deep_capture)
}

/// The dimensions that the texture of a view was made with.
pub open spec fn view_size(view: wgpu::TextureView) -> (u32, u32) {
    texture_size(viewed(view))
}

/// The dimensions that a texture was made with.
pub open spec fn texture_size(texture: wgpu::Texture) -> (u32, u32) {
    (made_with(texture).1.width, made_with(texture).1.height)
}

/// Three buffers of one size and format, and the role that each of them plays.
#[verifier::ext_equal]
pub struct BufferSet {
    /// The buffers, with their textures and views.
    pub buffers: Seq<SurfaceBuffer>,
    /// The buffer that the external renderer draws into.
    pub rendering: int,
    /// The buffer with the latest complete frame.
    pub ready: int,
    /// The buffer that the compositor reads from.
    pub display: int,
    /// For each buffer the GPU submission of its last frame, as far as one was given.
    pub submissions: Seq<Option<wgpu::SubmissionIndex>>,
    /// A redraw was asked for and not yet consumed.
    pub redraw_pending: bool,
    /// How many frames were presented.
    pub frame_generation: u64,
    /// The value of `frame_generation` when the compositor last swapped into `display`.
    pub last_composited_generation: u64,
    pub width: u32,
    pub height: u32,
    pub format: wgpu::TextureFormat,
}

impl BufferSet {
    /// No two roles fall to one buffer.
    pub open spec fn roles_distinct(self) -> bool {
        distinct_roles(self.rendering, self.ready, self.display)
    }

    /// The roles are distinct, the textures are three, every texture was made with the set's size
    /// and format, and every view is one of its buffer's texture.
    pub open spec fn valid(self, deep_capture: bool) -> bool {
        &&& self.buffers.len() == 3
        &&& self.submissions.len() == 3
        &&& self.roles_distinct()
        &&& self.width > 0
        &&& self.height > 0
        &&& forall|i: int|
            0 <= i < 3 ==> {
                let buffer = #[trigger] self.buffers[i];
                &&& viewed(buffer.view) == buffer.texture
                &&& surface_texture_info(
                    made_with(buffer.texture).1,
                    i,
                    self.width,
                    self.height,
                    self.format,
                    deep_capture,
                )
            }
        &&& forall|i: int, j: int|
            0 <= i < j < 3 ==> (#[trigger] self.buffers[i]).texture != (
            #[trigger] self.buffers[j]).texture
    }

    /// No texture is in both sets.
    pub open spec fn apart(self, other: BufferSet) -> bool {
        forall|i: int, j: int|
            0 <= i < 3 && 0 <= j < 3 ==> (#[trigger] self.buffers[i]).texture != (
            #[trigger] other.buffers[j]).texture
    }

    /// The three textures.
    pub open spec fn textures(self) -> Seq<wgpu::Texture> {
        seq![self.buffers[0].texture, self.buffers[1].texture, self.buffers[2].texture]
    }

    /// Nothing was presented into the set, shown of it or asked of it.
    pub open spec fn unused(self, deep_capture: bool) -> bool {
        &&& self.valid(deep_capture)
        &&& self.rendering == 0
        &&& self.ready == 1
        &&& self.display == 2
        &&& self.submissions =~= seq![None, None, None]
        &&& !self.redraw_pending
        &&& self.frame_generation == 0
        &&& self.last_composited_generation == 0
    }

    /// An unused set, just made on `device` for the requested size.
    pub open spec fn fresh(
        self,
        device: wgpu::Device,
        width: u32,
        height: u32,
        format: wgpu::TextureFormat,
        deep_capture: bool,
    ) -> bool {
        &&& self.unused(deep_capture)
        &&& forall|i: int|
            0 <= i < 3 ==> made_with((#[trigger] self.buffers[i]).texture).0 == device
        &&& self.width == clamped(width)
        &&& self.height == clamped(height)
        &&& self.format == format
    }

    /// A frame was presented since the compositor last swapped one in.
    pub open spec fn has_new_frame(self) -> bool {
        self.frame_generation != self.last_composited_generation
    }

    /// The rendering and ready buffers exchange their roles.
    pub open spec fn swap_rendering_ready(self) -> BufferSet {
        BufferSet { rendering: self.ready, ready: self.rendering, ..self }
    }

    /// The ready and display buffers exchange their roles.
    pub open spec fn swap_ready_display(self) -> BufferSet {
        BufferSet { ready: self.display, display: self.ready, ..self }
    }

    /// The frame in the rendering buffer is handed over, and counted.
    pub open spec fn present(self) -> BufferSet {
        BufferSet {
            frame_generation: next_count(self.frame_generation),
            ..self.swap_rendering_ready()
        }
    }

    /// As `present`, with the submission that draws the frame noted for the rendering buffer.
    pub open spec fn present_submission(self, submission: wgpu::SubmissionIndex) -> BufferSet {
        BufferSet {
            submissions: self.submissions.update(self.rendering, Some(submission)),
            ..self
        }.present()
    }

    /// The ready buffer goes on display, and with it all that was presented is seen.
    pub open spec fn show(self) -> BufferSet {
        BufferSet {
            last_composited_generation: self.frame_generation,
            ..self.swap_ready_display()
        }
    }

    /// The ready frame goes on display if it is new; otherwise nothing changes.
    pub open spec fn composite(self) -> BufferSet {
        if self.has_new_frame() {
            self.show()
        } else {
            self
        }
    }

    pub open spec fn with_redraw_pending(self, redraw_pending: bool) -> BufferSet {
        BufferSet { redraw_pending, ..self }
    }

    pub open spec fn size(self) -> (u32, u32) {
        (self.width, self.height)
    }

    pub open spec fn back(self) -> SurfaceBuffer {
        self.buffers[self.rendering]
    }

    pub open spec fn front(self) -> SurfaceBuffer {
        self.buffers[self.display]
    }
}

/// The set on display, and a replacement that waits for its first frame.
#[verifier::ext_equal]
pub struct Surface {
    pub active: BufferSet,
    pub pending: Option<BufferSet>,
}

impl Surface {
    /// In neither set two roles fall to one buffer.
    pub open spec fn roles_distinct(self) -> bool {
        &&& self.active.roles_distinct()
        &&& self.pending matches Some(pending) ==> pending.roles_distinct()
    }

    /// Both sets are valid and have no texture in common, and the compositor has not shown anything
    /// of the replacement.
    pub open spec fn valid(self, deep_capture: bool) -> bool {
        &&& self.active.valid(deep_capture)
        &&& self.pending matches Some(pending) ==> {
            &&& pending.valid(deep_capture)
            &&& pending.format == self.active.format
            &&& pending.last_composited_generation == 0
            &&& pending.apart(self.active)
        }
    }

    /// The set that the external renderer draws into.
    pub open spec fn render_target(self) -> BufferSet {
        match self.pending {
            Some(pending) => pending,
            None => self.active,
        }
    }

    /// This surface with another set in the place of its render target.
    pub open spec fn with_render_target(self, target: BufferSet) -> Surface {
        match self.pending {
            Some(_) => Surface { pending: Some(target), ..self },
            None => Surface { active: target, ..self },
        }
    }

    /// The replacement becomes the active set once it has a new frame.
    pub open spec fn promote(self) -> Surface {
        match self.pending {
            Some(pending) => if pending.has_new_frame() {
                Surface { active: pending, pending: None }
            } else {
                self
            },
            None => self,
        }
    }

    /// `replacement` waits for its first frame, in the place of any that waits already.
    pub open spec fn resize(self, replacement: BufferSet) -> Surface {
        Surface { pending: Some(replacement), ..self }
    }

    /// `to` is this surface, asked to take the given size: the same if its render target has that
    /// size, or else with a fresh replacement made of textures that the surface did not have.
    pub open spec fn resizes_to(
        self,
        to: Surface,
        device: wgpu::Device,
        width: u32,
        height: u32,
        deep_capture: bool,
    ) -> bool {
        if self.render_target().size() == (width, height) {
            to == self
        } else {
            &&& to.pending matches Some(replacement)
            &&& to == self.resize(replacement)
            &&& replacement.fresh(device, width, height, self.active.format, deep_capture)
            &&& replacement.apart(self.active)
            &&& self.pending matches Some(pending) ==> replacement.apart(pending)
        }
    }

    pub open spec fn present(self) -> Surface {
        self.with_render_target(self.render_target().present())
    }

    pub open spec fn present_submission(self, submission: wgpu::SubmissionIndex) -> Surface {
        self.with_render_target(self.render_target().present_submission(submission))
    }

    /// The compositor's swap, whether or not there is a new frame.
    pub open spec fn swap_ready_display(self) -> Surface {
        let promoted = self.promote();
        Surface { active: promoted.active.show(), ..promoted }
    }

    /// There is a new frame in the set that the compositor is going to show.
    pub open spec fn has_new_frame(self) -> bool {
        self.promote().active.has_new_frame()
    }

    /// The compositor's swap, held back until there is a new frame.
    pub open spec fn composite(self) -> Surface {
        let promoted = self.promote();
        Surface { active: promoted.active.composite(), ..promoted }
    }

    pub open spec fn with_redraw_pending(self, redraw_pending: bool) -> Surface {
        self.with_render_target(self.render_target().with_redraw_pending(redraw_pending))
    }

    /// The textures of the active set and of the replacement, if one waits.
    pub open spec fn textures(self) -> Seq<wgpu::Texture> {
        match self.pending {
            Some(pending) => self.active.textures() + pending.textures(),
            None => self.active.textures(),
        }
    }

    /// No texture is in both surfaces.
    pub open spec fn apart(self, other: Surface) -> bool {
        forall|texture: wgpu::Texture|
            !(#[trigger] self.textures().contains(texture) && #[trigger] other.textures().contains(
                texture,
            ))
    }

    /// Every texture of this surface is one of the other.
    pub open spec fn within(self, other: Surface) -> bool {
        forall|texture: wgpu::Texture| #[trigger]
            self.textures().contains(texture) ==> other.textures().contains(texture)
    }

    /// The buffers of both sets are among the textures.
    pub proof fn buffers_are_listed(self)
        ensures
            forall|i: int|
                0 <= i < 3 ==> self.textures().contains((#[trigger] self.active.buffers[i]).texture),
            self.pending matches Some(pending) ==> forall|i: int|
                0 <= i < 3 ==> self.textures().contains((#[trigger] pending.buffers[i]).texture),
    {
        let listed = self.textures();
        assert forall|i: int| 0 <= i < 3 implies listed.contains(
            (#[trigger] self.active.buffers[i]).texture,
        ) by {
            assert(listed[i] == self.active.buffers[i].texture);
        }
        if let Some(pending) = self.pending {
            assert forall|i: int| 0 <= i < 3 implies listed.contains(
                (#[trigger] pending.buffers[i]).texture,
            ) by {
                assert(listed[3 + i] == pending.buffers[i].texture);
            }
        }
    }

    /// Whatever is among the textures is that of a buffer.
    pub proof fn listed_textures_are_buffers(self, texture: wgpu::Texture)
        requires
            self.textures().contains(texture),
        ensures
            ({
                ||| exists|i: int|
                    0 <= i < 3 && (#[trigger] self.active.buffers[i]).texture == texture
                ||| self.pending is Some && exists|i: int|
                    0 <= i < 3 && (#[trigger] self.pending->0.buffers[i]).texture == texture
            }),
    {
        let listed = self.textures();
        let i = choose|i: int| 0 <= i < listed.len() && listed[i] == texture;
        if i < 3 {
            assert(self.active.buffers[i].texture == texture);
        } else {
            assert(self.pending->0.buffers[i - 3].texture == texture);
        }
    }

    /// Presents, swaps and redraw requests bring in no texture.
    pub proof fn operations_stay_within(self)
        ensures
            self.present().within(self),
            forall|submission: wgpu::SubmissionIndex| #[trigger]
                self.present_submission(submission).within(self),
            self.swap_ready_display().within(self),
            self.composite().within(self),
            forall|redraw_pending: bool| #[trigger]
                self.with_redraw_pending(redraw_pending).within(self),
    {
        assert(self.present().textures() =~= self.textures());
        assert forall|submission: wgpu::SubmissionIndex| #[trigger]
            self.present_submission(submission).within(self) by {
            assert(self.present_submission(submission).textures() =~= self.textures());
        }
        assert forall|redraw_pending: bool| #[trigger]
            self.with_redraw_pending(redraw_pending).within(self) by {
            assert(self.with_redraw_pending(redraw_pending).textures() =~= self.textures());
        }
        let promoted = self.promote();
        assert(self.swap_ready_display().textures() =~= promoted.textures());
        assert(self.composite().textures() =~= promoted.textures());
        assert forall|texture: wgpu::Texture| #[trigger]
            promoted.textures().contains(texture) implies self.textures().contains(texture) by {
            promoted.listed_textures_are_buffers(texture);
            self.buffers_are_listed();
        }
    }

    /// A resize brings in the textures of the replacement alone.
    pub proof fn resize_brings_in_the_replacement(self, replacement: BufferSet)
        ensures
            forall|texture: wgpu::Texture| #[trigger]
                self.resize(replacement).textures().contains(texture) ==> {
                    ||| self.textures().contains(texture)
                    ||| exists|i: int|
                        0 <= i < 3 && (#[trigger] replacement.buffers[i]).texture == texture
                },
    {
        assert forall|texture: wgpu::Texture| #[trigger]
            self.resize(replacement).textures().contains(texture) implies {
            ||| self.textures().contains(texture)
            ||| exists|i: int| 0 <= i < 3 && (#[trigger] replacement.buffers[i]).texture == texture
        } by {
            self.resize(replacement).listed_textures_are_buffers(texture);
            self.buffers_are_listed();
        }
    }

    /// How much memory the surface's textures take, where `bytes` says it of one.
    pub open spec fn memory(self, bytes: spec_fn(wgpu::Texture) -> nat) -> nat {
        set_memory(self.active, bytes) + match self.pending {
            Some(pending) => set_memory(pending, bytes),
            None => 0,
        }
    }
}

/// How much memory the three textures of a set take, where `bytes` says it of one.
pub open spec fn set_memory(set: BufferSet, bytes: spec_fn(wgpu::Texture) -> nat) -> nat {
    bytes(set.buffers[0].texture) + bytes(set.buffers[1].texture) + bytes(
        set.buffers[2].texture,
    )
}

/// `total` is what is left of `sum` in a `u64` that wraps around.
pub open spec fn wraps_to(sum: nat, total: u64) -> bool {
    total == sum % 0x1_0000_0000_0000_0000
}

/// The sum of `weight` over the members of a finite set.
pub open spec fn sum_over(keys: Set<u64>, weight: spec_fn(u64) -> nat) -> nat
    decreases keys.len(),
    when keys.finite()
{
    if keys.len() == 0 {
        0
    } else {
        let key = keys.choose();
        weight(key) + sum_over(keys.remove(key), weight)
    }
}

/// The sum over a set is that over the rest and one member's part, whichever member it is.
pub proof fn sum_over_splits(keys: Set<u64>, weight: spec_fn(u64) -> nat, key: u64)
    requires
        keys.finite(),
        keys.contains(key),
    ensures
        sum_over(keys, weight) == weight(key) + sum_over(keys.remove(key), weight),
    decreases keys.len(),
{
    let chosen = keys.choose();
    if chosen != key {
        let rest = keys.remove(chosen);
        sum_over_splits(rest, weight, key);
        assert(rest.remove(key) =~= keys.remove(key).remove(chosen));
        sum_over_splits(keys.remove(key), weight, chosen);
    }
}

/// All surfaces by the number of their id, and the number that the next one gets.
#[verifier::ext_equal]
pub struct Registry {
    pub surfaces: Map<u64, Surface>,
    pub next_id: u64,
    /// Textures can be copied from, for deep captures.
    pub deep_capture: bool,
}

impl Registry {
    /// Every surface is valid, and no two have a texture in common.
    pub open spec fn valid(self) -> bool {
        &&& self.surfaces.dom().finite()
        &&& forall|id: u64| #[trigger]
            self.surfaces.contains_key(id) ==> self.surfaces[id].valid(self.deep_capture)
        &&& forall|a: u64, b: u64|
            self.registered(a) && self.registered(b) && a != b ==> (
            #[trigger] self.surfaces[a]).apart(#[trigger] self.surfaces[b])
    }

    /// A registered surface has this texture.
    pub open spec fn has_texture(self, texture: wgpu::Texture) -> bool {
        exists|id: u64| self.registered(id) && (#[trigger] self.surfaces[id]).textures().contains(
            texture,
        )
    }

    /// The surface has no texture that a registered one has.
    pub open spec fn apart_from(self, surface: Surface) -> bool {
        forall|id: u64| self.registered(id) ==> surface.apart(#[trigger] self.surfaces[id])
    }

    /// A surface that stays valid and brings in no texture keeps the registry valid.
    pub proof fn replace_keeps_valid(self, id: u64, to: Surface)
        requires
            self.valid(),
            self.registered(id) ==> to.valid(self.deep_capture) && to.within(self.surfaces[id]),
        ensures
            self.replace(id, to).valid(),
    {
        if self.registered(id) {
            let after = self.replace(id, to);
            assert forall|a: u64, b: u64|
                after.registered(a) && after.registered(b) && a != b implies (
            #[trigger] after.surfaces[a]).apart(#[trigger] after.surfaces[b]) by {
                assert(self.surfaces[a].apart(self.surfaces[b]));
            }
        }
    }

    /// A surface apart from all registered ones keeps the registry valid, under whatever id.
    pub proof fn with_surface_keeps_valid(self, id: u64, surface: Surface)
        requires
            self.valid(),
            surface.valid(self.deep_capture),
            forall|other: u64|
                self.registered(other) && other != id ==> surface.apart(
                    #[trigger] self.surfaces[other],
                ),
        ensures
            self.with_surface(id, surface).valid(),
    {
        let after = self.with_surface(id, surface);
        assert forall|a: u64, b: u64|
            after.registered(a) && after.registered(b) && a != b implies (
        #[trigger] after.surfaces[a]).apart(#[trigger] after.surfaces[b]) by {
            if a == id {
                assert(surface.apart(self.surfaces[b]));
            } else if b == id {
                assert(surface.apart(self.surfaces[a]));
            } else {
                assert(self.surfaces[a].apart(self.surfaces[b]));
            }
        }
    }

    /// A set made apart from all textures of the registry, as the whole of a new surface.
    pub proof fn new_sets_are_apart(self, set: BufferSet)
        requires
            forall|i: int|
                0 <= i < 3 ==> !self.has_texture((#[trigger] set.buffers[i]).texture),
        ensures
            self.apart_from((Surface { active: set, pending: None })),
    {
        let surface = Surface { active: set, pending: None };
        assert forall|id: u64| self.registered(id) implies surface.apart(
            #[trigger] self.surfaces[id],
        ) by {
            assert forall|texture: wgpu::Texture|
                !(#[trigger] surface.textures().contains(texture)
                    && #[trigger] self.surfaces[id].textures().contains(texture)) by {
                if surface.textures().contains(texture) && self.surfaces[id].textures().contains(
                    texture,
                ) {
                    surface.listed_textures_are_buffers(texture);
                    assert(self.has_texture(texture));
                }
            }
        }
    }

    /// A set made apart from all textures of the registry, as a replacement in one of its surfaces.
    pub proof fn new_replacements_are_apart(self, id: u64, set: BufferSet)
        requires
            self.valid(),
            self.registered(id),
            forall|i: int|
                0 <= i < 3 ==> !self.has_texture((#[trigger] set.buffers[i]).texture),
        ensures
            set.apart(self.surfaces[id].active),
            self.surfaces[id].pending matches Some(pending) ==> set.apart(pending),
            forall|other: u64|
                self.registered(other) && other != id ==> self.surfaces[id].resize(set).apart(
                    #[trigger] self.surfaces[other],
                ),
    {
        let surface = self.surfaces[id];
        surface.buffers_are_listed();
        surface.resize_brings_in_the_replacement(set);
        assert forall|texture: wgpu::Texture| #[trigger]
            surface.textures().contains(texture) implies self.has_texture(texture) by {
            assert(self.surfaces[id].textures().contains(texture));
        }
        assert forall|other: u64| self.registered(other) && other != id implies surface.resize(
            set,
        ).apart(#[trigger] self.surfaces[other]) by {
            assert(surface.apart(self.surfaces[other]));
            assert forall|texture: wgpu::Texture| #[trigger]
                self.surfaces[other].textures().contains(texture) implies self.has_texture(
                texture,
            ) by {}
        }
    }

    /// Every registered id has a smaller number than the next one.
    pub open spec fn ids_below_next(self) -> bool {
        forall|id: u64| #[trigger] self.surfaces.contains_key(id) ==> id < self.next_id
    }

    pub open spec fn registered(self, id: u64) -> bool {
        self.surfaces.contains_key(id)
    }

    pub open spec fn with_surface(self, id: u64, surface: Surface) -> Registry {
        Registry { surfaces: self.surfaces.insert(id, surface), ..self }
    }

    /// `surface` takes the place of the one registered under `id`, if there is one.
    pub open spec fn replace(self, id: u64, surface: Surface) -> Registry {
        if self.registered(id) {
            self.with_surface(id, surface)
        } else {
            self
        }
    }

    /// The surface is registered and its render target has another size.
    pub open spec fn needs_replacement(self, id: u64, width: u32, height: u32) -> bool {
        self.registered(id) && self.surfaces[id].render_target().size() != (width, height)
    }

    /// A new surface under the next id.
    pub open spec fn create(self, surface: Surface) -> Registry {
        Registry {
            next_id: next_count(self.next_id),
            ..self.with_surface(self.next_id, surface)
        }
    }

    pub open spec fn remove(self, id: u64) -> Registry {
        Registry { surfaces: self.surfaces.remove(id), ..self }
    }

    /// The answer about the surface registered under `id`, or `None` if there is none.
    pub open spec fn ask<T>(self, id: u64, answer: spec_fn(Surface) -> T) -> Option<T> {
        if self.registered(id) {
            Some(answer(self.surfaces[id]))
        } else {
            None
        }
    }

    /// A redraw was asked for on the surface registered under `id`.
    pub open spec fn redraw_pending(self, id: u64) -> bool {
        self.registered(id) && self.surfaces[id].render_target().redraw_pending
    }

    /// How much memory the textures of the surfaces `ids` take, where `bytes` says it of one.
    pub open spec fn memory_of(self, ids: Set<u64>, bytes: spec_fn(wgpu::Texture) -> nat) -> nat {
        sum_over(ids, |id: u64| self.surfaces[id].memory(bytes))
    }

    /// One surface more takes the memory of its textures more.
    pub proof fn memory_of_one_more(
        self,
        ids: Set<u64>,
        id: u64,
        bytes: spec_fn(wgpu::Texture) -> nat,
    )
        requires
            ids.finite(),
            !ids.contains(id),
        ensures
            self.memory_of(ids.insert(id), bytes) == self.memory_of(ids, bytes)
                + self.surfaces[id].memory(bytes),
    {
        let weight = |id: u64| self.surfaces[id].memory(bytes);
        sum_over_splits(ids.insert(id), weight, id);
        assert(ids.insert(id).remove(id) =~= ids);
    }

    /// How much memory the textures of all surfaces take, where `bytes` says it of one.
    pub open spec fn memory(self, bytes: spec_fn(wgpu::Texture) -> nat) -> nat {
        self.memory_of(self.surfaces.dom(), bytes)
    }
}

} // verus!
