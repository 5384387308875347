//! Three buffers that the external renderer and the compositor pass between them.

use crate::model;
use crate::model::BufferSet;
use crate::registry::SurfaceRegistry;
use crate::texture::SurfaceBuffer;
use vstd::prelude::*;

verus! {

/// A triple-buffered set of textures.
///
/// At every moment each of the three buffers plays one of three roles:
/// - `rendering`: the external renderer draws into it;
/// - `ready`: it holds the latest complete frame;
/// - `display`: the compositor reads from it.
///
/// The renderer exchanges `rendering` and `ready`, the compositor exchanges `ready` and `display`,
/// so neither ever takes a buffer out of the other's hands.
pub struct TripleBuffer {
    buffers: [SurfaceBuffer; 3],
    /// The three roles, packed as [`TripleBuffer::pack_state`] does.
    state: u8,
    /// The GPU submission of the last frame drawn into each buffer.
    submission_indices: [Option<wgpu::SubmissionIndex>; 3],
    /// Coalesces redraw requests: one is under way.
    redraw_pending: bool,
    /// Counts the frames presented, one per exchange of `rendering` and `ready`.
    frame_generation: u64,
    /// The `frame_generation` that the compositor last swapped into `display`.
    last_composited_generation: u64,
    width: u32,
    height: u32,
    format: wgpu::TextureFormat,
}

impl View for TripleBuffer {
    type V = BufferSet;

    closed spec fn view(&self) -> BufferSet {
        BufferSet {
            buffers: self.buffers@,
            rendering: model::unpacked(self.state as int).0,
            ready: model::unpacked(self.state as int).1,
            display: model::unpacked(self.state as int).2,
            submissions: self.submission_indices@,
            redraw_pending: self.redraw_pending,
            frame_generation: self.frame_generation,
            last_composited_generation: self.last_composited_generation,
            width: self.width,
            height: self.height,
            format: self.format,
        }
    }
}

impl TripleBuffer {
    /// Packs the three roles into six bits, two for each: `display`, `ready`, `rendering` from the
    /// highest to the lowest.
    #[inline]
    pub fn pack_state(rendering: u8, ready: u8, display: u8) -> (state: u8)
        requires
            model::distinct_roles(rendering as int, ready as int, display as int),
        ensures
            state == model::packed(rendering as int, ready as int, display as int),
    {
        assert(((display << 4) | (ready << 2)) | rendering == 16 * display + 4 * ready + rendering)
            by (bit_vector)
            requires
                rendering < 3,
                ready < 3,
                display < 3,
        ;
        (display << 4) | (ready << 2) | rendering
    }

    /// The `(rendering, ready, display)` roles that a packed state holds.
    #[inline]
    pub fn unpack_state(state: u8) -> (roles: (u8, u8, u8))
        ensures
            (roles.0 as int, roles.1 as int, roles.2 as int) == model::unpacked(state as int),
    {
        assert(state & 0x03 == state % 4) by (bit_vector);
        assert((state >> 2) & 0x03 == state / 4 % 4) by (bit_vector);
        assert((state >> 4) & 0x03 == state / 16 % 4) by (bit_vector);
        let rendering: u8 = state & 0x03;
        let ready: u8 = (state >> 2) & 0x03;
        let display: u8 = (state >> 4) & 0x03;
        (rendering, ready, display)
    }

    /// A set of three buffers in their initial roles, with nothing presented yet.
    pub(crate) fn from_buffers(
        buffers: [SurfaceBuffer; 3],
        width: u32,
        height: u32,
        format: wgpu::TextureFormat,
    ) -> (set: TripleBuffer)
        ensures
            set@ == (BufferSet {
                buffers: buffers@,
                rendering: 0,
                ready: 1,
                display: 2,
                submissions: seq![None, None, None],
                redraw_pending: false,
                frame_generation: 0,
                last_composited_generation: 0,
                width,
                height,
                format,
            }),
    {
        TripleBuffer {
            buffers,
            state: TripleBuffer::pack_state(0, 1, 2),
            submission_indices: [None, None, None],
            redraw_pending: false,
            frame_generation: 0,
            last_composited_generation: 0,
            width,
            height,
            format,
        }
    }

    /// Exchanges `rendering` and `ready` and counts the frame that was handed over.
    pub(crate) fn present(&mut self)
        requires
            old(self)@.roles_distinct(),
        ensures
            final(self)@ == old(self)@.present(),
    {
        let (rendering, ready, display) = TripleBuffer::unpack_state(self.state);
        self.state = TripleBuffer::pack_state(ready, rendering, display);
        self.frame_generation = self.frame_generation.wrapping_add(1);
    }

    /// Notes the submission that draws the frame in `rendering`, then presents it.
    pub(crate) fn present_submission(&mut self, submission: wgpu::SubmissionIndex)
        requires
            old(self)@.roles_distinct(),
        ensures
            final(self)@ == old(self)@.present_submission(submission),
    {
        let (rendering, _, _) = TripleBuffer::unpack_state(self.state);
        self.submission_indices[rendering as usize] = Some(submission);
        self.present();
    }

    /// Exchanges `ready` and `display`, and notes that all presented frames are seen.
    pub(crate) fn show(&mut self)
        requires
            old(self)@.roles_distinct(),
        ensures
            final(self)@ == old(self)@.show(),
    {
        let (rendering, ready, display) = TripleBuffer::unpack_state(self.state);
        self.state = TripleBuffer::pack_state(rendering, display, ready);
        self.last_composited_generation = self.frame_generation;
    }

    /// Whether a frame was presented since the last [`TripleBuffer::show`].
    pub(crate) fn has_new_frame(&self) -> (new: bool)
        ensures
            new == self@.has_new_frame(),
    {
        SurfaceRegistry::should_composite_swap(
            self.frame_generation,
            self.last_composited_generation,
        )
    }

    /// Puts the ready frame on display if it is a new one, and says whether it was.
    pub(crate) fn composite(&mut self) -> (swapped: bool)
        requires
            old(self)@.roles_distinct(),
        ensures
            swapped == old(self)@.has_new_frame(),
            final(self)@ == old(self)@.composite(),
    {
        if !self.has_new_frame() {
            return false;
        }
        self.show();
        true
    }

    /// The view that the external renderer draws into.
    pub(crate) fn back_view(&self) -> (view: wgpu::TextureView)
        requires
            0 <= self@.rendering < 3,
        ensures
            view == self@.back().view,
    {
        let (rendering, _, _) = TripleBuffer::unpack_state(self.state);
        self.buffers[rendering as usize].view.clone()
    }

    /// The view that the compositor reads from.
    pub(crate) fn front_view(&self) -> (view: wgpu::TextureView)
        requires
            0 <= self@.display < 3,
        ensures
            view == self@.front().view,
    {
        let (_, _, display) = TripleBuffer::unpack_state(self.state);
        self.buffers[display as usize].view.clone()
    }

    /// The texture that the compositor reads from.
    pub(crate) fn front_texture(&self) -> (texture: wgpu::Texture)
        requires
            0 <= self@.display < 3,
        ensures
            texture == self@.front().texture,
    {
        let (_, _, display) = TripleBuffer::unpack_state(self.state);
        self.buffers[display as usize].texture.clone()
    }

    /// The texture of the `i`-th buffer, whatever its role.
    pub(crate) fn texture(&self, i: usize) -> (texture: &wgpu::Texture)
        requires
            i < 3,
        ensures
            *texture == self@.buffers[i as int].texture,
    {
        &self.buffers[i].texture
    }

    /// Appends the three textures.
    pub(crate) fn collect_textures(&self, textures: &mut Vec<wgpu::Texture>)
        ensures
            final(textures)@ == old(textures)@ + self@.textures(),
    {
        textures.push(self.buffers[0].texture.clone());
        textures.push(self.buffers[1].texture.clone());
        textures.push(self.buffers[2].texture.clone());
    }

    /// The `(rendering, ready, display)` roles.
    pub(crate) fn roles(&self) -> (roles: (u8, u8, u8))
        ensures
            (roles.0 as int, roles.1 as int, roles.2 as int) == (
                self@.rendering,
                self@.ready,
                self@.display,
            ),
    {
        TripleBuffer::unpack_state(self.state)
    }

    pub(crate) fn size(&self) -> (size: (u32, u32))
        ensures
            size == self@.size(),
    {
        (self.width, self.height)
    }

    pub(crate) fn format(&self) -> (format: wgpu::TextureFormat)
        ensures
            format == self@.format,
    {
        self.format
    }

    pub(crate) fn frame_generation(&self) -> (generation: u64)
        ensures
            generation == self@.frame_generation,
    {
        self.frame_generation
    }

    pub(crate) fn redraw_pending(&self) -> (redraw_pending: bool)
        ensures
            redraw_pending == self@.redraw_pending,
    {
        self.redraw_pending
    }

    /// Sets the redraw flag and returns what it was.
    pub(crate) fn replace_redraw_pending(&mut self, redraw_pending: bool) -> (previous: bool)
        ensures
            previous == old(self)@.redraw_pending,
            final(self)@ == old(self)@.with_redraw_pending(redraw_pending),
    {
        let previous = self.redraw_pending;
        self.redraw_pending = redraw_pending;
        previous
    }
}

} // verus!
