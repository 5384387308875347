//! The texture set on display, and the one that is to replace it.

use crate::model::Surface;
use crate::triple_buffer::TripleBuffer;
use vstd::prelude::*;

verus! {

/// The active texture set, and a replacement set that waits for its first frame.
///
/// A resize leaves `active` to the compositor while the external renderer draws into `pending`, so
/// a replacement texture is not displayed before its first frame is complete.
pub struct SurfaceBuffers {
    active: TripleBuffer,
    pending: Option<TripleBuffer>,
}

impl View for SurfaceBuffers {
    type V = Surface;

    closed spec fn view(&self) -> Surface {
        Surface {
            active: self.active@,
            pending: match self.pending {
                Some(pending) => Some(pending@),
                None => None,
            },
        }
    }
}

impl SurfaceBuffers {
    /// A surface that shows `active`, with no replacement.
    pub(crate) fn new(active: TripleBuffer) -> (surface: SurfaceBuffers)
        ensures
            surface@ == (Surface { active: active@, pending: None }),
    {
        SurfaceBuffers { active, pending: None }
    }

    /// The set that the compositor reads from.
    pub(crate) fn active(&self) -> (active: &TripleBuffer)
        ensures
            active@ == self@.active,
    {
        &self.active
    }

    /// The replacement set, if one waits.
    pub(crate) fn pending(&self) -> (pending: Option<&TripleBuffer>)
        ensures
            pending is Some == self@.pending is Some,
            pending matches Some(set) ==> Some(set@) == self@.pending,
    {
        self.pending.as_ref()
    }

    /// The set that the external renderer draws into.
    pub(crate) fn render_target(&self) -> (target: &TripleBuffer)
        ensures
            target@ == self@.render_target(),
    {
        match &self.pending {
            Some(pending) => pending,
            None => &self.active,
        }
    }

    /// The set that the external renderer draws into, to be changed.
    pub(crate) fn render_target_mut(&mut self) -> (target: &mut TripleBuffer)
        ensures
            target@ == old(self)@.render_target(),
            final(self)@ == old(self)@.with_render_target(final(target)@),
    {
        match &mut self.pending {
            Some(pending) => pending,
            None => &mut self.active,
        }
    }

    /// The textures of the active set and of the replacement, if one waits.
    pub(crate) fn textures(&self) -> (textures: Vec<wgpu::Texture>)
        ensures
            textures@ == self@.textures(),
    {
        let mut textures: Vec<wgpu::Texture> = Vec::new();
        self.active.collect_textures(&mut textures);
        if let Some(pending) = &self.pending {
            pending.collect_textures(&mut textures);
        }
        textures
    }

    /// Sets `replacement` to wait for its first frame, in the place of any that waits already.
    pub(crate) fn replace(&mut self, replacement: TripleBuffer)
        ensures
            final(self)@ == old(self)@.resize(replacement@),
    {
        self.pending = Some(replacement);
    }

    /// Makes the replacement the active set if it has a frame to show.
    pub(crate) fn promote_pending_if_ready(&mut self)
        ensures
            final(self)@ == old(self)@.promote(),
    {
        let ready = match &self.pending {
            Some(pending) => pending.has_new_frame(),
            None => false,
        };
        if ready {
            if let Some(pending) = self.pending.take() {
                self.active = pending;
            }
        }
    }

    /// Promotes a replacement that is ready, then puts the ready buffer on display in any case.
    pub(crate) fn swap_ready_display(&mut self)
        requires
            old(self)@.roles_distinct(),
        ensures
            final(self)@ == old(self)@.swap_ready_display(),
    {
        self.promote_pending_if_ready();
        self.active.show();
    }

    /// Promotes a replacement that is ready, then puts the ready frame on display if it is new.
    pub(crate) fn composite(&mut self) -> (swapped: bool)
        requires
            old(self)@.roles_distinct(),
        ensures
            swapped == old(self)@.has_new_frame(),
            final(self)@ == old(self)@.composite(),
    {
        self.promote_pending_if_ready();
        self.active.composite()
    }
}

} // verus!
