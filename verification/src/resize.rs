//! Deferred surface reconfiguration. Resize notifications arrive far more
//! often than frames are rendered (a continuous window drag fires many per
//! frame); the adapter only records the latest requested size and a dirty
//! flag, and the per-frame application reconfigures the surface at most once.

use vstd::prelude::*;

verus! {

/// A presentation surface size in pixels.
#[derive(Clone, Copy, Debug, PartialEq, Eq, Structural)]
pub struct SurfaceConfig {
    pub width: u32,
    pub height: u32,
}

/// Coalesces resize notifications. `config` is the size the surface is
/// actually configured to; `pending` is the newest size the windowing system
/// reported; `dirty` says the two differ, so a reconfiguration is owed.
#[derive(Clone, Copy, Debug, PartialEq, Eq, Structural)]
pub struct ResizeAdapter {
    pub config: SurfaceConfig,
    pub pending: SurfaceConfig,
    pub dirty: bool,
}

/// What one application of the deferred resize does: a dirty adapter adopts
/// the pending size and asks the host to reconfigure to it; a clean adapter
/// is left untouched and asks for nothing.
pub open spec fn spec_apply(s: ResizeAdapter) -> (ResizeAdapter, Option<SurfaceConfig>) {
    if s.dirty {
        (ResizeAdapter { config: s.pending, pending: s.pending, dirty: false }, Some(s.pending))
    } else {
        (s, None)
    }
}

impl ResizeAdapter {
    /// Well-formedness: the dirty flag holds exactly when the pending size
    /// differs from the configured one.
    pub open spec fn wf(self) -> bool {
        self.dirty == (self.pending != self.config)
    }

    /// An adapter for a surface currently configured to the given size, with
    /// no resize outstanding.
    pub fn new(width: u32, height: u32) -> (r: ResizeAdapter)
        ensures
            r.wf(),
            r.config == (SurfaceConfig { width, height }),
            r.pending == r.config,
            !r.dirty,
    {
        let config = SurfaceConfig { width, height };
        ResizeAdapter { config, pending: config, dirty: false }
    }

    /// Records a resize notification without touching the surface. Only the
    /// newest size is kept; the adapter becomes dirty exactly when that size
    /// differs from the configured one, so a resize back to the current
    /// configuration cancels the outstanding work.
    pub fn on_resize(&mut self, width: u32, height: u32)
        requires
            old(self).wf(),
        ensures
            final(self).wf(),
            final(self).config == old(self).config,
            final(self).pending == (SurfaceConfig { width, height }),
            final(self).dirty == (final(self).pending != old(self).config),
    {
        let pending = SurfaceConfig { width, height };
        self.dirty = pending.width != self.config.width || pending.height != self.config.height;
        self.pending = pending;
    }

    /// Performs the deferred reconfiguration decision for one frame: returns
    /// the size the host must reconfigure the surface and projection uniform
    /// to, or `None` when nothing changed since the last application.
    pub fn apply_if_dirty(&mut self) -> (r: Option<SurfaceConfig>)
        requires
            old(self).wf(),
        ensures
            final(self).wf(),
            (*final(self), r) == spec_apply(*old(self)),
    {
        if self.dirty {
            self.config = self.pending;
            self.dirty = false;
            Some(self.config)
        } else {
            None
        }
    }

    /// The newest size the windowing system reported. A zero dimension here
    /// means the window is minimized and the frame should be skipped.
    pub fn latest_size(&self) -> (r: SurfaceConfig)
        ensures
            r == self.pending,
    {
        self.pending
    }

    /// The size the surface is actually configured to.
    pub fn configured_size(&self) -> (r: SurfaceConfig)
        ensures
            r == self.config,
    {
        self.config
    }
}

/// Applying the deferred resize is idempotent: with no intervening resize
/// notification, a second application changes nothing and asks the host to
/// reconfigure nothing — the side effect happens exactly once.
pub proof fn lemma_apply_if_dirty_idempotent(s: ResizeAdapter)
    requires
        s.wf(),
    ensures
        ({
            let (s1, _r1) = spec_apply(s);
            let (s2, r2) = spec_apply(s1);
            &&& s2 == s1
            &&& r2 is None
        }),
{
}

} // verus!
