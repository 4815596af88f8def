//! Events that arrive before the renderer exists. On platforms where the
//! graphics context is created asynchronously, resize and redraw requests
//! can be delivered while initialization is still running; they are recorded
//! here and replayed once, when the renderer is ready.

use vstd::prelude::*;

use crate::resize::SurfaceConfig;

verus! {

/// The window events missed during asynchronous initialization: the newest
/// usable window size, and whether a redraw was requested.
#[derive(Clone, Copy, Debug, PartialEq, Eq)]
pub struct StartupEvents {
    pub missed_resize: Option<SurfaceConfig>,
    pub missed_redraw_request: bool,
}

impl StartupEvents {
    /// No event recorded yet.
    pub fn new() -> (r: StartupEvents)
        ensures
            r.missed_resize is None,
            !r.missed_redraw_request,
    {
        StartupEvents { missed_resize: None, missed_redraw_request: false }
    }

    /// Records a resize seen before initialization finished. Only a usable
    /// size is kept — a zero dimension means the window is minimized — and
    /// a newer size replaces an older one.
    pub fn record_resize(&mut self, width: u32, height: u32)
        ensures
            width > 0 && height > 0 ==> final(self).missed_resize == Some(
                SurfaceConfig { width, height },
            ),
            !(width > 0 && height > 0) ==> final(self).missed_resize == old(self).missed_resize,
            final(self).missed_redraw_request == old(self).missed_redraw_request,
    {
        if width > 0 && height > 0 {
            self.missed_resize = Some(SurfaceConfig { width, height });
        }
    }

    /// Records a redraw request seen before initialization finished.
    pub fn record_redraw_request(&mut self)
        ensures
            final(self).missed_redraw_request,
            final(self).missed_resize == old(self).missed_resize,
    {
        self.missed_redraw_request = true;
    }

    /// Hands the recorded events over for replay, exactly once: the record
    /// is cleared, so a second drain replays nothing.
    pub fn drain(&mut self) -> (r: (Option<SurfaceConfig>, bool))
        ensures
            r == (old(self).missed_resize, old(self).missed_redraw_request),
            final(self).missed_resize is None,
            !final(self).missed_redraw_request,
    {
        let resize = self.missed_resize;
        let redraw = self.missed_redraw_request;
        self.missed_resize = None;
        self.missed_redraw_request = false;
        (resize, redraw)
    }
}

} // verus!
