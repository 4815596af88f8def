//! The recovery policy for presentation errors. Acquiring the current
//! surface image can fail transiently (a resize race) or permanently (the
//! surface context is lost); the policy decides, per error, whether to skip
//! the frame, reconfigure once, or hand the failure to the host for a full
//! reinitialization.

use vstd::prelude::*;

verus! {

/// Why the presentation surface failed to deliver an image this frame.
#[derive(Clone, Copy, Debug, PartialEq, Eq, Structural)]
pub enum SurfaceErrorKind {
    /// The image was not ready in time; transient.
    Timeout,
    /// The surface configuration no longer matches the window; transient.
    Outdated,
    /// The surface context was lost.
    Lost,
    /// The device is out of memory.
    OutOfMemory,
}

/// What the host must do about a presentation error.
#[derive(Clone, Copy, Debug, PartialEq, Eq, Structural)]
pub enum RecoveryAction {
    /// Drop this frame and try again next frame; no state is corrupted.
    SkipFrame,
    /// Reconfigure the surface and retry — attempted once for a lost
    /// context.
    Reconfigure,
    /// Surface the failure to the host application for a full
    /// device/surface reinitialization.
    Escalate,
}

/// Tracks how often the surface context was lost without a successful frame
/// in between, so a lost context is retried exactly once.
#[derive(Clone, Copy, Debug, PartialEq, Eq, Structural)]
pub struct PresentationRecovery {
    pub consecutive_losses: u32,
}

impl PresentationRecovery {
    /// A policy that has seen no failure.
    pub fn new() -> (r: PresentationRecovery)
        ensures
            r.consecutive_losses == 0,
    {
        PresentationRecovery { consecutive_losses: 0 }
    }

    /// Decides the reaction to one presentation error. Transient errors skip
    /// the frame and retry next frame; a lost context is retried by one
    /// reconfiguration and escalated if it repeats before a frame succeeds;
    /// memory exhaustion escalates at once.
    pub fn on_surface_error(&mut self, kind: SurfaceErrorKind) -> (r: RecoveryAction)
        ensures
            kind == SurfaceErrorKind::Timeout || kind == SurfaceErrorKind::Outdated ==> r
                == RecoveryAction::SkipFrame && *final(self) == *old(self),
            kind == SurfaceErrorKind::OutOfMemory ==> r == RecoveryAction::Escalate && *final(self)
                == *old(self),
            kind == SurfaceErrorKind::Lost && old(self).consecutive_losses == 0 ==> r
                == RecoveryAction::Reconfigure && final(self).consecutive_losses == 1,
            kind == SurfaceErrorKind::Lost && old(self).consecutive_losses >= 1 ==> r
                == RecoveryAction::Escalate && *final(self) == *old(self),
    {
        match kind {
            SurfaceErrorKind::Timeout | SurfaceErrorKind::Outdated => RecoveryAction::SkipFrame,
            SurfaceErrorKind::OutOfMemory => RecoveryAction::Escalate,
            SurfaceErrorKind::Lost => {
                if self.consecutive_losses == 0 {
                    self.consecutive_losses = 1;
                    RecoveryAction::Reconfigure
                } else {
                    RecoveryAction::Escalate
                }
            },
        }
    }

    /// A frame presented successfully: the retry budget is restored.
    pub fn on_frame_presented(&mut self)
        ensures
            final(self).consecutive_losses == 0,
    {
        self.consecutive_losses = 0;
    }
}

} // verus!
