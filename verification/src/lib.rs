//! Frame-driven animation core for a GPU rendering loop.
//!
//! The library owns the CPU-side state of an animated scene: the table of
//! per-frame interpolation parameters, the ping-pong resource pair, the
//! frame-advance state machine, the draw-call parameters, and the deferred
//! surface-resize bookkeeping. The host application performs the actual
//! device work (buffer uploads, pass encoding, presentation) by interpreting
//! the plans and commands these types return each frame.

use vstd::prelude::*;

mod arith;

pub mod assets;
pub mod camera;
pub mod driver;
pub mod emitter;
pub mod frame_table;
pub mod hilbert_app;
pub mod option_ext;
pub mod particle_grid;
pub mod particle_ink;
pub mod query;
pub mod recovery;
pub mod resize;
pub mod resource_pair;
pub mod startup;

verus! {

/// A configuration fault detected while building an animation object.
/// Construction fails fast; no partially built object is returned.
#[derive(Clone, Copy, Debug, PartialEq, Eq, Structural)]
pub enum ConfigError {
    /// The animation was asked to run over zero frames.
    ZeroFrameCount,
    /// A resource pair was asked to hold zero records.
    ZeroCapacity,
    /// A record was declared to occupy zero bytes.
    ZeroRecordSize,
    /// The requested allocation does not fit in addressable bytes.
    CapacityTooLarge,
    /// An oscillating animation needs at least two phases.
    PhaseRangeTooSmall,
}

/// A record set offered to a resource pair exceeds its fixed capacity.
/// The pair is left untouched; over-allocation at construction time is the
/// intended way to rule this out.
#[derive(Clone, Copy, Debug, PartialEq, Eq, Structural)]
pub struct CapacityError {
    /// Records one buffer of the pair can hold.
    pub capacity: usize,
    /// Records the rejected request asked to store.
    pub requested: usize,
}

} // verus!
