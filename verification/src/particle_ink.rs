//! The particle-ink animation: a single repeating cycle over a fixed grid of
//! particles. Each frame schedules the compute work (a reset dispatch on the
//! first frame of every cycle, then the regular advance dispatch) and the
//! instanced draw, and steps the frame counter, signalling when a cycle
//! completed.

use vstd::prelude::*;

use crate::ConfigError;
use crate::arith::lemma_div_of_multiple_plus_remainder;
use crate::arith::lemma_mod_of_multiple_plus_remainder;
use crate::emitter::DrawCommand;
use crate::emitter::ELEMENTS_PER_INSTANCE;
use crate::frame_table::FRAME_STRIDE;
use vstd::arithmetic::div_mod::lemma_fundamental_div_mod;
use vstd::arithmetic::div_mod::lemma_small_mod;

verus! {

/// Threads one compute workgroup advances; the dispatch size is the particle
/// count divided by this, rounded up.
pub const WORKGROUP_SIZE: u32 = 64;

/// The compute work one frame dispatches, inside a single scoped compute
/// pass: optionally the reset stage, always the advance stage, both over
/// `workgroup_count` workgroups.
#[derive(Clone, Copy, Debug, PartialEq, Eq, Structural)]
pub struct ComputePlan {
    /// Run the reset stage first, reinitializing every particle: owed
    /// exactly on the first frame of each repeating cycle.
    pub run_reset: bool,
    /// Workgroups both stages dispatch.
    pub workgroup_count: u32,
}

/// Frame index after `k` per-frame advances of a cycle of `frame_count`
/// frames, starting from 0.
pub open spec fn spec_index_trajectory(k: nat, frame_count: u32) -> nat
    decreases k,
{
    if k == 0 {
        0
    } else {
        let p = spec_index_trajectory((k - 1) as nat, frame_count);
        if p == frame_count - 1 {
            0
        } else {
            p + 1
        }
    }
}

/// Cycles completed within `k` per-frame advances: one is signalled exactly
/// when the index wraps back to 0.
pub open spec fn spec_completed_cycles(k: nat, frame_count: u32) -> nat
    decreases k,
{
    if k == 0 {
        0
    } else {
        spec_completed_cycles((k - 1) as nat, frame_count) + if spec_index_trajectory(
            (k - 1) as nat,
            frame_count,
        ) == frame_count - 1 {
            1nat
        } else {
            0nat
        }
    }
}

/// Over any number of per-frame advances, the frame index is the advance
/// count modulo the cycle length, and exactly one completion is signalled
/// per full cycle: after `k = frame_count` advances the index is back at 0
/// and precisely one cycle has completed.
pub proof fn lemma_particle_cycle(k: nat, frame_count: u32)
    requires
        frame_count >= 1,
    ensures
        spec_index_trajectory(k, frame_count) == k % (frame_count as nat),
        spec_completed_cycles(k, frame_count) == k / (frame_count as nat),
    decreases k,
{
    let fc = frame_count as nat;
    if k > 0 {
        let prev = (k - 1) as nat;
        lemma_particle_cycle(prev, frame_count);
        lemma_fundamental_div_mod(prev as int, fc as int);
        let q = prev / fc;
        let m = prev % fc;
        if m == fc - 1 {
            assert(fc * (q + 1) == fc * q + fc) by (nonlinear_arith);
            lemma_mod_of_multiple_plus_remainder(k, q + 1, 0, fc);
            lemma_div_of_multiple_plus_remainder(k, q + 1, 0, fc);
        } else {
            lemma_mod_of_multiple_plus_remainder(k, q, m + 1, fc);
            lemma_div_of_multiple_plus_remainder(k, q, m + 1, fc);
        }
    }
}

/// The particle-ink animation state: the fixed particle grid size, the cycle
/// length, and the frame counter within the current cycle.
pub struct ParticleInk {
    particle_count: u32,
    frame_count: u32,
    animate_index: u32,
    advances: Ghost<nat>,
}

impl ParticleInk {
    /// Particles the grid holds; also the instance count of every draw.
    pub closed spec fn spec_particle_count(self) -> u32 {
        self.particle_count
    }

    /// Frames one repeating cycle spans.
    pub closed spec fn spec_frame_count(self) -> u32 {
        self.frame_count
    }

    /// Frame index within the current cycle.
    pub closed spec fn spec_animate_index(self) -> u32 {
        self.animate_index
    }

    /// Per-frame advances taken since creation.
    pub closed spec fn spec_advances(self) -> nat {
        self.advances@
    }

    /// Well-formedness: a non-empty grid, a non-empty cycle, and the frame
    /// index exactly the advance count modulo the cycle length — after any
    /// whole number of cycles it is back at 0.
    pub open spec fn wf(self) -> bool {
        &&& self.spec_particle_count() >= 1
        &&& self.spec_frame_count() >= 1
        &&& self.spec_animate_index() == self.spec_advances() % (self.spec_frame_count() as nat)
    }

    /// Creates the animation for a `grid_width` by `grid_height` particle
    /// grid, cycling over `frame_count` frames. An empty grid, a grid whose
    /// particle count is not representable, and a zero frame count are
    /// configuration errors.
    pub fn new(grid_width: u32, grid_height: u32, frame_count: u32) -> (r: Result<
        ParticleInk,
        ConfigError,
    >)
        ensures
            match r {
                Ok(p) => {
                    &&& frame_count >= 1
                    &&& grid_width * grid_height >= 1
                    &&& grid_width * grid_height <= u32::MAX
                    &&& p.wf()
                    &&& p.spec_particle_count() == grid_width * grid_height
                    &&& p.spec_frame_count() == frame_count
                    &&& p.spec_animate_index() == 0
                    &&& p.spec_advances() == 0
                },
                Err(e) => {
                    ||| (frame_count == 0 && e == ConfigError::ZeroFrameCount)
                    ||| (frame_count >= 1 && grid_width * grid_height == 0 && e
                        == ConfigError::ZeroCapacity)
                    ||| (frame_count >= 1 && grid_width * grid_height > u32::MAX && e
                        == ConfigError::CapacityTooLarge)
                },
            },
    {
        if frame_count == 0 {
            return Err(ConfigError::ZeroFrameCount);
        }
        if grid_width == 0 || grid_height == 0 {
            return Err(ConfigError::ZeroCapacity);
        }
        proof {
            assert(grid_width * grid_height >= 1) by (nonlinear_arith)
                requires
                    grid_width >= 1,
                    grid_height >= 1,
            ;
        }
        proof {
            lemma_small_mod(0, frame_count as nat);
        }
        match grid_width.checked_mul(grid_height) {
            Some(particle_count) => Ok(
                ParticleInk { particle_count, frame_count, animate_index: 0, advances: Ghost(0) },
            ),
            None => Err(ConfigError::CapacityTooLarge),
        }
    }

    /// Schedules the compute pass of the current frame: the reset stage runs
    /// exactly when the frame counter sits at 0 — once at startup and once
    /// whenever a cycle has wrapped — and the advance stage covers every
    /// particle with as many workgroups as needed.
    pub fn cal_particles_move(&self) -> (plan: ComputePlan)
        requires
            self.wf(),
        ensures
            plan.run_reset == (self.spec_animate_index() == 0),
            plan.workgroup_count == (self.spec_particle_count() + WORKGROUP_SIZE - 1) as int
                / WORKGROUP_SIZE as int,
            plan.workgroup_count * WORKGROUP_SIZE >= self.spec_particle_count(),
    {
        let workgroup_count: u32 = ((self.particle_count as u64 + (WORKGROUP_SIZE as u64 - 1))
            / (WORKGROUP_SIZE as u64)) as u32;
        proof {
            lemma_fundamental_div_mod(
                self.particle_count as int + (WORKGROUP_SIZE - 1) as int,
                WORKGROUP_SIZE as int,
            );
        }
        ComputePlan { run_reset: self.animate_index == 0, workgroup_count }
    }

    /// Issues the draw of the current frame — one instance per particle,
    /// bound to the current frame's record of the uniform table — then steps
    /// the frame counter, wrapping after `frame_count` frames. Returns the
    /// draw and whether this frame completed the cycle.
    pub fn enter_frame(&mut self) -> (r: (DrawCommand, bool))
        requires
            old(self).wf(),
        ensures
            final(self).wf(),
            final(self).spec_particle_count() == old(self).spec_particle_count(),
            final(self).spec_frame_count() == old(self).spec_frame_count(),
            final(self).spec_advances() == old(self).spec_advances() + 1,
            r.0.dynamic_offset == FRAME_STRIDE * old(self).spec_animate_index(),
            r.0.element_count == ELEMENTS_PER_INSTANCE,
            r.0.instance_count == old(self).spec_particle_count(),
            r.1 == (old(self).spec_animate_index() == old(self).spec_frame_count() - 1),
            final(self).spec_animate_index() == if old(self).spec_animate_index() == old(
                self,
            ).spec_frame_count() - 1 {
                0int
            } else {
                old(self).spec_animate_index() + 1
            },
    {
        let draw = DrawCommand {
            dynamic_offset: FRAME_STRIDE * (self.animate_index as u64),
            element_count: ELEMENTS_PER_INSTANCE,
            instance_count: self.particle_count,
        };
        proof {
            let fc = self.frame_count as nat;
            let k = self.advances@;
            lemma_fundamental_div_mod(k as int, fc as int);
            if k % fc == fc - 1 {
                assert(fc * (k / fc + 1) == fc * (k / fc) + fc) by (nonlinear_arith);
                lemma_mod_of_multiple_plus_remainder(k + 1, k / fc + 1, 0, fc);
            } else {
                lemma_mod_of_multiple_plus_remainder(k + 1, k / fc, k % fc + 1, fc);
            }
        }
        self.advances = Ghost(self.advances@ + 1);
        let mut is_completed = false;
        self.animate_index = self.animate_index + 1;
        if self.animate_index == self.frame_count {
            self.animate_index = 0;
            is_completed = true;
        }
        (draw, is_completed)
    }

    /// Particles the grid holds.
    pub fn particle_count(&self) -> (r: u32)
        ensures
            r == self.spec_particle_count(),
    {
        self.particle_count
    }

    /// Frames one repeating cycle spans.
    pub fn frame_count(&self) -> (r: u32)
        ensures
            r == self.spec_frame_count(),
    {
        self.frame_count
    }

    /// Frame index within the current cycle.
    pub fn animate_index(&self) -> (r: u32)
        ensures
            r == self.spec_animate_index(),
    {
        self.animate_index
    }
}

} // verus!
