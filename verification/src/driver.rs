//! The frame-advance state machine for the oscillating curve animation: it
//! tracks the frame index within the current transition and the phase being
//! morphed, wraps the index once per cycle, and decides at each wrap which
//! phase pair the resource buffers must be regenerated for.

use vstd::prelude::*;

use crate::ConfigError;
use crate::arith::lemma_mod_of_multiple_plus_remainder;
use crate::frame_table::FRAME_STRIDE;
use vstd::arithmetic::div_mod::lemma_fundamental_div_mod;
use vstd::arithmetic::div_mod::lemma_small_mod;

verus! {

/// A phase of the oscillating animation together with the direction the
/// oscillation is moving through it.
#[derive(Clone, Copy, Debug, PartialEq, Eq, Structural)]
pub struct PhaseState {
    pub phase: u32,
    pub ascending: bool,
}

/// One step of the oscillation: ascending raises the phase until the maximum,
/// where the direction flips and the phase falls; descending mirrors this at
/// phase 1. Phases therefore stay within `1..=max_phase` forever.
pub open spec fn spec_phase_step(s: PhaseState, max_phase: u32) -> PhaseState {
    if s.ascending {
        if s.phase < max_phase {
            PhaseState { phase: (s.phase + 1) as u32, ascending: true }
        } else {
            PhaseState { phase: (s.phase - 1) as u32, ascending: false }
        }
    } else {
        if s.phase > 1 {
            PhaseState { phase: (s.phase - 1) as u32, ascending: false }
        } else {
            PhaseState { phase: (s.phase + 1) as u32, ascending: true }
        }
    }
}

/// The phase the animation morphs toward while it displays state `s`: the
/// phase the oscillation visits next.
pub open spec fn spec_target_phase(s: PhaseState, max_phase: u32) -> u32 {
    spec_phase_step(s, max_phase).phase
}

/// The state after `k` oscillation steps from the initial state, phase 1
/// ascending.
pub open spec fn spec_phase_trajectory(k: nat, max_phase: u32) -> PhaseState
    decreases k,
{
    if k == 0 {
        PhaseState { phase: 1u32, ascending: true }
    } else {
        spec_phase_step(spec_phase_trajectory((k - 1) as nat, max_phase), max_phase)
    }
}

/// One oscillation step keeps the phase within `1..=max_phase`, moves it by
/// exactly one, and flips the direction exactly at the two boundaries.
pub proof fn lemma_phase_step_stays_in_range(s: PhaseState, max_phase: u32)
    requires
        max_phase >= 2,
        1 <= s.phase <= max_phase,
    ensures
        1 <= spec_phase_step(s, max_phase).phase <= max_phase,
        spec_phase_step(s, max_phase).phase == s.phase + 1 || spec_phase_step(s, max_phase).phase
            == s.phase - 1,
        (spec_phase_step(s, max_phase).ascending != s.ascending) <==> ((s.ascending && s.phase
            == max_phase) || (!s.ascending && s.phase == 1)),
{
}

/// The oscillation is the triangle wave of period `2 * (max_phase - 1)`:
/// after `k` steps the phase is `m + 1` while rising and `2 * max_phase - 1
/// - m` while falling, where `m = k % period` — so phases trace
/// `1, 2, ..., max_phase, max_phase - 1, ..., 2, 1, 2, ...` and never leave
/// `1..=max_phase`.
pub proof fn lemma_phase_trajectory_oscillates(k: nat, max_phase: u32)
    requires
        max_phase >= 2,
    ensures
        ({
            let period = (2 * (max_phase - 1)) as nat;
            let m = k % period;
            let s = spec_phase_trajectory(k, max_phase);
            &&& s.phase == if (m as int) < max_phase {
                m as int + 1
            } else {
                2 * max_phase - 1 - m
            }
            &&& 1 <= s.phase <= max_phase
            &&& s.ascending == (k == 0 || (1 <= m <= max_phase - 1))
        }),
    decreases k,
{
    let period = (2 * (max_phase - 1)) as nat;
    if k == 0 {
        lemma_small_mod(0, period);
    } else {
        let prev = (k - 1) as nat;
        lemma_phase_trajectory_oscillates(prev, max_phase);
        let mp = prev % period;
        let m = k % period;
        assert(prev == period * (prev / period) + mp) by {
            lemma_fundamental_div_mod(prev as int, period as int);
        }
        if mp + 1 < period {
            assert(k == period * (prev / period) + (mp + 1));
            assert(m == mp + 1) by {
                lemma_mod_of_multiple_plus_remainder(k, prev / period, (mp + 1) as nat, period);
            }
        } else {
            assert(period * (prev / period + 1) == period * (prev / period) + period)
                by (nonlinear_arith);
            assert(k == period * (prev / period + 1));
            assert(m == 0) by {
                lemma_mod_of_multiple_plus_remainder(k, prev / period + 1, 0, period);
            }
        }
    }
}

/// A phase pair the host must regenerate record sets for: the records of
/// `start_phase` become the `current` buffer and those of `target_phase` the
/// `target` buffer. On an upward transition the start records must be
/// expanded to match the target record count.
#[derive(Clone, Copy, Debug, PartialEq, Eq, Structural)]
pub struct Transition {
    pub start_phase: u32,
    pub target_phase: u32,
    pub expand_start: bool,
}

/// Everything the host needs to render one frame of the curve animation:
/// which frame record to select in the uniform table (and its byte offset),
/// and whether the resource pair must be repopulated first.
#[derive(Clone, Copy, Debug, PartialEq, Eq)]
pub struct FramePlan {
    pub frame_index: u32,
    pub dynamic_offset: u64,
    pub regenerate: Option<Transition>,
}

/// The curve animation driver: frame counter plus oscillation state. Exactly
/// one `advance` call is made per rendered frame; the index wraps after
/// `frame_count` frames and every wrap steps the oscillation by one phase.
pub struct CurveDriver {
    frame_count: u32,
    max_phase: u32,
    frame_index: u32,
    phase: u32,
    ascending: bool,
    started: bool,
    transitions: Ghost<nat>,
}

impl CurveDriver {
    /// Frames each transition is animated over.
    pub closed spec fn spec_frame_count(self) -> u32 {
        self.frame_count
    }

    /// Largest phase the oscillation visits.
    pub closed spec fn spec_max_phase(self) -> u32 {
        self.max_phase
    }

    /// Frame index within the current transition.
    pub closed spec fn spec_frame_index(self) -> u32 {
        self.frame_index
    }

    /// Phase currently displayed (the start of the running transition).
    pub closed spec fn spec_phase(self) -> u32 {
        self.phase
    }

    /// Direction the oscillation is moving.
    pub closed spec fn spec_ascending(self) -> bool {
        self.ascending
    }

    /// Whether the first frame has been planned; the very first cycle morphs
    /// from the initial phase without stepping the oscillation.
    pub closed spec fn spec_started(self) -> bool {
        self.started
    }

    /// The displayed phase and direction as one oscillation state.
    pub open spec fn phase_state(self) -> PhaseState {
        PhaseState { phase: self.spec_phase(), ascending: self.spec_ascending() }
    }

    /// Oscillation steps taken since creation.
    pub closed spec fn spec_transitions(self) -> nat {
        self.transitions@
    }

    /// Well-formedness: at least one frame per cycle, at least two phases to
    /// oscillate between, the index inside the cycle, the phase in range,
    /// and the displayed state exactly the trajectory of the steps taken.
    pub open spec fn wf(self) -> bool {
        &&& self.spec_frame_count() >= 1
        &&& self.spec_max_phase() >= 2
        &&& self.spec_frame_index() < self.spec_frame_count()
        &&& 1 <= self.spec_phase() <= self.spec_max_phase()
        &&& self.phase_state() == spec_phase_trajectory(
            self.spec_transitions(),
            self.spec_max_phase(),
        )
    }

    /// Creates a driver at frame 0, phase 1, ascending. A zero frame count
    /// or an oscillation range of fewer than two phases is a configuration
    /// error.
    pub fn new(frame_count: u32, max_phase: u32) -> (r: Result<CurveDriver, ConfigError>)
        ensures
            match r {
                Ok(d) => {
                    &&& frame_count >= 1
                    &&& max_phase >= 2
                    &&& d.wf()
                    &&& d.spec_frame_count() == frame_count
                    &&& d.spec_max_phase() == max_phase
                    &&& d.spec_frame_index() == 0
                    &&& d.phase_state() == spec_phase_trajectory(0, max_phase)
                    &&& d.spec_transitions() == 0
                    &&& !d.spec_started()
                },
                Err(e) => {
                    ||| (frame_count == 0 && e == ConfigError::ZeroFrameCount)
                    ||| (frame_count >= 1 && max_phase < 2 && e == ConfigError::PhaseRangeTooSmall)
                },
            },
    {
        if frame_count == 0 {
            return Err(ConfigError::ZeroFrameCount);
        }
        if max_phase < 2 {
            return Err(ConfigError::PhaseRangeTooSmall);
        }
        Ok(
            CurveDriver {
                frame_count,
                max_phase,
                frame_index: 0,
                phase: 1,
                ascending: true,
                started: false,
                transitions: Ghost(0),
            },
        )
    }

    /// Plans the next frame. The frame at index 0 of every cycle regenerates
    /// the resource pair: the first cycle morphs from the initial phase, and
    /// every later wrap first steps the oscillation. All other frames reuse
    /// the buffers as they are. The returned plan names the frame record to
    /// select in the uniform table; the index then moves on, wrapping to 0
    /// after `frame_count` frames.
    pub fn advance(&mut self) -> (plan: FramePlan)
        requires
            old(self).wf(),
        ensures
            final(self).wf(),
            final(self).spec_frame_count() == old(self).spec_frame_count(),
            final(self).spec_max_phase() == old(self).spec_max_phase(),
            final(self).spec_started(),
            final(self).spec_transitions() == if old(self).spec_frame_index() == 0 && old(
                self,
            ).spec_started() {
                old(self).spec_transitions() + 1
            } else {
                old(self).spec_transitions()
            },
            final(self).spec_frame_index() == ((old(self).spec_frame_index() + 1) % (old(
                self,
            ).spec_frame_count() as int)),
            plan.frame_index == old(self).spec_frame_index(),
            plan.dynamic_offset == FRAME_STRIDE * old(self).spec_frame_index(),
            old(self).spec_frame_index() != 0 ==> {
                &&& plan.regenerate is None
                &&& final(self).phase_state() == old(self).phase_state()
            },
            old(self).spec_frame_index() == 0 ==> {
                &&& final(self).phase_state() == if old(self).spec_started() {
                    spec_phase_step(old(self).phase_state(), old(self).spec_max_phase())
                } else {
                    old(self).phase_state()
                }
                &&& plan.regenerate == Some(
                    Transition {
                        start_phase: final(self).spec_phase(),
                        target_phase: spec_target_phase(
                            final(self).phase_state(),
                            old(self).spec_max_phase(),
                        ),
                        expand_start: spec_target_phase(
                            final(self).phase_state(),
                            old(self).spec_max_phase(),
                        ) > final(self).spec_phase(),
                    },
                )
            },
    {
        let frame_index = self.frame_index;
        let regenerate: Option<Transition> = if frame_index == 0 {
            if self.started {
                let stepped = step_phase(
                    PhaseState { phase: self.phase, ascending: self.ascending },
                    self.max_phase,
                );
                self.phase = stepped.phase;
                self.ascending = stepped.ascending;
                self.transitions = Ghost(self.transitions@ + 1);
            } else {
                self.started = true;
            }
            let here = PhaseState { phase: self.phase, ascending: self.ascending };
            let target = step_phase(here, self.max_phase).phase;
            Some(
                Transition {
                    start_phase: self.phase,
                    target_phase: target,
                    expand_start: target > self.phase,
                },
            )
        } else {
            None
        };
        self.started = true;
        self.frame_index = (frame_index + 1) % self.frame_count;
        FramePlan {
            frame_index,
            dynamic_offset: FRAME_STRIDE * (frame_index as u64),
            regenerate,
        }
    }

    /// Frames each transition is animated over.
    pub fn frame_count(&self) -> (r: u32)
        ensures
            r == self.spec_frame_count(),
    {
        self.frame_count
    }

    /// Largest phase the oscillation visits.
    pub fn max_phase(&self) -> (r: u32)
        ensures
            r == self.spec_max_phase(),
    {
        self.max_phase
    }

    /// Frame index within the current transition.
    pub fn frame_index(&self) -> (r: u32)
        ensures
            r == self.spec_frame_index(),
    {
        self.frame_index
    }

    /// Phase currently displayed.
    pub fn phase(&self) -> (r: u32)
        ensures
            r == self.spec_phase(),
    {
        self.phase
    }

    /// Direction the oscillation is moving.
    pub fn is_ascending(&self) -> (r: bool)
        ensures
            r == self.spec_ascending(),
    {
        self.ascending
    }
}

/// Every reachable driver state displays the oscillation's triangle wave:
/// writing `m` for the number of transitions taken so far modulo the period
/// `2 * (max_phase - 1)`, the displayed phase is `m + 1` while the wave
/// rises and `2 * max_phase - 1 - m` while it falls — so the phases trace
/// `1, 2, ..., max_phase, max_phase - 1, ..., 2, 1, 2, ...` and never leave
/// `1..=max_phase`.
pub proof fn lemma_driver_phase_is_triangle_wave(d: CurveDriver)
    requires
        d.wf(),
    ensures
        ({
            let period = (2 * (d.spec_max_phase() - 1)) as nat;
            let m = d.spec_transitions() % period;
            &&& 1 <= d.spec_phase() <= d.spec_max_phase()
            &&& d.spec_phase() == if (m as int) < d.spec_max_phase() {
                m as int + 1
            } else {
                2 * d.spec_max_phase() - 1 - m
            }
        }),
{
    lemma_phase_trajectory_oscillates(d.spec_transitions(), d.spec_max_phase());
}

/// Executable form of one oscillation step.
fn step_phase(s: PhaseState, max_phase: u32) -> (r: PhaseState)
    requires
        max_phase >= 2,
        1 <= s.phase <= max_phase,
    ensures
        r == spec_phase_step(s, max_phase),
{
    if s.ascending {
        if s.phase < max_phase {
            PhaseState { phase: s.phase + 1, ascending: true }
        } else {
            PhaseState { phase: s.phase - 1, ascending: false }
        }
    } else {
        if s.phase > 1 {
            PhaseState { phase: s.phase - 1, ascending: false }
        } else {
            PhaseState { phase: s.phase + 1, ascending: true }
        }
    }
}

} // verus!
