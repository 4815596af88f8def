//! The curve-morph application: the per-frame orchestration of the resize
//! adapter, the animation driver, the ping-pong resource pair and the draw
//! emitter for the space-filling-curve animation. Each rendered frame the
//! host calls `begin_frame`, performs the returned reconfiguration and
//! repopulation work, and then records the draw that `draw_command` emits.

use vstd::prelude::*;

use crate::CapacityError;
use crate::ConfigError;
use crate::arith::lemma_div_of_multiple_plus_remainder;
use crate::driver::CurveDriver;
use crate::driver::FramePlan;
use crate::driver::Transition;
use crate::driver::lemma_phase_step_stays_in_range;
use crate::driver::spec_phase_step;
use crate::driver::spec_target_phase;
use crate::emitter::DrawCommand;
use crate::emitter::DrawKind;
use crate::emitter::emit;
use crate::emitter::spec_draw_command;
use crate::frame_table::FRAME_STRIDE;
use crate::frame_table::FrameParam;
use crate::frame_table::build_frame_table;
use crate::frame_table::is_frame_table;
use crate::resize::ResizeAdapter;
use crate::resize::SurfaceConfig;
use crate::resize::spec_apply;
use crate::resource_pair::ResourcePair;

verus! {

/// Bytes one curve vertex occupies on the device: three 4-byte scalars.
pub const CURVE_VERTEX_SIZE: usize = 12;

/// Largest curve dimension the application accepts; keeps every record
/// count comfortably inside the addressable range.
pub const MAX_DIMENSION: u32 = 13;

/// A curve vertex on the integer grid the curve of a given dimension is
/// defined over; the host scales it to device coordinates at upload time.
#[derive(Clone, Copy, Debug, PartialEq, Eq, Structural)]
pub struct CurveVertex {
    pub x: i32,
    pub y: i32,
    pub z: i32,
}

/// Vertices the curve of dimension `n` has: four times more at each
/// dimension, one at dimension 0.
pub open spec fn pow4(n: nat) -> nat
    decreases n,
{
    if n == 0 {
        1
    } else {
        4 * pow4((n - 1) as nat)
    }
}

/// `pow4` grows monotonically.
pub proof fn lemma_pow4_monotonic(a: nat, b: nat)
    requires
        a <= b,
    ensures
        pow4(a) <= pow4(b),
    decreases b,
{
    if a < b {
        lemma_pow4_monotonic(a, (b - 1) as nat);
    }
}

/// Every record count up to the accepted maximum dimension stays below
/// `2^26`.
pub proof fn lemma_pow4_bounded(n: nat)
    requires
        n <= MAX_DIMENSION,
    ensures
        1 <= pow4(n) <= 0x4000000,
{
    lemma_pow4_monotonic(0, n);
    lemma_pow4_monotonic(n, MAX_DIMENSION as nat);
    reveal_with_fuel(pow4, 14);
    assert(pow4(MAX_DIMENSION as nat) == 0x4000000);
}

/// Vertices the curve of dimension `dimension` has.
pub fn curve_record_count(dimension: u32) -> (r: usize)
    requires
        dimension <= MAX_DIMENSION,
    ensures
        r == pow4(dimension as nat),
        1 <= r <= 0x4000000,
{
    let mut i: u32 = 0;
    let mut acc: usize = 1;
    while i < dimension
        invariant
            i <= dimension <= MAX_DIMENSION,
            acc == pow4(i as nat),
        decreases dimension - i,
    {
        proof {
            lemma_pow4_bounded((i + 1) as nat);
        }
        acc = acc * 4;
        i = i + 1;
    }
    proof {
        lemma_pow4_bounded(dimension as nat);
    }
    acc
}

/// Expands a record set for an upward transition: every record is repeated
/// four times in place, so a curve of dimension `n` gains the record count
/// of dimension `n + 1` while tracing the same shape.
pub fn four_times_records(records: &Vec<CurveVertex>) -> (r: Vec<CurveVertex>)
    requires
        4 * records@.len() <= usize::MAX,
    ensures
        r@.len() == 4 * records@.len(),
        forall|i: int| 0 <= i < r@.len() ==> r@[i] == records@[i / 4],
{
    let mut out: Vec<CurveVertex> = Vec::new();
    let mut j: usize = 0;
    while j < records.len()
        invariant
            j <= records@.len(),
            4 * records@.len() <= usize::MAX,
            out@.len() == 4 * j,
            forall|i: int| 0 <= i < out@.len() ==> out@[i] == records@[i / 4],
        decreases records@.len() - j,
    {
        let v = records[j];
        let mut k: usize = 0;
        while k < 4
            invariant
                k <= 4,
                j < records@.len(),
                4 * records@.len() <= usize::MAX,
                v == records@[j as int],
                out@.len() == 4 * j + k,
                forall|i: int| 0 <= i < out@.len() ==> out@[i] == records@[i / 4],
            decreases 4 - k,
        {
            proof {
                lemma_div_of_multiple_plus_remainder((4 * j + k) as nat, j as nat, k as nat, 4);
            }
            out.push(v);
            k = k + 1;
        }
        j = j + 1;
    }
    out
}

/// Record counts a pending transition obliges the host to produce: the
/// start-phase records (expanded fourfold on an upward transition, to match
/// the target) and the target-phase records.
pub open spec fn spec_expected_counts(t: Transition) -> (nat, nat) {
    (
        if t.expand_start {
            4 * pow4(t.start_phase as nat)
        } else {
            pow4(t.start_phase as nat)
        },
        pow4(t.target_phase as nat),
    )
}

/// A transition the driver can emit: both phases in range, one apart, and
/// the expansion flag set exactly on the upward step.
pub open spec fn valid_transition(t: Transition, max_phase: u32) -> bool {
    &&& 1 <= t.start_phase <= max_phase
    &&& 1 <= t.target_phase <= max_phase
    &&& (t.expand_start <==> t.target_phase > t.start_phase)
    &&& (t.target_phase == t.start_phase + 1 || t.target_phase == t.start_phase - 1)
}

/// Everything the host must do before recording this frame's draw: maybe
/// reconfigure the surface, maybe skip the frame entirely (minimized
/// window), and — when the plan carries a transition — regenerate and
/// repopulate the record buffers.
#[derive(Clone, Copy, Debug, PartialEq, Eq)]
pub struct FrameScript {
    pub reconfigure: Option<SurfaceConfig>,
    pub skip: bool,
    pub plan: Option<FramePlan>,
}

/// The curve-morph application state.
pub struct HilbertCurveApp {
    resize: ResizeAdapter,
    driver: CurveDriver,
    pair: ResourcePair<CurveVertex>,
    frame_params: Vec<FrameParam>,
    pending: Option<Transition>,
    last_frame_index: u32,
}

impl HilbertCurveApp {
    /// The resize adapter state.
    pub closed spec fn spec_resize(self) -> ResizeAdapter {
        self.resize
    }

    /// The animation driver state.
    pub closed spec fn spec_driver(self) -> CurveDriver {
        self.driver
    }

    /// The resource pair state.
    pub closed spec fn spec_pair(self) -> ResourcePair<CurveVertex> {
        self.pair
    }

    /// The frame uniform table.
    pub closed spec fn spec_frame_params(self) -> Seq<FrameParam> {
        self.frame_params@
    }

    /// The transition whose record sets the host still owes, if any.
    pub closed spec fn spec_pending(self) -> Option<Transition> {
        self.pending
    }

    /// The frame index the most recent plan selected.
    pub closed spec fn spec_last_frame_index(self) -> u32 {
        self.last_frame_index
    }

    /// Frames each transition is animated over.
    pub open spec fn spec_frame_count(self) -> u32 {
        self.spec_driver().spec_frame_count()
    }

    /// Largest curve dimension the oscillation visits.
    pub open spec fn spec_max_phase(self) -> u32 {
        self.spec_driver().spec_max_phase()
    }

    /// Well-formedness of the composed application.
    pub open spec fn wf(self) -> bool {
        &&& self.spec_resize().wf()
        &&& self.spec_driver().wf()
        &&& self.spec_pair().wf()
        &&& self.spec_max_phase() <= MAX_DIMENSION
        &&& is_frame_table(self.spec_frame_count(), self.spec_frame_params())
        &&& self.spec_pair().spec_capacity() == pow4(self.spec_max_phase() as nat)
        &&& self.spec_pair().spec_record_size() == CURVE_VERTEX_SIZE
        &&& (self.spec_pending() matches Some(t) ==> valid_transition(t, self.spec_max_phase()))
        &&& self.spec_last_frame_index() < self.spec_frame_count()
    }

    /// Builds the application: the frame uniform table, the driver at phase
    /// 1 ascending, a resource pair sized once for the largest dimension the
    /// oscillation will ever visit, and a clean resize adapter at the given
    /// surface size. Fails fast on a zero frame count, an oscillation over
    /// fewer than two dimensions, or a dimension beyond the supported range;
    /// nothing is partially constructed.
    pub fn new(frame_count: u32, max_dimension: u32, surface_width: u32, surface_height: u32) -> (r:
        Result<HilbertCurveApp, ConfigError>)
        ensures
            match r {
                Ok(app) => {
                    &&& frame_count >= 1
                    &&& 2 <= max_dimension <= MAX_DIMENSION
                    &&& app.wf()
                    &&& app.spec_frame_count() == frame_count
                    &&& app.spec_max_phase() == max_dimension
                    &&& app.spec_driver().spec_frame_index() == 0
                    &&& app.spec_driver().spec_phase() == 1
                    &&& app.spec_driver().spec_ascending()
                    &&& !app.spec_driver().spec_started()
                    &&& !app.spec_pair().spec_populated()
                    &&& app.spec_pending() is None
                    &&& app.spec_resize().config == (SurfaceConfig {
                        width: surface_width,
                        height: surface_height,
                    })
                    &&& !app.spec_resize().dirty
                },
                Err(e) => {
                    ||| (frame_count == 0 && e == ConfigError::ZeroFrameCount)
                    ||| (frame_count >= 1 && max_dimension < 2 && e
                        == ConfigError::PhaseRangeTooSmall)
                    ||| (frame_count >= 1 && max_dimension > MAX_DIMENSION && e
                        == ConfigError::CapacityTooLarge)
                },
            },
    {
        if frame_count == 0 {
            return Err(ConfigError::ZeroFrameCount);
        }
        if max_dimension < 2 {
            return Err(ConfigError::PhaseRangeTooSmall);
        }
        if max_dimension > MAX_DIMENSION {
            return Err(ConfigError::CapacityTooLarge);
        }
        let frame_params = match build_frame_table(frame_count) {
            Ok(t) => t,
            Err(e) => { return Err(e) },
        };
        let driver = match CurveDriver::new(frame_count, max_dimension) {
            Ok(d) => d,
            Err(e) => { return Err(e) },
        };
        let capacity = curve_record_count(max_dimension);
        let pair = match ResourcePair::<CurveVertex>::allocate(capacity, CURVE_VERTEX_SIZE) {
            Ok(p) => p,
            Err(e) => { return Err(e) },
        };
        Ok(
            HilbertCurveApp {
                resize: ResizeAdapter::new(surface_width, surface_height),
                driver,
                pair,
                frame_params,
                pending: None,
                last_frame_index: 0,
            },
        )
    }

    /// Records a resize notification; no surface work happens until the next
    /// frame begins.
    pub fn set_window_resized(&mut self, width: u32, height: u32)
        requires
            old(self).wf(),
        ensures
            final(self).wf(),
            final(self).spec_resize().config == old(self).spec_resize().config,
            final(self).spec_resize().pending == (SurfaceConfig { width, height }),
            final(self).spec_resize().dirty == (final(self).spec_resize().pending != old(
                self,
            ).spec_resize().config),
            final(self).spec_driver() == old(self).spec_driver(),
            final(self).spec_pair() == old(self).spec_pair(),
            final(self).spec_frame_params() == old(self).spec_frame_params(),
            final(self).spec_pending() == old(self).spec_pending(),
            final(self).spec_last_frame_index() == old(self).spec_last_frame_index(),
    {
        self.resize.on_resize(width, height);
    }

    /// The size the surface is currently configured to.
    pub fn get_size(&self) -> (r: SurfaceConfig)
        ensures
            r == self.spec_resize().config,
    {
        self.resize.configured_size()
    }

    /// Plans one rendered frame. A minimized surface skips the frame and
    /// changes nothing. Otherwise the deferred resize is applied (at most
    /// one reconfiguration, however many notifications arrived), the driver
    /// advances, and any transition it decides becomes the pending
    /// record-regeneration obligation the host must fulfil — via
    /// `populate_transition` — before this frame's draw can be emitted.
    pub fn begin_frame(&mut self) -> (r: FrameScript)
        requires
            old(self).wf(),
        ensures
            final(self).wf(),
            final(self).spec_frame_count() == old(self).spec_frame_count(),
            final(self).spec_max_phase() == old(self).spec_max_phase(),
            final(self).spec_frame_params() == old(self).spec_frame_params(),
            final(self).spec_pair() == old(self).spec_pair(),
            (old(self).spec_resize().pending.width == 0 || old(
                self,
            ).spec_resize().pending.height == 0) ==> {
                &&& r.skip
                &&& r.reconfigure is None
                &&& r.plan is None
                &&& *final(self) == *old(self)
            },
            (old(self).spec_resize().pending.width > 0 && old(
                self,
            ).spec_resize().pending.height > 0) ==> {
                &&& !r.skip
                &&& (final(self).spec_resize(), r.reconfigure) == spec_apply(
                    old(self).spec_resize(),
                )
                &&& r.plan is Some
                &&& {
                    let plan = r.plan->0;
                    &&& plan.frame_index == old(self).spec_driver().spec_frame_index()
                    &&& plan.dynamic_offset == FRAME_STRIDE * old(
                        self,
                    ).spec_driver().spec_frame_index()
                    &&& final(self).spec_last_frame_index() == plan.frame_index
                    &&& final(self).spec_driver().spec_frame_index() == ((old(
                        self,
                    ).spec_driver().spec_frame_index() + 1) % (old(self).spec_frame_count() as int))
                    &&& (old(self).spec_driver().spec_frame_index() != 0 ==> {
                        &&& plan.regenerate is None
                        &&& final(self).spec_driver().phase_state() == old(
                            self,
                        ).spec_driver().phase_state()
                        &&& final(self).spec_pending() == old(self).spec_pending()
                    })
                    &&& (old(self).spec_driver().spec_frame_index() == 0 ==> {
                        &&& final(self).spec_driver().phase_state() == (if old(
                            self,
                        ).spec_driver().spec_started() {
                            spec_phase_step(
                                old(self).spec_driver().phase_state(),
                                old(self).spec_max_phase(),
                            )
                        } else {
                            old(self).spec_driver().phase_state()
                        })
                        &&& plan.regenerate == Some(
                            Transition {
                                start_phase: final(self).spec_driver().spec_phase(),
                                target_phase: spec_target_phase(
                                    final(self).spec_driver().phase_state(),
                                    old(self).spec_max_phase(),
                                ),
                                expand_start: spec_target_phase(
                                    final(self).spec_driver().phase_state(),
                                    old(self).spec_max_phase(),
                                ) > final(self).spec_driver().spec_phase(),
                            },
                        )
                        &&& final(self).spec_pending() == plan.regenerate
                    })
                }
            },
    {
        let latest = self.resize.latest_size();
        if latest.width == 0 || latest.height == 0 {
            return FrameScript { reconfigure: None, skip: true, plan: None };
        }
        let reconfigure = self.resize.apply_if_dirty();
        let plan = self.driver.advance();
        match plan.regenerate {
            Some(t) => {
                proof {
                    lemma_phase_step_stays_in_range(
                        self.driver.phase_state(),
                        self.driver.spec_max_phase(),
                    );
                }
                self.pending = Some(t);
            },
            None => {},
        }
        self.last_frame_index = plan.frame_index;
        FrameScript { reconfigure, skip: false, plan: Some(plan) }
    }

    /// Record counts the host must produce for the pending transition:
    /// start-phase records (already expanded on an upward step) and
    /// target-phase records. `None` when no repopulation is owed.
    pub fn expected_record_counts(&self) -> (r: Option<(usize, usize)>)
        requires
            self.wf(),
        ensures
            match r {
                Some(counts) => {
                    &&& self.spec_pending() matches Some(t)
                    &&& (counts.0 as nat, counts.1 as nat) == spec_expected_counts(
                        self.spec_pending()->0,
                    )
                },
                None => self.spec_pending() is None,
            },
    {
        match self.pending {
            Some(t) => {
                let start = curve_record_count(t.start_phase);
                let target = curve_record_count(t.target_phase);
                if t.expand_start {
                    proof {
                        lemma_pow4_bounded(t.start_phase as nat + 1);
                    }
                    Some((4 * start, target))
                } else {
                    Some((start, target))
                }
            },
            None => None,
        }
    }

    /// The record sets any transition the driver plans can demand always fit
    /// the pair allocated at construction: capacity violations are ruled out
    /// by construction, not recovered from at run time.
    pub proof fn lemma_transition_records_fit(self)
        requires
            self.wf(),
            self.spec_pending() is Some,
        ensures
            spec_expected_counts(self.spec_pending()->0).0 <= self.spec_pair().spec_capacity(),
            spec_expected_counts(self.spec_pending()->0).1 <= self.spec_pair().spec_capacity(),
    {
        let t = self.spec_pending()->0;
        let max = self.spec_max_phase();
        if t.expand_start {
            assert(4 * pow4(t.start_phase as nat) == pow4((t.start_phase + 1) as nat));
            lemma_pow4_monotonic((t.start_phase + 1) as nat, max as nat);
        } else {
            lemma_pow4_monotonic(t.start_phase as nat, max as nat);
        }
        lemma_pow4_monotonic(t.target_phase as nat, max as nat);
    }

    /// Overwrites both record buffers for the pending transition and clears
    /// the obligation. Succeeds if and only if both sets fit the fixed
    /// capacity; a failure leaves the buffers exactly as they were.
    pub fn populate_transition(
        &mut self,
        current_records: Vec<CurveVertex>,
        target_records: Vec<CurveVertex>,
    ) -> (r: Result<(), CapacityError>)
        requires
            old(self).wf(),
        ensures
            final(self).wf(),
            final(self).spec_resize() == old(self).spec_resize(),
            final(self).spec_driver() == old(self).spec_driver(),
            final(self).spec_frame_params() == old(self).spec_frame_params(),
            final(self).spec_last_frame_index() == old(self).spec_last_frame_index(),
            final(self).spec_pair().spec_capacity() == old(self).spec_pair().spec_capacity(),
            final(self).spec_pair().spec_record_size() == old(self).spec_pair().spec_record_size(),
            match r {
                Ok(()) => {
                    &&& current_records@.len() <= old(self).spec_pair().spec_capacity()
                    &&& target_records@.len() <= old(self).spec_pair().spec_capacity()
                    &&& final(self).spec_pair().current_records() == current_records@
                    &&& final(self).spec_pair().target_records() == target_records@
                    &&& final(self).spec_pair().spec_populated()
                    &&& final(self).spec_pending() is None
                },
                Err(e) => {
                    &&& (current_records@.len() > old(self).spec_pair().spec_capacity()
                        || target_records@.len() > old(self).spec_pair().spec_capacity())
                    &&& final(self).spec_pair() == old(self).spec_pair()
                    &&& final(self).spec_pending() == old(self).spec_pending()
                    &&& e.capacity == old(self).spec_pair().spec_capacity()
                    &&& e.requested == if current_records@.len() > old(
                        self,
                    ).spec_pair().spec_capacity() {
                        current_records@.len()
                    } else {
                        target_records@.len()
                    }
                },
            },
    {
        let r = self.pair.populate(current_records, target_records);
        match r {
            Ok(()) => {
                self.pending = None;
                Ok(())
            },
            Err(e) => Err(e),
        }
    }

    /// Emits the draw for the frame most recently planned. Requires every
    /// owed repopulation to have happened, so the draw's instance count is
    /// derived from the record set staged for this very frame — one segment
    /// instance per pair of consecutive curve vertices.
    pub fn draw_command(&self) -> (r: DrawCommand)
        requires
            self.wf(),
            self.spec_pair().spec_populated(),
            self.spec_pending() is None,
        ensures
            r == spec_draw_command(
                self.spec_last_frame_index(),
                self.spec_pair().target_records().len() as int,
                DrawKind::SegmentInstances,
            ),
    {
        proof {
            lemma_pow4_bounded(self.spec_max_phase() as nat);
        }
        emit(&self.pair, self.last_frame_index, DrawKind::SegmentInstances)
    }

    /// Whether both record buffers have been fully written at least once; a
    /// draw may only be emitted afterwards.
    pub fn is_populated(&self) -> (r: bool)
        ensures
            r == self.spec_pair().spec_populated(),
    {
        self.pair.is_populated()
    }

    /// Vertices the current target curve has; the instance count of the next
    /// draw is one less. Re-read every frame — it changes at transitions.
    pub fn curve_vertex_count(&self) -> (r: usize)
        ensures
            r == self.spec_pair().target_records().len(),
    {
        self.pair.target_count()
    }

    /// The frame uniform table, one record per frame.
    pub fn frame_params(&self) -> (r: &Vec<FrameParam>)
        ensures
            r@ == self.spec_frame_params(),
    {
        &self.frame_params
    }

    /// The transition whose record sets the host still owes, if any.
    pub fn pending_transition(&self) -> (r: Option<Transition>)
        ensures
            r == self.spec_pending(),
    {
        self.pending
    }

    /// Dimension currently displayed (the start of the running transition).
    pub fn dimension(&self) -> (r: u32)
        ensures
            r == self.spec_driver().spec_phase(),
    {
        self.driver.phase()
    }

    /// Whether the oscillation is currently raising the dimension.
    pub fn is_animation_up(&self) -> (r: bool)
        ensures
            r == self.spec_driver().spec_ascending(),
    {
        self.driver.is_ascending()
    }

    /// Frame index within the current transition.
    pub fn frame_index(&self) -> (r: u32)
        ensures
            r == self.spec_driver().spec_frame_index(),
    {
        self.driver.frame_index()
    }

    /// Frames each transition is animated over.
    pub fn draw_count(&self) -> (r: u32)
        ensures
            r == self.spec_frame_count(),
    {
        self.driver.frame_count()
    }
}

} // verus!
