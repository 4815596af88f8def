//! The draw emitter: computes the parameters of the one draw call a frame
//! issues — which slice of the frame uniform table to bind through the
//! dynamic offset, how many elements each instance has, and how many
//! instances to draw for the record set currently staged as `target`.

use vstd::prelude::*;

use crate::frame_table::FRAME_STRIDE;
use crate::resource_pair::ResourcePair;

verus! {

/// Elements (vertices or indices) one instance of a draw covers: both the
/// per-segment quad of the curve renderer and the per-particle quad are two
/// triangles.
pub const ELEMENTS_PER_INSTANCE: u32 = 6;

/// How the instance count of a draw is derived from the staged record count.
#[derive(Clone, Copy, Debug, PartialEq, Eq, Structural)]
pub enum DrawKind {
    /// One instance per pair of consecutive records (a line segment between
    /// neighbouring points): `record_count - 1` instances.
    SegmentInstances,
    /// One instance per record (an independent particle): `record_count`
    /// instances.
    RecordInstances,
}

/// Instances a draw over `record_count` records issues. An empty record set
/// draws nothing under either kind.
pub open spec fn spec_instances_for(record_count: int, kind: DrawKind) -> int {
    match kind {
        DrawKind::SegmentInstances => if record_count == 0 {
            0
        } else {
            record_count - 1
        },
        DrawKind::RecordInstances => record_count,
    }
}

/// One recorded draw call: the byte offset selecting the current frame's
/// record in the uniform table, and the element and instance counts.
#[derive(Clone, Copy, Debug, PartialEq, Eq, Structural)]
pub struct DrawCommand {
    pub dynamic_offset: u64,
    pub element_count: u32,
    pub instance_count: u32,
}

/// The draw command for frame `frame_index` over a pair staging
/// `record_count` target records.
pub open spec fn spec_draw_command(frame_index: u32, record_count: int, kind: DrawKind) -> DrawCommand {
    DrawCommand {
        dynamic_offset: (FRAME_STRIDE * frame_index) as u64,
        element_count: ELEMENTS_PER_INSTANCE,
        instance_count: spec_instances_for(record_count, kind) as u32,
    }
}

/// Emits the draw call for one frame. The instance count is re-derived from
/// the record count staged in `target` at this very call — it is never
/// cached, because the count changes whenever a phase transition repopulated
/// the pair.
pub fn emit<T>(pair: &ResourcePair<T>, frame_index: u32, kind: DrawKind) -> (r: DrawCommand)
    requires
        pair.wf(),
        pair.spec_populated(),
        pair.target_records().len() <= u32::MAX,
    ensures
        r == spec_draw_command(frame_index, pair.target_records().len() as int, kind),
        r.dynamic_offset == FRAME_STRIDE * frame_index,
        r.element_count == ELEMENTS_PER_INSTANCE,
        r.instance_count == spec_instances_for(pair.target_records().len() as int, kind),
{
    let record_count: u32 = pair.target_count() as u32;
    let instance_count: u32 = match kind {
        DrawKind::SegmentInstances => if record_count == 0 {
            0
        } else {
            record_count - 1
        },
        DrawKind::RecordInstances => record_count,
    };
    DrawCommand {
        dynamic_offset: FRAME_STRIDE * (frame_index as u64),
        element_count: ELEMENTS_PER_INSTANCE,
        instance_count,
    }
}

/// A populate followed by an emit in the same frame never reads stale data:
/// whatever the pair held before, once a population staged `target`, the
/// emitted draw derives its instance count from exactly that record set.
pub proof fn lemma_emit_follows_population<T>(
    post: ResourcePair<T>,
    target: Seq<T>,
    frame_index: u32,
    kind: DrawKind,
)
    requires
        post.target_records() == target,
        target.len() <= u32::MAX,
    ensures
        spec_draw_command(frame_index, post.target_records().len() as int, kind).instance_count
            == spec_instances_for(target.len() as int, kind),
{
}

} // verus!
