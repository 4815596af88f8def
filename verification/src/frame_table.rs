//! The frame uniform table: per-frame interpolation parameters, computed once
//! at initialization and uploaded into a strided, dynamically offset uniform
//! buffer. Parameters are kept as exact rationals and fixed-point integers;
//! the host converts them to the device's scalar format at upload time.

use vstd::prelude::*;

use crate::ConfigError;
use vstd::arithmetic::div_mod::lemma_fundamental_div_mod;
use vstd::arithmetic::div_mod::lemma_mod_multiples_basic;

verus! {

/// Byte stride between consecutive records of a dynamically offset uniform
/// buffer: the worst-case alignment the target device may demand.
pub const FRAME_STRIDE: u64 = 256;

/// Interpolation parameters for one animation frame.
///
/// `ratio_num / ratio_den` is the progress ratio from the start curve to the
/// target curve; it runs from 0 at the first frame to 1 at the last.
/// `depth_bias_milli` is the depth bias in thousandths; it starts at 1000
/// (a bias of one) and falls by 10 per frame.
#[derive(Clone, Copy, Debug, PartialEq, Eq, Structural)]
pub struct FrameParam {
    pub ratio_num: u32,
    pub ratio_den: u32,
    pub depth_bias_milli: i64,
}

/// The parameters the table holds for frame `i` of an animation over
/// `frame_count` frames.
pub open spec fn spec_frame_param(frame_count: u32, i: int) -> FrameParam {
    FrameParam {
        ratio_num: i as u32,
        ratio_den: if frame_count <= 1 { 1u32 } else { (frame_count - 1) as u32 },
        depth_bias_milli: (1000 - 10 * i) as i64,
    }
}

/// `s` is the frame uniform table for an animation over `frame_count` frames.
pub open spec fn is_frame_table(frame_count: u32, s: Seq<FrameParam>) -> bool {
    &&& s.len() == frame_count
    &&& forall|i: int| 0 <= i < s.len() ==> s[i] == spec_frame_param(frame_count, i)
}

/// Builds the frame uniform table: one record per frame, interpolation ratio
/// rising from 0 to 1 and depth bias falling from 1000 by 10 per frame.
/// A zero frame count is a configuration error; nothing is built.
pub fn build_frame_table(frame_count: u32) -> (r: Result<Vec<FrameParam>, ConfigError>)
    ensures
        match r {
            Ok(table) => frame_count > 0 && is_frame_table(frame_count, table@),
            Err(e) => frame_count == 0 && e == ConfigError::ZeroFrameCount,
        },
{
    if frame_count == 0 {
        return Err(ConfigError::ZeroFrameCount);
    }
    let den: u32 = if frame_count == 1 { 1 } else { frame_count - 1 };
    let mut table: Vec<FrameParam> = Vec::new();
    let mut step: u32 = 0;
    while step < frame_count
        invariant
            step <= frame_count,
            frame_count > 0,
            den == if frame_count <= 1 { 1u32 } else { (frame_count - 1) as u32 },
            table@.len() == step,
            forall|i: int| 0 <= i < step ==> table@[i] == spec_frame_param(frame_count, i),
        decreases frame_count - step,
    {
        let bias: i64 = 1000 - 10 * (step as i64);
        table.push(FrameParam { ratio_num: step, ratio_den: den, depth_bias_milli: bias });
        step = step + 1;
    }
    Ok(table)
}

/// The table has one record per frame; the first record carries the starting
/// values (ratio 0, bias 1000), the last carries the ending ratio of 1
/// whenever the animation spans more than one frame, and both parameters vary
/// strictly monotonically in between.
pub proof fn lemma_frame_table_endpoints(frame_count: u32, s: Seq<FrameParam>)
    requires
        frame_count >= 1,
        is_frame_table(frame_count, s),
    ensures
        s.len() == frame_count,
        s[0].ratio_num == 0,
        s[0].depth_bias_milli == 1000,
        frame_count >= 2 ==> s[frame_count - 1].ratio_num == s[frame_count - 1].ratio_den,
        forall|i: int, j: int|
            0 <= i < j < s.len() ==> s[i].ratio_num < s[j].ratio_num
                && s[i].depth_bias_milli > s[j].depth_bias_milli,
{
    assert(s[0] == spec_frame_param(frame_count, 0));
    assert(s[frame_count - 1] == spec_frame_param(frame_count, frame_count - 1));
}

/// Byte offset of frame `frame_index` inside the strided uniform buffer.
pub fn frame_offset(frame_index: u32) -> (r: u64)
    ensures
        r == FRAME_STRIDE * frame_index,
{
    FRAME_STRIDE * (frame_index as u64)
}

/// Bytes a strided uniform buffer must hold for `frame_count` records.
pub fn table_byte_size(frame_count: u32) -> (r: u64)
    ensures
        r == FRAME_STRIDE * frame_count,
{
    FRAME_STRIDE * (frame_count as u64)
}

/// Rounds a record size up to the next multiple of the device's uniform
/// alignment, the stride actually used between records.
pub fn aligned_stride(record_size: u64, alignment: u64) -> (r: u64)
    requires
        alignment >= 1,
        record_size + alignment - 1 <= u64::MAX,
    ensures
        r % alignment == 0,
        record_size <= r < record_size + alignment,
{
    let q = (record_size + (alignment - 1)) / alignment;
    proof {
        lemma_fundamental_div_mod(record_size + alignment - 1, alignment as int);
        lemma_mod_multiples_basic(q as int, alignment as int);
        assert(q * alignment == alignment * q) by (nonlinear_arith);
    }
    q * alignment
}

/// The blend factor the particle animation uses at one frame, as the exact
/// rational `frame_alpha_num / frame_alpha_den`.
#[derive(Clone, Copy, Debug, PartialEq, Eq, Structural)]
pub struct ParticleFrameUniform {
    pub frame_alpha_num: u64,
    pub frame_alpha_den: u64,
}

/// Builds the per-frame blend factors for the particle animation: frame `i`
/// gets the factor `4 * i / frame_count`, so the factor passes 1 a quarter of
/// the way through the cycle and grows to 4 by its end.
pub fn init_frame_uniforms(frame_count: u32) -> (r: Vec<ParticleFrameUniform>)
    ensures
        r@.len() == frame_count,
        forall|i: int|
            0 <= i < frame_count ==> r@[i] == (ParticleFrameUniform {
                frame_alpha_num: (4 * i) as u64,
                frame_alpha_den: frame_count as u64,
            }),
{
    let mut arr: Vec<ParticleFrameUniform> = Vec::new();
    let mut i: u32 = 0;
    while i < frame_count
        invariant
            i <= frame_count,
            arr@.len() == i,
            forall|k: int|
                0 <= k < i ==> arr@[k] == (ParticleFrameUniform {
                    frame_alpha_num: (4 * k) as u64,
                    frame_alpha_den: frame_count as u64,
                }),
        decreases frame_count - i,
    {
        arr.push(
            ParticleFrameUniform {
                frame_alpha_num: 4 * (i as u64),
                frame_alpha_den: frame_count as u64,
            },
        );
        i = i + 1;
    }
    arr
}

} // verus!
