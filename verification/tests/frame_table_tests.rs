use anim_pipeline::ConfigError;
use anim_pipeline::frame_table::FRAME_STRIDE;
use anim_pipeline::frame_table::aligned_stride;
use anim_pipeline::frame_table::build_frame_table;
use anim_pipeline::frame_table::frame_offset;
use anim_pipeline::frame_table::init_frame_uniforms;
use anim_pipeline::frame_table::table_byte_size;

#[test]
fn frame_table_zero_count_rejected() {
    assert_eq!(build_frame_table(0), Err(ConfigError::ZeroFrameCount));
}

#[test]
fn frame_table_endpoints_over_180_frames() {
    let table = build_frame_table(180).unwrap();
    assert_eq!(table.len(), 180);
    // Start record: ratio 0, depth bias 1.0 (in thousandths).
    assert_eq!(table[0].ratio_num, 0);
    assert_eq!(table[0].ratio_den, 179);
    assert_eq!(table[0].depth_bias_milli, 1000);
    // End record: ratio exactly 1.
    assert_eq!(table[179].ratio_num, 179);
    assert_eq!(table[179].ratio_den, 179);
    assert_eq!(table[179].depth_bias_milli, 1000 - 10 * 179);
    // Strictly monotonic in between.
    for i in 1..180 {
        assert!(table[i].ratio_num > table[i - 1].ratio_num);
        assert!(table[i].depth_bias_milli < table[i - 1].depth_bias_milli);
    }
}

#[test]
fn frame_table_single_frame() {
    let table = build_frame_table(1).unwrap();
    assert_eq!(table.len(), 1);
    assert_eq!(table[0].ratio_num, 0);
    assert_eq!(table[0].ratio_den, 1);
    assert_eq!(table[0].depth_bias_milli, 1000);
}

#[test]
fn frame_offsets_follow_the_stride() {
    assert_eq!(FRAME_STRIDE, 256);
    assert_eq!(frame_offset(0), 0);
    assert_eq!(frame_offset(1), 256);
    assert_eq!(frame_offset(7), 1792);
    assert_eq!(table_byte_size(180), 180 * 256);
}

#[test]
fn aligned_stride_rounds_up() {
    assert_eq!(aligned_stride(0, 256), 0);
    assert_eq!(aligned_stride(8, 256), 256);
    assert_eq!(aligned_stride(256, 256), 256);
    assert_eq!(aligned_stride(257, 256), 512);
    assert_eq!(aligned_stride(12, 64), 64);
}

#[test]
fn particle_frame_uniforms_quarter_cycle_blend() {
    let arr = init_frame_uniforms(180);
    assert_eq!(arr.len(), 180);
    // Frame 0 starts at blend 0.
    assert_eq!(arr[0].frame_alpha_num, 0);
    assert_eq!(arr[0].frame_alpha_den, 180);
    // A quarter of the way through the cycle the blend factor reaches 1.
    assert_eq!(arr[45].frame_alpha_num, 180);
    assert_eq!(arr[45].frame_alpha_den, 180);
    // The last frame reaches 716 / 180, just below 4.
    assert_eq!(arr[179].frame_alpha_num, 716);
}

#[test]
fn particle_frame_uniforms_empty_for_zero_frames() {
    assert!(init_frame_uniforms(0).is_empty());
}
