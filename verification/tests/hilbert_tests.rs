use anim_pipeline::ConfigError;
use anim_pipeline::driver::Transition;
use anim_pipeline::hilbert_app::CurveVertex;
use anim_pipeline::hilbert_app::HilbertCurveApp;
use anim_pipeline::hilbert_app::curve_record_count;
use anim_pipeline::hilbert_app::four_times_records;
use anim_pipeline::resize::SurfaceConfig;

fn curve_records(dimension: u32) -> Vec<CurveVertex> {
    let n = curve_record_count(dimension);
    let mut records = Vec::new();
    for i in 0..n {
        records.push(CurveVertex { x: i as i32, y: (i % 7) as i32, z: 0 });
    }
    records
}

fn records_for(t: Transition) -> (Vec<CurveVertex>, Vec<CurveVertex>) {
    let start = curve_records(t.start_phase);
    let start = if t.expand_start { four_times_records(&start) } else { start };
    (start, curve_records(t.target_phase))
}

#[test]
fn hilbert_rejects_bad_configuration() {
    assert!(matches!(
        HilbertCurveApp::new(0, 6, 800, 600),
        Err(ConfigError::ZeroFrameCount)
    ));
    assert!(matches!(
        HilbertCurveApp::new(180, 1, 800, 600),
        Err(ConfigError::PhaseRangeTooSmall)
    ));
    assert!(matches!(
        HilbertCurveApp::new(180, 14, 800, 600),
        Err(ConfigError::CapacityTooLarge)
    ));
}

#[test]
fn hilbert_record_counts_quadruple_per_dimension() {
    assert_eq!(curve_record_count(0), 1);
    assert_eq!(curve_record_count(1), 4);
    assert_eq!(curve_record_count(2), 16);
    assert_eq!(curve_record_count(6), 4096);
}

#[test]
fn hilbert_expansion_repeats_each_record_four_times() {
    let a = CurveVertex { x: 1, y: 2, z: 3 };
    let b = CurveVertex { x: 4, y: 5, z: 6 };
    let out = four_times_records(&vec![a, b]);
    assert_eq!(out, vec![a, a, a, a, b, b, b, b]);
}

#[test]
fn hilbert_first_frame_populates_then_draws() {
    let mut app = HilbertCurveApp::new(180, 6, 800, 600).unwrap();
    let script = app.begin_frame();
    assert!(!script.skip);
    assert_eq!(script.reconfigure, None);
    let plan = script.plan.unwrap();
    assert_eq!(plan.frame_index, 0);
    assert_eq!(plan.dynamic_offset, 0);
    let t = plan.regenerate.unwrap();
    assert_eq!(t, Transition { start_phase: 1, target_phase: 2, expand_start: true });
    assert_eq!(app.expected_record_counts(), Some((16, 16)));

    let (current, target) = records_for(t);
    assert_eq!(current.len(), 16);
    assert_eq!(app.populate_transition(current, target), Ok(()));
    assert_eq!(app.curve_vertex_count(), 16);

    let draw = app.draw_command();
    assert_eq!(draw.dynamic_offset, 0);
    assert_eq!(draw.element_count, 6);
    // One segment instance per pair of consecutive curve vertices.
    assert_eq!(draw.instance_count, 15);
}

#[test]
fn hilbert_transition_changes_the_instance_count() {
    // Two-frame cycles over dimensions 1 and 2.
    let mut app = HilbertCurveApp::new(2, 2, 640, 480).unwrap();
    // Cycle 1: morph 1 -> 2, drawing 16 - 1 instances.
    let script = app.begin_frame();
    let t = script.plan.unwrap().regenerate.unwrap();
    assert_eq!(t, Transition { start_phase: 1, target_phase: 2, expand_start: true });
    let (c, tr) = records_for(t);
    app.populate_transition(c, tr).unwrap();
    assert_eq!(app.draw_command().instance_count, 15);
    let script = app.begin_frame();
    assert_eq!(script.plan.unwrap().regenerate, None);
    assert_eq!(app.draw_command().instance_count, 15);
    // Cycle 2: the wrap steps the oscillation to 2, morphing down to 1.
    let script = app.begin_frame();
    let t = script.plan.unwrap().regenerate.unwrap();
    assert_eq!(t, Transition { start_phase: 2, target_phase: 1, expand_start: false });
    assert_eq!(app.dimension(), 2);
    assert_eq!(app.expected_record_counts(), Some((16, 4)));
    let (c, tr) = records_for(t);
    app.populate_transition(c, tr).unwrap();
    // The draw re-reads the freshly populated target count.
    assert_eq!(app.curve_vertex_count(), 4);
    assert_eq!(app.draw_command().instance_count, 3);
}

#[test]
fn hilbert_resize_is_applied_once_per_burst() {
    let mut app = HilbertCurveApp::new(4, 2, 800, 600).unwrap();
    app.set_window_resized(900, 700);
    app.set_window_resized(1024, 768);
    let script = app.begin_frame();
    assert_eq!(
        script.reconfigure,
        Some(SurfaceConfig { width: 1024, height: 768 })
    );
    assert_eq!(app.get_size(), SurfaceConfig { width: 1024, height: 768 });
    let script = app.begin_frame();
    assert_eq!(script.reconfigure, None);
}

#[test]
fn hilbert_minimized_window_skips_the_frame() {
    let mut app = HilbertCurveApp::new(4, 2, 800, 600).unwrap();
    app.set_window_resized(0, 0);
    let script = app.begin_frame();
    assert!(script.skip);
    assert_eq!(script.plan, None);
    assert_eq!(script.reconfigure, None);
    // The animation did not advance.
    assert_eq!(app.frame_index(), 0);
    // Restoring the window resumes rendering.
    app.set_window_resized(800, 600);
    let script = app.begin_frame();
    assert!(!script.skip);
    assert_eq!(script.reconfigure, None);
    assert_eq!(app.frame_index(), 1);
}

#[test]
fn hilbert_capacity_violations_are_rejected() {
    let mut app = HilbertCurveApp::new(4, 2, 800, 600).unwrap();
    app.begin_frame();
    // Capacity is 16 records (dimension 2); 17 must be rejected.
    let over = {
        let mut v = curve_records(2);
        v.push(CurveVertex { x: 0, y: 0, z: 0 });
        v
    };
    let err = app.populate_transition(curve_records(2), over).unwrap_err();
    assert_eq!(err.capacity, 16);
    assert_eq!(err.requested, 17);
}
