use anim_pipeline::ConfigError;
use anim_pipeline::particle_ink::ParticleInk;

#[test]
fn particle_rejects_bad_configuration() {
    assert!(matches!(ParticleInk::new(8, 8, 0), Err(ConfigError::ZeroFrameCount)));
    assert!(matches!(ParticleInk::new(0, 8, 180), Err(ConfigError::ZeroCapacity)));
    assert!(matches!(ParticleInk::new(8, 0, 180), Err(ConfigError::ZeroCapacity)));
    assert!(matches!(
        ParticleInk::new(1 << 16, 1 << 16, 180),
        Err(ConfigError::CapacityTooLarge)
    ));
}

#[test]
fn particle_cycle_of_180_frames_resets_once() {
    let mut ink = ParticleInk::new(4, 4, 180).unwrap();
    let mut resets = 0;
    let mut completions = 0;
    for _ in 0..180 {
        if ink.cal_particles_move().run_reset {
            resets += 1;
        }
        let (_draw, completed) = ink.enter_frame();
        if completed {
            completions += 1;
        }
    }
    // After exactly 180 per-frame advances the index is back at 0 and the
    // cycle completed exactly once; the reset stage ran exactly once, on the
    // cycle's first frame.
    assert_eq!(ink.animate_index(), 0);
    assert_eq!(completions, 1);
    assert_eq!(resets, 1);
    // The next frame starts the following cycle with a fresh reset.
    assert!(ink.cal_particles_move().run_reset);
}

#[test]
fn particle_workgroups_cover_every_particle() {
    let ink = ParticleInk::new(8, 8, 60).unwrap();
    assert_eq!(ink.particle_count(), 64);
    assert_eq!(ink.cal_particles_move().workgroup_count, 1);

    let ink = ParticleInk::new(13, 5, 60).unwrap();
    assert_eq!(ink.particle_count(), 65);
    assert_eq!(ink.cal_particles_move().workgroup_count, 2);

    let ink = ParticleInk::new(10, 10, 60).unwrap();
    assert_eq!(ink.cal_particles_move().workgroup_count, 2);
}

#[test]
fn particle_draw_selects_the_frame_record() {
    let mut ink = ParticleInk::new(3, 2, 4).unwrap();
    let (d0, c0) = ink.enter_frame();
    assert_eq!(d0.dynamic_offset, 0);
    assert_eq!(d0.element_count, 6);
    assert_eq!(d0.instance_count, 6);
    assert!(!c0);
    let (d1, _) = ink.enter_frame();
    assert_eq!(d1.dynamic_offset, 256);
    let (d2, _) = ink.enter_frame();
    assert_eq!(d2.dynamic_offset, 512);
    let (d3, c3) = ink.enter_frame();
    assert_eq!(d3.dynamic_offset, 768);
    assert!(c3);
    assert_eq!(ink.animate_index(), 0);
}
