use anim_pipeline::ConfigError;
use anim_pipeline::particle_grid::init_particles;

#[test]
fn grid_rejects_empty_dimensions() {
    let none: Vec<(i64, i64)> = Vec::new();
    let speeds: Vec<u32> = Vec::new();
    assert!(matches!(
        init_particles(0, 5, &none, &speeds),
        Err(ConfigError::ZeroCapacity)
    ));
    assert!(matches!(
        init_particles(5, 0, &none, &speeds),
        Err(ConfigError::ZeroCapacity)
    ));
}

#[test]
fn grid_lays_particles_out_row_by_row() {
    let inits = vec![(-5, 3), (7, 7), (0, -2), (100, 200)];
    let speeds = vec![40, 55, 62, 78];
    let seeds = init_particles(2, 2, &inits, &speeds).unwrap();
    assert_eq!(seeds.len(), 4);

    // Row-major cells.
    assert_eq!((seeds[0].cell_x, seeds[0].cell_y), (0, 0));
    assert_eq!((seeds[1].cell_x, seeds[1].cell_y), (1, 0));
    assert_eq!((seeds[2].cell_x, seeds[2].cell_y), (0, 1));
    assert_eq!((seeds[3].cell_x, seeds[3].cell_y), (1, 1));

    // The fixed sample point sits at the cell centre: numerators 2c + 1
    // over denominators 2 * width and 2 * height.
    assert_eq!((seeds[0].center_num_x, seeds[0].center_num_y), (1, 1));
    assert_eq!((seeds[3].center_num_x, seeds[3].center_num_y), (3, 3));

    // Injected start positions and speeds are taken in order.
    for i in 0..4 {
        assert_eq!((seeds[i].init_x, seeds[i].init_y), inits[i]);
        assert_eq!(seeds[i].speed_milli, speeds[i]);
    }
}

#[test]
fn grid_single_row() {
    let inits = vec![(0, 0), (1, 1), (2, 2)];
    let speeds = vec![50, 50, 50];
    let seeds = init_particles(3, 1, &inits, &speeds).unwrap();
    assert_eq!(seeds.len(), 3);
    for (i, seed) in seeds.iter().enumerate() {
        assert_eq!(seed.cell_x as usize, i);
        assert_eq!(seed.cell_y, 0);
        assert_eq!(seed.center_num_x as usize, 2 * i + 1);
    }
}
