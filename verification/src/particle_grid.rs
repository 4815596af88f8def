//! Initialization of the particle grid. Each particle is tied to one cell
//! of a `width` by `height` grid: its texture sample point and its target
//! position both sit at the cell centre and never change, while its starting
//! position and speed come from an injected random source, so the initial
//! distribution is reproducible. The host scales cell centres into device
//! coordinates; the exact centre of cell `c` along an axis of `n` cells is
//! the rational `(2 * c + 1) / (2 * n)`.

use vstd::prelude::*;

use crate::ConfigError;
use crate::arith::lemma_div_of_multiple_plus_remainder;
use crate::arith::lemma_mod_of_multiple_plus_remainder;

verus! {

/// One particle as created: its fixed grid cell, the numerators of the cell
/// centre (over denominators `2 * width` and `2 * height`), and the injected
/// random start position and speed. The current position starts at the
/// start position and converges toward the cell centre at the given rate —
/// that motion runs on the device and is scheduled per frame, not stored
/// here.
#[derive(Clone, Copy, Debug, PartialEq, Eq, Structural)]
pub struct ParticleSeed {
    pub cell_x: u32,
    pub cell_y: u32,
    pub center_num_x: u64,
    pub center_num_y: u64,
    pub init_x: i64,
    pub init_y: i64,
    pub speed_milli: u32,
}

/// The seed record particle `i` of a `width`-wide grid gets from the
/// injected start position `init` and speed `speed_milli`.
pub open spec fn spec_particle_seed(i: int, width: u32, init: (i64, i64), speed_milli: u32) -> ParticleSeed {
    ParticleSeed {
        cell_x: (i % (width as int)) as u32,
        cell_y: (i / (width as int)) as u32,
        center_num_x: (2 * (i % (width as int)) + 1) as u64,
        center_num_y: (2 * (i / (width as int)) + 1) as u64,
        init_x: init.0,
        init_y: init.1,
        speed_milli,
    }
}

/// Creates the seed records of a `width` by `height` particle grid, row by
/// row: particle `i` occupies cell `(i % width, i / width)` and takes the
/// `i`-th injected start position and speed. An empty grid, or one whose
/// particle count is not representable, is a configuration error.
pub fn init_particles(
    width: u32,
    height: u32,
    init_positions: &Vec<(i64, i64)>,
    speeds_milli: &Vec<u32>,
) -> (r: Result<Vec<ParticleSeed>, ConfigError>)
    requires
        init_positions@.len() == width * height,
        speeds_milli@.len() == width * height,
    ensures
        match r {
            Ok(seeds) => {
                &&& width >= 1
                &&& height >= 1
                &&& width * height <= u32::MAX
                &&& seeds@.len() == width * height
                &&& forall|i: int|
                    0 <= i < seeds@.len() ==> seeds@[i] == spec_particle_seed(
                        i,
                        width,
                        init_positions@[i],
                        speeds_milli@[i],
                    )
            },
            Err(e) => {
                ||| (width * height == 0 && e == ConfigError::ZeroCapacity)
                ||| (width * height > u32::MAX && e == ConfigError::CapacityTooLarge)
            },
        },
{
    if width == 0 || height == 0 {
        return Err(ConfigError::ZeroCapacity);
    }
    if width.checked_mul(height).is_none() {
        return Err(ConfigError::CapacityTooLarge);
    }
    let mut seeds: Vec<ParticleSeed> = Vec::new();
    let mut y: u32 = 0;
    while y < height
        invariant
            y <= height,
            width >= 1,
            width * height <= u32::MAX,
            init_positions@.len() == width * height,
            speeds_milli@.len() == width * height,
            seeds@.len() == y * width,
            forall|i: int|
                0 <= i < seeds@.len() ==> seeds@[i] == spec_particle_seed(
                    i,
                    width,
                    init_positions@[i],
                    speeds_milli@[i],
                ),
        decreases height - y,
    {
        let mut x: u32 = 0;
        proof {
            assert((y + 1) * width <= height * width) by (nonlinear_arith)
                requires
                    y + 1 <= height,
                    width >= 1,
            ;
            assert(height * width == width * height) by (nonlinear_arith);
        }
        while x < width
            invariant
                x <= width,
                y < height,
                width >= 1,
                width * height <= u32::MAX,
                (y + 1) * width <= width * height,
                init_positions@.len() == width * height,
                speeds_milli@.len() == width * height,
                seeds@.len() == y * width + x,
                forall|i: int|
                    0 <= i < seeds@.len() ==> seeds@[i] == spec_particle_seed(
                        i,
                        width,
                        init_positions@[i],
                        speeds_milli@[i],
                    ),
            decreases width - x,
        {
            proof {
                assert(y * width + x < (y + 1) * width) by (nonlinear_arith)
                    requires
                        x < width,
                ;
                assert(y * width == width * y) by (nonlinear_arith);
                lemma_mod_of_multiple_plus_remainder(
                    (y * width + x) as nat,
                    y as nat,
                    x as nat,
                    width as nat,
                );
                lemma_div_of_multiple_plus_remainder(
                    (y * width + x) as nat,
                    y as nat,
                    x as nat,
                    width as nat,
                );
            }
            let idx: usize = (y as usize) * (width as usize) + (x as usize);
            let init = init_positions[idx];
            let speed = speeds_milli[idx];
            seeds.push(
                ParticleSeed {
                    cell_x: x,
                    cell_y: y,
                    center_num_x: 2 * (x as u64) + 1,
                    center_num_y: 2 * (y as u64) + 1,
                    init_x: init.0,
                    init_y: init.1,
                    speed_milli: speed,
                },
            );
            x = x + 1;
        }
        proof {
            assert((y + 1) * width == y * width + width) by (nonlinear_arith);
        }
        y = y + 1;
    }
    proof {
        assert(height * width == width * height) by (nonlinear_arith);
    }
    Ok(seeds)
}

} // verus!
