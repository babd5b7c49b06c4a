//! Fixed-point spiral geometry: the trig table and the spiral-point formula.
use vstd::prelude::*;

verus! {

/// Number of entries in the trig table (angle indices are taken modulo it).
pub const TRIG_TABLE_SIZE: u64 = 32;

/// Scale of the fixed-point trig values (`10000` stands for `1.0`).
pub const TRIG_SCALE: u64 = 10000;

/// Particles placed along each arm.
pub const PARTICLES_PER_ARM: u64 = 23;

/// Per-mille resolution of the progress value along an arm.
pub const PROGRESS_SCALE: u64 = 1000;

/// Numerator of the outer radius as a fraction of the canvas size.
pub const RADIUS_NUMERATOR: u64 = 4963;

/// Denominator of the outer radius as a fraction of the canvas size.
pub const RADIUS_DENOMINATOR: u64 = 10000;

/// Angle advance per unit of progress, tight spirals.
pub const TIGHT_WINDING: u64 = 22;

/// Angle advance per unit of progress, loose spirals.
pub const LOOSE_WINDING: u64 = 4;

/// Angle advance per unit of progress, classic spirals.
pub const CLASSIC_WINDING: u64 = 12;

/// The fixed-point sine table, one entry per 1/32 of a turn.
pub open spec fn sin_table() -> Seq<int> {
    seq![
        0, 1951, 3827, 5556, 7071, 8315, 9239, 9808,
        10000, 9808, 9239, 8315, 7071, 5556, 3827, 1951,
        0, -1951, -3827, -5556, -7071, -8315, -9239, -9808,
        -10000, -9808, -9239, -8315, -7071, -5556, -3827, -1951,
    ]
}

/// The fixed-point cosine table, one entry per 1/32 of a turn.
pub open spec fn cos_table() -> Seq<int> {
    seq![
        10000, 9808, 9239, 8315, 7071, 5556, 3827, 1951,
        0, -1951, -3827, -5556, -7071, -8315, -9239, -9808,
        -10000, -9808, -9239, -8315, -7071, -5556, -3827, -1951,
        0, 1951, 3827, 5556, 7071, 8315, 9239, 9808,
    ]
}

/// Looks up `(sin, cos)` for an angle index.
pub fn trig_entry(angle_index: u64) -> (r: (i64, i64))
    requires
        angle_index < TRIG_TABLE_SIZE,
    ensures
        r.0 == sin_table()[angle_index as int],
        r.1 == cos_table()[angle_index as int],
{
    let sin: [i64; 32] = [
        0, 1951, 3827, 5556, 7071, 8315, 9239, 9808,
        10000, 9808, 9239, 8315, 7071, 5556, 3827, 1951,
        0, -1951, -3827, -5556, -7071, -8315, -9239, -9808,
        -10000, -9808, -9239, -8315, -7071, -5556, -3827, -1951,
    ];
    let cos: [i64; 32] = [
        10000, 9808, 9239, 8315, 7071, 5556, 3827, 1951,
        0, -1951, -3827, -5556, -7071, -8315, -9239, -9808,
        -10000, -9808, -9239, -8315, -7071, -5556, -3827, -1951,
        0, 1951, 3827, 5556, 7071, 8315, 9239, 9808,
    ];
    assert(sin@.map_values(|v: i64| v as int) =~= sin_table());
    assert(cos@.map_values(|v: i64| v as int) =~= cos_table());
    (sin[angle_index as usize], cos[angle_index as usize])
}

/// Per-mille progress of a particle along its arm.
pub open spec fn progress_of(particle_index: int) -> int {
    particle_index * (PROGRESS_SCALE as int) / (PARTICLES_PER_ARM as int)
}

/// How fast the angle advances along an arm for a spiral type.
pub open spec fn winding_of(spiral_type: int) -> int {
    if spiral_type == 0 {
        TIGHT_WINDING as int
    } else if spiral_type == 1 {
        LOOSE_WINDING as int
    } else {
        CLASSIC_WINDING as int
    }
}

/// The trig-table index of a particle: the arm's base angle plus the
/// advance along the arm, modulo the table size.
pub open spec fn angle_index_of(
    arm_index: int,
    particle_index: int,
    total_arms: int,
    spiral_type: int,
) -> int {
    let base = arm_index * (TRIG_TABLE_SIZE as int) / total_arms;
    let advance = progress_of(particle_index) * winding_of(spiral_type) / (PROGRESS_SCALE as int);
    (base + advance) % (TRIG_TABLE_SIZE as int)
}

/// The outer radius of the galaxy on a canvas.
pub open spec fn max_radius_of(canvas_size: int) -> int {
    canvas_size * (RADIUS_NUMERATOR as int) / (RADIUS_DENOMINATOR as int)
}

/// Distance of a particle from the canvas centre.
pub open spec fn radius_of(particle_index: int, canvas_size: int) -> int {
    progress_of(particle_index) * max_radius_of(canvas_size) / (PROGRESS_SCALE as int)
}

/// `radius * trig / TRIG_SCALE`, rounded toward zero.
pub open spec fn scaled_offset(radius: int, trig: int) -> int {
    if trig >= 0 {
        radius * trig / (TRIG_SCALE as int)
    } else {
        -(radius * (-trig) / (TRIG_SCALE as int))
    }
}

/// A coordinate clamped into `[0, canvas_size]`.
pub open spec fn clamp_coord(v: int, canvas_size: int) -> int {
    if v < 0 {
        0
    } else if v > canvas_size {
        canvas_size
    } else {
        v
    }
}

/// The point `(x, y, angle_index)` of a particle, with the signed trig values
/// so that arms spread over the full turn.
pub open spec fn spiral_point(
    arm_index: int,
    particle_index: int,
    total_arms: int,
    spiral_type: int,
    canvas_size: int,
) -> (int, int, int) {
    let angle = angle_index_of(arm_index, particle_index, total_arms, spiral_type);
    let radius = radius_of(particle_index, canvas_size);
    let center = canvas_size / 2;
    (
        clamp_coord(center + scaled_offset(radius, cos_table()[angle]), canvas_size),
        clamp_coord(center + scaled_offset(radius, sin_table()[angle]), canvas_size),
        angle,
    )
}

/// `center + radius * trig / TRIG_SCALE` (rounded toward zero), clamped into
/// `[0, canvas_size]`.
fn offset_coord(center: u64, radius: u128, trig: i64, canvas_size: u64) -> (r: u64)
    requires
        -10000 <= trig <= 10000,
        radius <= canvas_size,
    ensures
        r == clamp_coord(center + scaled_offset(radius as int, trig as int), canvas_size as int),
{
    let mag: u128 = if trig >= 0 {
        trig as u128
    } else {
        (-(trig as i128)) as u128
    };
    assert(radius * mag <= radius * 10000) by (nonlinear_arith)
        requires
            mag <= 10000,
    ;
    let off: u128 = radius * mag / (TRIG_SCALE as u128);
    if trig >= 0 {
        let v: u128 = center as u128 + off;
        if v > canvas_size as u128 {
            canvas_size
        } else {
            v as u64
        }
    } else if off > center as u128 {
        0
    } else {
        let v: u64 = center - off as u64;
        if v > canvas_size {
            canvas_size
        } else {
            v
        }
    }
}

/// Computes `(x, y, angle_index)` of particle `particle_index` on arm
/// `arm_index` of a galaxy with `total_arms` arms.
pub fn calculate_spiral_point(
    arm_index: u64,
    particle_index: u64,
    total_arms: u64,
    spiral_type: u64,
    canvas_size: u64,
) -> (r: (u64, u64, u64))
    requires
        total_arms > 0,
        particle_index < PARTICLES_PER_ARM,
    ensures
        (r.0 as int, r.1 as int, r.2 as int) == spiral_point(
            arm_index as int,
            particle_index as int,
            total_arms as int,
            spiral_type as int,
            canvas_size as int,
        ),
        r.0 <= canvas_size,
        r.1 <= canvas_size,
        r.2 < TRIG_TABLE_SIZE,
{
    let base: u128 = arm_index as u128 * (TRIG_TABLE_SIZE as u128) / (total_arms as u128);
    let t: u128 = particle_index as u128 * (PROGRESS_SCALE as u128) / (PARTICLES_PER_ARM as u128);
    assert(t < 1000);
    let winding: u128 = if spiral_type == 0 {
        TIGHT_WINDING as u128
    } else if spiral_type == 1 {
        LOOSE_WINDING as u128
    } else {
        CLASSIC_WINDING as u128
    };
    assert(t * winding <= 1000 * 22) by (nonlinear_arith)
        requires
            t < 1000,
            winding <= 22,
    ;
    let advance: u128 = t * winding / (PROGRESS_SCALE as u128);
    let angle_index: u64 = ((base + advance) % (TRIG_TABLE_SIZE as u128)) as u64;
    let scaled_canvas: u128 = canvas_size as u128 * (RADIUS_NUMERATOR as u128);
    let max_radius: u128 = scaled_canvas / (RADIUS_DENOMINATOR as u128);
    assert(max_radius <= canvas_size) by (nonlinear_arith)
        requires
            max_radius == canvas_size * 4963 / 10000,
    ;
    assert(t * max_radius <= 1000 * max_radius) by (nonlinear_arith)
        requires
            t < 1000,
    ;
    let radius: u128 = t * max_radius / (PROGRESS_SCALE as u128);
    let (sin, cos) = trig_entry(angle_index);
    let center: u64 = canvas_size / 2;
    let x = offset_coord(center, radius, cos, canvas_size);
    let y = offset_coord(center, radius, sin, canvas_size);
    (x, y, angle_index)
}

} // verus!
