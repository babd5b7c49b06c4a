//! The witness of the seed-to-configuration relation and its constraint
//! system.
//!
//! The circuit has two gates that constrain anything:
//!
//! * `variant_selection`: `seed - (quotient * 41 + variant_id) = 0`;
//! * `config_mapping`: `variant_id - (spiral_quotient * 3 + spiral_type) = 0`,
//!   `spiral_quotient - (arms_quotient * 6 + arms_remainder) = 0`,
//!   `num_arms - (3 + arms_remainder) = 0`, `particles_per_arm - 23 = 0`,
//!   `total_particles - num_arms * particles_per_arm = 0`,
//!   `triangles_per_arm - particles_per_arm = 0` and
//!   `total_triangles - num_arms * triangles_per_arm = 0`.
//!
//! The particle, triangle and trig-table gates constrain nothing yet: the
//! layout rows are carried in the witness but not proven against the spiral
//! formula.
//!
//! The gates are polynomial identities over a prime field. Every value here is
//! a `u64`, so each side of each identity is below `2^130`; over a field whose
//! modulus exceeds that (such as the Pasta fields) an identity holds in the
//! field exactly when it holds over the integers, which is what
//! [`check_witness`] evaluates.
use vstd::prelude::*;
use vstd::math::min;
use crate::config::{
    calculate_configuration_mapping, config_of, quotient_of, select_variant, variant_of,
    ARM_CHOICES, MIN_ARMS, SPIRAL_TYPE_COUNT, VARIANT_COUNT,
};
use crate::layout::{
    generate_spiral_particles, generate_spiral_triangles, particle_metadata, particle_positions,
    triangle_metadata, triangle_vertices,
};
use crate::spiral::PARTICLES_PER_ARM;

verus! {

/// Rows of the circuit given to particles, and to triangles, unless a
/// caller picks another budget.
pub const DEFAULT_MAX_ROWS: usize = 50;

/// The values placed into the circuit for one seed.
pub struct SpiralWitness {
    pub seed: u64,
    pub quotient: u64,
    pub variant_id: u64,
    pub spiral_type: u64,
    pub num_arms: u64,
    pub spiral_quotient: u64,
    pub arms_quotient: u64,
    pub arms_remainder: u64,
    pub particles_per_arm: u64,
    pub total_particles: u64,
    pub canvas_size: u64,
    pub triangles_per_arm: u64,
    pub total_triangles: u64,
    pub particle_positions: Vec<(u64, u64)>,
    pub particle_metadata: Vec<(u64, u64, u64)>,
    pub triangle_vertices: Vec<(u64, u64, u64, u64, u64, u64)>,
    pub triangle_metadata: Vec<(u64, u64, u64)>,
}

/// The `variant_selection` gate.
pub open spec fn variant_selection_holds(w: SpiralWitness) -> bool {
    w.seed == w.quotient * VARIANT_COUNT + w.variant_id
}

/// The `config_mapping` gate.
pub open spec fn config_mapping_holds(w: SpiralWitness) -> bool {
    &&& w.variant_id == w.spiral_quotient * SPIRAL_TYPE_COUNT + w.spiral_type
    &&& w.spiral_quotient == w.arms_quotient * ARM_CHOICES + w.arms_remainder
    &&& w.num_arms == MIN_ARMS + w.arms_remainder
    &&& w.particles_per_arm == PARTICLES_PER_ARM
    &&& w.total_particles == w.num_arms * w.particles_per_arm
    &&& w.triangles_per_arm == w.particles_per_arm
    &&& w.total_triangles == w.num_arms * w.triangles_per_arm
}

/// A witness is accepted when every gate holds on it.
pub open spec fn witness_satisfied(w: SpiralWitness) -> bool {
    variant_selection_holds(w) && config_mapping_holds(w)
}

/// The first `max_rows` entries of a sequence (all of it if it is shorter).
pub open spec fn first_rows<T>(s: Seq<T>, max_rows: usize) -> Seq<T> {
    s.take(min(s.len() as int, max_rows as int))
}

/// `w` is the witness derived from `seed` on a canvas of `canvas_size`, with
/// its layout rows cut to the first `max_rows` in generation order.
pub open spec fn is_witness_of(w: SpiralWitness, seed: u64, canvas_size: u64, max_rows: usize) -> bool {
    let cfg = config_of(variant_of(seed as int));
    &&& w.seed == seed
    &&& w.quotient == quotient_of(seed as int)
    &&& w.variant_id == variant_of(seed as int)
    &&& (w.spiral_type as int, w.num_arms as int, w.spiral_quotient as int, w.arms_quotient as int,
        w.arms_remainder as int) == cfg
    &&& w.particles_per_arm == PARTICLES_PER_ARM
    &&& w.total_particles == w.num_arms * PARTICLES_PER_ARM
    &&& w.canvas_size == canvas_size
    &&& w.triangles_per_arm == PARTICLES_PER_ARM
    &&& w.total_triangles == w.num_arms * PARTICLES_PER_ARM
    &&& w.particle_positions@ == first_rows(
        particle_positions(w.spiral_type, w.num_arms, canvas_size),
        max_rows,
    )
    &&& w.particle_metadata@ == first_rows(
        particle_metadata(w.spiral_type, w.num_arms, canvas_size),
        max_rows,
    )
    &&& w.triangle_vertices@ == first_rows(
        triangle_vertices(w.spiral_type, w.num_arms, canvas_size),
        max_rows,
    )
    &&& w.triangle_metadata@ == first_rows(triangle_metadata(w.num_arms), max_rows)
}

/// Derives the witness of `seed`: its decomposition, its configuration and
/// the first `max_rows` particles and triangles of its layout.
pub fn build_witness(seed: u64, canvas_size: u64, max_rows: usize) -> (r: SpiralWitness)
    ensures
        is_witness_of(r, seed, canvas_size, max_rows),
{
    let (variant_id, quotient) = select_variant(seed);
    let (spiral_type, num_arms, spiral_quotient, arms_quotient, arms_remainder) =
        calculate_configuration_mapping(variant_id);
    assert(num_arms <= 8);
    let (mut positions, mut metadata) = generate_spiral_particles(
        spiral_type,
        num_arms,
        canvas_size,
    );
    let (mut vertices, mut triangle_meta) = generate_spiral_triangles(
        spiral_type,
        num_arms,
        canvas_size,
    );
    positions.truncate(max_rows);
    metadata.truncate(max_rows);
    vertices.truncate(max_rows);
    triangle_meta.truncate(max_rows);
    proof {
        assert(positions@ =~= first_rows(particle_positions(spiral_type, num_arms, canvas_size), max_rows));
        assert(metadata@ =~= first_rows(particle_metadata(spiral_type, num_arms, canvas_size), max_rows));
        assert(vertices@ =~= first_rows(triangle_vertices(spiral_type, num_arms, canvas_size), max_rows));
        assert(triangle_meta@ =~= first_rows(triangle_metadata(num_arms), max_rows));
    }
    SpiralWitness {
        seed,
        quotient,
        variant_id,
        spiral_type,
        num_arms,
        spiral_quotient,
        arms_quotient,
        arms_remainder,
        particles_per_arm: PARTICLES_PER_ARM,
        total_particles: num_arms * PARTICLES_PER_ARM,
        canvas_size,
        triangles_per_arm: PARTICLES_PER_ARM,
        total_triangles: num_arms * PARTICLES_PER_ARM,
        particle_positions: positions,
        particle_metadata: metadata,
        triangle_vertices: vertices,
        triangle_metadata: triangle_meta,
    }
}

/// Evaluates every gate of the circuit on a witness: `true` exactly when the
/// witness is accepted.
pub fn check_witness(w: &SpiralWitness) -> (r: bool)
    ensures
        r == witness_satisfied(*w),
{
    let max: u128 = 0xffff_ffff_ffff_ffff;
    assert(w.quotient as u128 * 41 <= max * 41) by (nonlinear_arith)
        requires
            w.quotient <= max,
    ;
    assert(w.spiral_quotient as u128 * 3 <= max * 3) by (nonlinear_arith)
        requires
            w.spiral_quotient <= max,
    ;
    assert(w.arms_quotient as u128 * 6 <= max * 6) by (nonlinear_arith)
        requires
            w.arms_quotient <= max,
    ;
    let variant_ok = w.seed as u128 == w.quotient as u128 * (VARIANT_COUNT as u128)
        + w.variant_id as u128;
    let spiral_ok = w.variant_id as u128 == w.spiral_quotient as u128 * (SPIRAL_TYPE_COUNT as u128)
        + w.spiral_type as u128;
    let arms_ok = w.spiral_quotient as u128 == w.arms_quotient as u128 * (ARM_CHOICES as u128)
        + w.arms_remainder as u128;
    let num_arms_ok = w.num_arms as u128 == MIN_ARMS as u128 + w.arms_remainder as u128;
    let per_arm_ok = w.particles_per_arm == PARTICLES_PER_ARM;
    assert(w.num_arms as u128 * w.particles_per_arm as u128 <= 0xffff_ffff_ffff_ffff_u128
        * 0xffff_ffff_ffff_ffff_u128) by (nonlinear_arith);
    assert(w.num_arms as u128 * w.triangles_per_arm as u128 <= 0xffff_ffff_ffff_ffff_u128
        * 0xffff_ffff_ffff_ffff_u128) by (nonlinear_arith);
    let total_ok = w.total_particles as u128 == w.num_arms as u128 * w.particles_per_arm as u128;
    let triangles_per_arm_ok = w.triangles_per_arm == w.particles_per_arm;
    let total_triangles_ok = w.total_triangles as u128 == w.num_arms as u128
        * w.triangles_per_arm as u128;
    variant_ok && spiral_ok && arms_ok && num_arms_ok && per_arm_ok && total_ok
        && triangles_per_arm_ok && total_triangles_ok
}

/// The witness derived from any seed is accepted.
pub proof fn lemma_derived_witness_accepted(
    w: SpiralWitness,
    seed: u64,
    canvas_size: u64,
    max_rows: usize,
)
    requires
        is_witness_of(w, seed, canvas_size, max_rows),
    ensures
        witness_satisfied(w),
{
}

/// Changing any single derived value of a derived witness to another value
/// makes it rejected.
pub proof fn lemma_corrupted_witness_rejected(
    w: SpiralWitness,
    seed: u64,
    canvas_size: u64,
    max_rows: usize,
    v: u64,
)
    requires
        is_witness_of(w, seed, canvas_size, max_rows),
    ensures
        v != w.seed ==> !witness_satisfied(SpiralWitness { seed: v, ..w }),
        v != w.quotient ==> !witness_satisfied(SpiralWitness { quotient: v, ..w }),
        v != w.variant_id ==> !witness_satisfied(SpiralWitness { variant_id: v, ..w }),
        v != w.spiral_type ==> !witness_satisfied(SpiralWitness { spiral_type: v, ..w }),
        v != w.num_arms ==> !witness_satisfied(SpiralWitness { num_arms: v, ..w }),
        v != w.spiral_quotient ==> !witness_satisfied(SpiralWitness { spiral_quotient: v, ..w }),
        v != w.arms_quotient ==> !witness_satisfied(SpiralWitness { arms_quotient: v, ..w }),
        v != w.arms_remainder ==> !witness_satisfied(SpiralWitness { arms_remainder: v, ..w }),
        v != w.particles_per_arm ==> !witness_satisfied(
            SpiralWitness { particles_per_arm: v, ..w },
        ),
        v != w.total_particles ==> !witness_satisfied(SpiralWitness { total_particles: v, ..w }),
        v != w.triangles_per_arm ==> !witness_satisfied(
            SpiralWitness { triangles_per_arm: v, ..w },
        ),
        v != w.total_triangles ==> !witness_satisfied(SpiralWitness { total_triangles: v, ..w }),
{
}

} // verus!
