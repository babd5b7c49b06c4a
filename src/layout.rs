//! Layout generation: particles along every arm and a micro-triangle on each.
use vstd::prelude::*;
use vstd::arithmetic::div_mod::lemma_fundamental_div_mod_converse;
use vstd::math::min;
use crate::spiral::{PARTICLES_PER_ARM, TRIG_TABLE_SIZE, calculate_spiral_point, spiral_point};

verus! {

/// Side length of the micro-triangle on the first particle of an arm.
pub const BASE_TRIANGLE_SIZE: u64 = 6;

/// Smallest side length of a micro-triangle.
pub const MIN_TRIANGLE_SIZE: u64 = 2;

/// How much the side length shrinks from the core to the tip of an arm.
pub const TRIANGLE_SIZE_FALLOFF: u64 = 3;

/// The kind recorded for a triangle drawn on a spiral particle.
pub const SPIRAL_PARTICLE_TRIANGLE: u64 = 0;

/// Largest packed coordinate.
pub const PACKED_MAX: u64 = 255;

/// Index of the arm that the `k`-th entry of a layout belongs to.
pub open spec fn arm_of(k: int) -> int {
    k / (PARTICLES_PER_ARM as int)
}

/// Index of the `k`-th entry of a layout within its arm.
pub open spec fn index_in_arm(k: int) -> int {
    k % (PARTICLES_PER_ARM as int)
}

/// The spiral point of the `k`-th particle of a layout.
pub open spec fn layout_point(spiral_type: u64, num_arms: u64, canvas_size: u64, k: int) -> (
    int,
    int,
    int,
) {
    spiral_point(arm_of(k), index_in_arm(k), num_arms as int, spiral_type as int, canvas_size as int)
}

/// Number of entries in a layout with `num_arms` arms.
pub open spec fn layout_len(num_arms: u64) -> nat {
    (num_arms * PARTICLES_PER_ARM) as nat
}

/// Positions of all particles, arm by arm, in order along each arm.
pub open spec fn particle_positions(spiral_type: u64, num_arms: u64, canvas_size: u64) -> Seq<
    (u64, u64),
> {
    Seq::new(
        layout_len(num_arms),
        |k: int|
            (
                layout_point(spiral_type, num_arms, canvas_size, k).0 as u64,
                layout_point(spiral_type, num_arms, canvas_size, k).1 as u64,
            ),
    )
}

/// `(arm_index, particle_index, angle_index)` of all particles, in layout order.
pub open spec fn particle_metadata(spiral_type: u64, num_arms: u64, canvas_size: u64) -> Seq<
    (u64, u64, u64),
> {
    Seq::new(
        layout_len(num_arms),
        |k: int|
            (
                arm_of(k) as u64,
                index_in_arm(k) as u64,
                layout_point(spiral_type, num_arms, canvas_size, k).2 as u64,
            ),
    )
}

/// Generates every particle of a galaxy: `num_arms * PARTICLES_PER_ARM`
/// positions and their `(arm_index, particle_index, angle_index)` metadata.
pub fn generate_spiral_particles(spiral_type: u64, num_arms: u64, canvas_size: u64) -> (r: (
    Vec<(u64, u64)>,
    Vec<(u64, u64, u64)>,
))
    ensures
        r.0@ == particle_positions(spiral_type, num_arms, canvas_size),
        r.1@ == particle_metadata(spiral_type, num_arms, canvas_size),
{
    let mut positions: Vec<(u64, u64)> = Vec::new();
    let mut metadata: Vec<(u64, u64, u64)> = Vec::new();
    let mut arm_index: u64 = 0;
    while arm_index < num_arms
        invariant
            arm_index <= num_arms,
            positions@.len() == arm_index * PARTICLES_PER_ARM,
            metadata@.len() == arm_index * PARTICLES_PER_ARM,
            forall|k: int|
                0 <= k < positions@.len() ==> #[trigger] positions@[k] == particle_positions(
                    spiral_type,
                    num_arms,
                    canvas_size,
                )[k],
            forall|k: int|
                0 <= k < metadata@.len() ==> #[trigger] metadata@[k] == particle_metadata(
                    spiral_type,
                    num_arms,
                    canvas_size,
                )[k],
        decreases num_arms - arm_index,
    {
        let mut particle_index: u64 = 0;
        while particle_index < PARTICLES_PER_ARM
            invariant
                arm_index < num_arms,
                particle_index <= PARTICLES_PER_ARM,
                positions@.len() == arm_index * PARTICLES_PER_ARM + particle_index,
                metadata@.len() == arm_index * PARTICLES_PER_ARM + particle_index,
                forall|k: int|
                    0 <= k < positions@.len() ==> #[trigger] positions@[k] == particle_positions(
                        spiral_type,
                        num_arms,
                        canvas_size,
                    )[k],
                forall|k: int|
                    0 <= k < metadata@.len() ==> #[trigger] metadata@[k] == particle_metadata(
                        spiral_type,
                        num_arms,
                        canvas_size,
                    )[k],
            decreases PARTICLES_PER_ARM - particle_index,
        {
            let (x, y, angle_index) = calculate_spiral_point(
                arm_index,
                particle_index,
                num_arms,
                spiral_type,
                canvas_size,
            );
            proof {
                let k = arm_index * PARTICLES_PER_ARM + particle_index;
                lemma_fundamental_div_mod_converse(
                    k,
                    PARTICLES_PER_ARM as int,
                    arm_index as int,
                    particle_index as int,
                );
                assert(arm_of(k) == arm_index && index_in_arm(k) == particle_index);
                assert(k < layout_len(num_arms)) by (nonlinear_arith)
                    requires
                        k == arm_index * 23 + particle_index,
                        particle_index < 23,
                        arm_index < num_arms,
                        layout_len(num_arms) == num_arms * 23,
                ;
            }
            positions.push((x, y));
            metadata.push((arm_index, particle_index, angle_index));
            particle_index = particle_index + 1;
        }
        arm_index = arm_index + 1;
    }
    assert(positions@ =~= particle_positions(spiral_type, num_arms, canvas_size));
    assert(metadata@ =~= particle_metadata(spiral_type, num_arms, canvas_size));
    (positions, metadata)
}

/// Side length of the micro-triangle drawn on particle `particle_index` of an
/// arm: it shrinks toward the tip of the arm, never below the minimum.
pub open spec fn triangle_size_of(particle_index: int) -> int {
    let falloff = TRIANGLE_SIZE_FALLOFF as int;
    let shrunk = BASE_TRIANGLE_SIZE - particle_index * falloff / (PARTICLES_PER_ARM as int);
    if shrunk < MIN_TRIANGLE_SIZE {
        MIN_TRIANGLE_SIZE as int
    } else {
        shrunk
    }
}

/// `a - b`, saturating at zero.
pub open spec fn sat_sub(a: int, b: int) -> int {
    if a >= b {
        a - b
    } else {
        0
    }
}

/// `a + b`, saturating at `u64::MAX`.
pub open spec fn sat_add(a: int, b: int) -> int {
    if a + b > u64::MAX {
        u64::MAX as int
    } else {
        a + b
    }
}

/// The vertices `(x1, y1, x2, y2, x3, y3)` of a micro-triangle of side `size`
/// around a centre: top, bottom left, bottom right.
pub open spec fn micro_triangle(center_x: int, center_y: int, size: int) -> (
    int,
    int,
    int,
    int,
    int,
    int,
) {
    let half = size / 2;
    (
        center_x,
        sat_sub(center_y, half),
        sat_sub(center_x, half),
        sat_add(center_y, half),
        sat_add(center_x, half),
        sat_add(center_y, half),
    )
}

/// Builds a micro-triangle of side `size` around `(center_x, center_y)`.
pub fn create_micro_triangle(center_x: u64, center_y: u64, size: u64) -> (r: (
    u64,
    u64,
    u64,
    u64,
    u64,
    u64,
))
    ensures
        (r.0 as int, r.1 as int, r.2 as int, r.3 as int, r.4 as int, r.5 as int)
            == micro_triangle(center_x as int, center_y as int, size as int),
{
    let half_size = size / 2;
    let x1 = center_x;
    let y1 = center_y.saturating_sub(half_size);
    let x2 = center_x.saturating_sub(half_size);
    let y2 = center_y.saturating_add(half_size);
    let x3 = center_x.saturating_add(half_size);
    let y3 = center_y.saturating_add(half_size);
    (x1, y1, x2, y2, x3, y3)
}

/// The micro-triangle on the `k`-th particle of a layout whose centre is
/// `center`, every coordinate clamped to at most `canvas_size`.
pub open spec fn layout_triangle(center: (u64, u64), k: int, canvas_size: u64) -> (
    u64,
    u64,
    u64,
    u64,
    u64,
    u64,
) {
    let t = micro_triangle(center.0 as int, center.1 as int, triangle_size_of(index_in_arm(k)));
    let c = canvas_size as int;
    (
        min(t.0, c) as u64,
        min(t.1, c) as u64,
        min(t.2, c) as u64,
        min(t.3, c) as u64,
        min(t.4, c) as u64,
        min(t.5, c) as u64,
    )
}

/// Vertices of the micro-triangles of a galaxy, one per particle, in layout
/// order.
pub open spec fn triangle_vertices(spiral_type: u64, num_arms: u64, canvas_size: u64) -> Seq<
    (u64, u64, u64, u64, u64, u64),
> {
    Seq::new(
        layout_len(num_arms),
        |k: int|
            layout_triangle(particle_positions(spiral_type, num_arms, canvas_size)[k], k, canvas_size),
    )
}

/// `(arm_index, triangle_index, triangle_type)` of the micro-triangles of a
/// galaxy, in layout order.
pub open spec fn triangle_metadata(num_arms: u64) -> Seq<(u64, u64, u64)> {
    Seq::new(
        layout_len(num_arms),
        |k: int| (arm_of(k) as u64, index_in_arm(k) as u64, SPIRAL_PARTICLE_TRIANGLE),
    )
}

/// Side length of the micro-triangle on particle `particle_index` of an arm.
pub(crate) fn micro_triangle_size(particle_index: u64) -> (r: u64)
    requires
        particle_index < PARTICLES_PER_ARM,
    ensures
        r == triangle_size_of(particle_index as int),
        r <= BASE_TRIANGLE_SIZE,
{
    let shrink: u64 = particle_index * TRIANGLE_SIZE_FALLOFF / PARTICLES_PER_ARM;
    assert(shrink <= 2);
    let size: u64 = BASE_TRIANGLE_SIZE - shrink;
    if size < MIN_TRIANGLE_SIZE {
        MIN_TRIANGLE_SIZE
    } else {
        size
    }
}

/// The micro-triangle on the `k`-th particle of a layout, clamped to the canvas.
pub(crate) fn triangle_on(center: (u64, u64), k: usize, canvas_size: u64) -> (r: (
    u64,
    u64,
    u64,
    u64,
    u64,
    u64,
))
    ensures
        r == layout_triangle(center, k as int, canvas_size),
{
    let particle_index = (k % (PARTICLES_PER_ARM as usize)) as u64;
    let size = micro_triangle_size(particle_index);
    let (x1, y1, x2, y2, x3, y3) = create_micro_triangle(center.0, center.1, size);
    (
        x1.min(canvas_size),
        y1.min(canvas_size),
        x2.min(canvas_size),
        y2.min(canvas_size),
        x3.min(canvas_size),
        y3.min(canvas_size),
    )
}

/// Generates one micro-triangle on every particle of a galaxy, with
/// `(arm_index, triangle_index, triangle_type)` metadata; both sequences are
/// aligned with the particles of [`generate_spiral_particles`].
pub fn generate_spiral_triangles(spiral_type: u64, num_arms: u64, canvas_size: u64) -> (r: (
    Vec<(u64, u64, u64, u64, u64, u64)>,
    Vec<(u64, u64, u64)>,
))
    ensures
        r.0@ == triangle_vertices(spiral_type, num_arms, canvas_size),
        r.1@ == triangle_metadata(num_arms),
{
    let (positions, _metadata) = generate_spiral_particles(spiral_type, num_arms, canvas_size);
    let mut vertices: Vec<(u64, u64, u64, u64, u64, u64)> = Vec::new();
    let mut metadata: Vec<(u64, u64, u64)> = Vec::new();
    let n = positions.len();
    let mut k: usize = 0;
    while k < n
        invariant
            n == positions@.len(),
            positions@ == particle_positions(spiral_type, num_arms, canvas_size),
            k <= n,
            vertices@.len() == k,
            metadata@.len() == k,
            forall|j: int|
                0 <= j < k ==> #[trigger] vertices@[j] == triangle_vertices(
                    spiral_type,
                    num_arms,
                    canvas_size,
                )[j],
            forall|j: int| 0 <= j < k ==> #[trigger] metadata@[j] == triangle_metadata(num_arms)[j],
        decreases n - k,
    {
        let triangle = triangle_on(positions[k], k, canvas_size);
        vertices.push(triangle);
        let arm_index = (k / (PARTICLES_PER_ARM as usize)) as u64;
        let triangle_index = (k % (PARTICLES_PER_ARM as usize)) as u64;
        metadata.push((arm_index, triangle_index, SPIRAL_PARTICLE_TRIANGLE));
        k = k + 1;
    }
    assert(vertices@ =~= triangle_vertices(spiral_type, num_arms, canvas_size));
    assert(metadata@ =~= triangle_metadata(num_arms));
    (vertices, metadata)
}

/// A layout has `num_arms * PARTICLES_PER_ARM` particles, each inside the
/// canvas, with an angle index inside the trig table.
pub proof fn lemma_particles_in_canvas(spiral_type: u64, num_arms: u64, canvas_size: u64)
    ensures
        particle_positions(spiral_type, num_arms, canvas_size).len() == num_arms
            * PARTICLES_PER_ARM,
        particle_metadata(spiral_type, num_arms, canvas_size).len() == num_arms
            * PARTICLES_PER_ARM,
        forall|k: int|
            0 <= k < num_arms * PARTICLES_PER_ARM ==> {
                let p = #[trigger] particle_positions(spiral_type, num_arms, canvas_size)[k];
                &&& p.0 <= canvas_size
                &&& p.1 <= canvas_size
            },
        num_arms > 0 ==> forall|k: int|
            0 <= k < num_arms * PARTICLES_PER_ARM ==> (#[trigger] particle_metadata(
                spiral_type,
                num_arms,
                canvas_size,
            )[k]).2 < TRIG_TABLE_SIZE,
{
    assert forall|k: int| 0 <= k < num_arms * PARTICLES_PER_ARM implies {
        let p = #[trigger] particle_positions(spiral_type, num_arms, canvas_size)[k];
        &&& p.0 <= canvas_size
        &&& p.1 <= canvas_size
    } by {
        let q = layout_point(spiral_type, num_arms, canvas_size, k);
        assert(0 <= q.0 <= canvas_size && 0 <= q.1 <= canvas_size);
    }
}

/// The micro-triangles of a layout are as many as its particles, and every
/// vertex lies inside the canvas.
pub proof fn lemma_triangles_in_canvas(spiral_type: u64, num_arms: u64, canvas_size: u64)
    ensures
        triangle_vertices(spiral_type, num_arms, canvas_size).len() == particle_positions(
            spiral_type,
            num_arms,
            canvas_size,
        ).len(),
        triangle_metadata(num_arms).len() == num_arms * PARTICLES_PER_ARM,
        forall|k: int|
            0 <= k < num_arms * PARTICLES_PER_ARM ==> {
                let t = #[trigger] triangle_vertices(spiral_type, num_arms, canvas_size)[k];
                &&& t.0 <= canvas_size
                &&& t.1 <= canvas_size
                &&& t.2 <= canvas_size
                &&& t.3 <= canvas_size
                &&& t.4 <= canvas_size
                &&& t.5 <= canvas_size
            },
{
}

/// The generated layouts are functions of `(spiral_type, num_arms,
/// canvas_size)` alone: two generations from the same inputs give identical
/// sequences.
pub proof fn lemma_layout_deterministic(
    spiral_type: u64,
    num_arms: u64,
    canvas_size: u64,
    first: (Seq<(u64, u64)>, Seq<(u64, u64, u64, u64, u64, u64)>),
    second: (Seq<(u64, u64)>, Seq<(u64, u64, u64, u64, u64, u64)>),
)
    requires
        first.0 == particle_positions(spiral_type, num_arms, canvas_size),
        second.0 == particle_positions(spiral_type, num_arms, canvas_size),
        first.1 == triangle_vertices(spiral_type, num_arms, canvas_size),
        second.1 == triangle_vertices(spiral_type, num_arms, canvas_size),
    ensures
        first == second,
{
}

} // verus!
