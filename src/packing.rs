//! Triangles with their coordinates packed into bytes for compact storage.
use vstd::prelude::*;
use vstd::math::min;
use crate::layout::{
    PACKED_MAX, SPIRAL_PARTICLE_TRIANGLE, arm_of, index_in_arm, layout_triangle,
    micro_triangle_size, triangle_on, triangle_size_of,
};
use crate::spiral::PARTICLES_PER_ARM;

verus! {

/// A canvas coordinate scaled into `[0, 255]`.
pub open spec fn packed_of(coord: int, canvas_size: int) -> int {
    min(coord * (PACKED_MAX as int) / canvas_size, PACKED_MAX as int)
}

/// A packed coordinate scaled back onto the canvas.
pub open spec fn unpacked_of(coord: int, canvas_size: int) -> int {
    min(coord * canvas_size / (PACKED_MAX as int), canvas_size)
}

/// Scales a canvas coordinate into `[0, 255]`.
pub fn scale_to_uint8(coord: u64, canvas_size: u64) -> (r: u8)
    requires
        canvas_size > 0,
    ensures
        r == packed_of(coord as int, canvas_size as int),
{
    let scaled: u128 = coord as u128 * (PACKED_MAX as u128) / (canvas_size as u128);
    if scaled > PACKED_MAX as u128 {
        PACKED_MAX as u8
    } else {
        scaled as u8
    }
}

/// Scales a packed coordinate back onto a canvas of `canvas_size`.
pub fn scale_from_uint8(coord: u8, canvas_size: u64) -> (r: u64)
    ensures
        r == unpacked_of(coord as int, canvas_size as int),
{
    assert(coord as u128 * (canvas_size as u128) <= 255 * 0xffff_ffff_ffff_ffff) by (nonlinear_arith)
        requires
            coord <= 255,
            canvas_size <= 0xffff_ffff_ffff_ffff,
    ;
    let scaled: u128 = coord as u128 * (canvas_size as u128) / (PACKED_MAX as u128);
    if scaled > canvas_size as u128 {
        canvas_size
    } else {
        scaled as u64
    }
}

/// A micro-triangle with its place in the layout and its packed vertices.
pub struct TriangleData {
    pub vertices: [(u64, u64); 3],
    pub arm_index: u64,
    pub triangle_index: u64,
    pub triangle_type: u64,
    pub size: u64,
    pub packed_vertices: [(u8, u8); 3],
}

/// The record of the micro-triangle on the `k`-th particle of a layout,
/// centred at `center`.
pub open spec fn triangle_record_ok(
    t: TriangleData,
    center: (u64, u64),
    k: int,
    canvas_size: u64,
) -> bool {
    let v = layout_triangle(center, k, canvas_size);
    let c = canvas_size as int;
    &&& t.vertices@ == seq![(v.0, v.1), (v.2, v.3), (v.4, v.5)]
    &&& t.arm_index == arm_of(k)
    &&& t.triangle_index == index_in_arm(k)
    &&& t.triangle_type == SPIRAL_PARTICLE_TRIANGLE
    &&& t.size == triangle_size_of(index_in_arm(k))
    &&& t.packed_vertices@ == seq![
        (packed_of(v.0 as int, c) as u8, packed_of(v.1 as int, c) as u8),
        (packed_of(v.2 as int, c) as u8, packed_of(v.3 as int, c) as u8),
        (packed_of(v.4 as int, c) as u8, packed_of(v.5 as int, c) as u8),
    ]
}

/// Builds the record of the micro-triangle on the `k`-th particle of a layout.
fn triangle_record(center: (u64, u64), k: usize, canvas_size: u64) -> (r: TriangleData)
    requires
        canvas_size > 0,
    ensures
        triangle_record_ok(r, center, k as int, canvas_size),
{
    let particle_index = (k % (PARTICLES_PER_ARM as usize)) as u64;
    let size = micro_triangle_size(particle_index);
    let (x1, y1, x2, y2, x3, y3) = triangle_on(center, k, canvas_size);
    let v1 = (x1, y1);
    let v2 = (x2, y2);
    let v3 = (x3, y3);
    let p1 = (scale_to_uint8(v1.0, canvas_size), scale_to_uint8(v1.1, canvas_size));
    let p2 = (scale_to_uint8(v2.0, canvas_size), scale_to_uint8(v2.1, canvas_size));
    let p3 = (scale_to_uint8(v3.0, canvas_size), scale_to_uint8(v3.1, canvas_size));
    let r = TriangleData {
        vertices: [v1, v2, v3],
        arm_index: (k / (PARTICLES_PER_ARM as usize)) as u64,
        triangle_index: particle_index,
        triangle_type: SPIRAL_PARTICLE_TRIANGLE,
        size,
        packed_vertices: [p1, p2, p3],
    };
    assert(r.vertices@ =~= seq![v1, v2, v3]);
    assert(r.packed_vertices@ =~= seq![p1, p2, p3]);
    r
}

/// Builds the packed micro-triangle records for the first
/// `min(positions.len(), num_arms * PARTICLES_PER_ARM)` particle positions,
/// in layout order.
pub fn generate_optimized_triangles(positions: &[(u64, u64)], num_arms: u64, canvas_size: u64) -> (r:
    Vec<TriangleData>)
    requires
        canvas_size > 0,
    ensures
        r@.len() == min(positions@.len() as int, num_arms * PARTICLES_PER_ARM),
        forall|k: int|
            0 <= k < r@.len() ==> triangle_record_ok(
                #[trigger] r@[k],
                positions@[k],
                k,
                canvas_size,
            ),
{
    let mut triangles: Vec<TriangleData> = Vec::new();
    let mut k: usize = 0;
    while k < positions.len() && ((k / (PARTICLES_PER_ARM as usize)) as u64) < num_arms
        invariant
            canvas_size > 0,
            k <= positions@.len(),
            k <= num_arms * PARTICLES_PER_ARM,
            triangles@.len() == k,
            forall|j: int|
                0 <= j < k ==> triangle_record_ok(
                    #[trigger] triangles@[j],
                    positions@[j],
                    j,
                    canvas_size,
                ),
        decreases positions@.len() - k,
    {
        triangles.push(triangle_record(positions[k], k, canvas_size));
        k = k + 1;
    }
    assert(k == min(positions@.len() as int, num_arms * PARTICLES_PER_ARM));
    triangles
}

} // verus!
