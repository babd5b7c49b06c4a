//! A whole galaxy derived from a seed, and the storage cost of minting it.
use vstd::prelude::*;
use crate::config::{
    calculate_configuration_mapping, config_of, generate_background_type, quotient_of,
    select_variant, variant_of, BACKGROUND_KINDS,
};
use crate::layout::{
    generate_spiral_particles, particle_metadata, particle_positions, triangle_vertices,
};
use crate::packing::{generate_optimized_triangles, triangle_record_ok, TriangleData};
use crate::spiral::PARTICLES_PER_ARM;

verus! {

/// Canvas size used when a request asks for none.
pub const DEFAULT_CANVAS_SIZE: u64 = 420;

/// Everything derived from one seed on one canvas.
pub struct SpiralData {
    pub seed: u64,
    pub variant: u64,
    pub quotient: u64,
    pub canvas_size: u64,
    pub spiral_type: u64,
    pub num_arms: u64,
    pub background_type: u64,
    pub spiral_quotient: u64,
    pub arms_quotient: u64,
    pub arms_remainder: u64,
    pub particles_per_arm: u64,
    pub total_particles: u64,
    pub positions: Vec<(u64, u64)>,
    pub metadata: Vec<(u64, u64, u64)>,
    pub triangles: Vec<TriangleData>,
}

/// The canvas size actually used for a requested one: zero selects the default.
pub open spec fn effective_canvas(canvas_size: u64) -> u64 {
    if canvas_size > 0 {
        canvas_size
    } else {
        DEFAULT_CANVAS_SIZE
    }
}

/// `d` is the galaxy of `seed` on the canvas `canvas_size` asks for.
pub open spec fn is_galaxy_of(d: SpiralData, seed: u64, canvas_size: u64) -> bool {
    let c = effective_canvas(canvas_size);
    let cfg = config_of(variant_of(seed as int));
    &&& d.seed == seed
    &&& d.variant == variant_of(seed as int)
    &&& d.quotient == quotient_of(seed as int)
    &&& d.canvas_size == c
    &&& (d.spiral_type as int, d.num_arms as int, d.spiral_quotient as int, d.arms_quotient as int,
        d.arms_remainder as int) == cfg
    &&& d.background_type == seed % BACKGROUND_KINDS
    &&& d.particles_per_arm == PARTICLES_PER_ARM
    &&& d.total_particles == d.num_arms * PARTICLES_PER_ARM
    &&& d.positions@ == particle_positions(d.spiral_type, d.num_arms, c)
    &&& d.metadata@ == particle_metadata(d.spiral_type, d.num_arms, c)
    &&& d.triangles@.len() == d.num_arms * PARTICLES_PER_ARM
    &&& forall|k: int|
        0 <= k < d.triangles@.len() ==> triangle_record_ok(
            #[trigger] d.triangles@[k],
            d.positions@[k],
            k,
            c,
        )
}

/// Derives the whole galaxy of a seed: its configuration, background,
/// particles and packed micro-triangles. A `canvas_size` of zero selects
/// [`DEFAULT_CANVAS_SIZE`].
pub fn generate_spiral_data(seed: u64, canvas_size: u64) -> (r: SpiralData)
    ensures
        is_galaxy_of(r, seed, canvas_size),
{
    let canvas_size = if canvas_size > 0 {
        canvas_size
    } else {
        DEFAULT_CANVAS_SIZE
    };
    let (variant, quotient) = select_variant(seed);
    let (spiral_type, num_arms, spiral_quotient, arms_quotient, arms_remainder) =
        calculate_configuration_mapping(variant);
    let background_type = generate_background_type(seed);
    let (positions, metadata) = generate_spiral_particles(spiral_type, num_arms, canvas_size);
    assert(num_arms <= 8);
    let triangles = generate_optimized_triangles(positions.as_slice(), num_arms, canvas_size);
    SpiralData {
        seed,
        variant,
        quotient,
        canvas_size,
        spiral_type,
        num_arms,
        background_type,
        spiral_quotient,
        arms_quotient,
        arms_remainder,
        particles_per_arm: PARTICLES_PER_ARM,
        total_particles: num_arms * PARTICLES_PER_ARM,
        positions,
        metadata,
        triangles,
    }
}

/// The packed triangles of a galaxy carry the same vertices, in the same
/// order, as the micro-triangles of its layout.
pub proof fn lemma_galaxy_triangles_match_layout(d: SpiralData, seed: u64, canvas_size: u64)
    requires
        is_galaxy_of(d, seed, canvas_size),
    ensures
        d.triangles@.len() == triangle_vertices(d.spiral_type, d.num_arms, d.canvas_size).len(),
        forall|k: int|
            0 <= k < d.triangles@.len() ==> {
                let v = triangle_vertices(d.spiral_type, d.num_arms, d.canvas_size)[k];
                (#[trigger] d.triangles@[k]).vertices@ == seq![(v.0, v.1), (v.2, v.3), (v.4, v.5)]
            },
{
    assert forall|k: int| 0 <= k < d.triangles@.len() implies {
        let v = triangle_vertices(d.spiral_type, d.num_arms, d.canvas_size)[k];
        (#[trigger] d.triangles@[k]).vertices@ == seq![(v.0, v.1), (v.2, v.3), (v.4, v.5)]
    } by {
        assert(triangle_record_ok(d.triangles@[k], d.positions@[k], k, d.canvas_size));
    }
}

/// Gas for minting, whatever the artwork.
pub const BASE_MINT_GAS: u64 = 50000;

/// Gas for checking the proof on chain.
pub const ZK_PROOF_GAS: u64 = 100000;

/// Gas for storing the metadata.
pub const METADATA_GAS: u64 = 30000;

/// Gas for storing one packed triangle.
pub const PACKED_TRIANGLE_GAS: u64 = 5000;

/// Triangles per arm in the unpacked layout that the estimate compares with.
pub const UNPACKED_TRIANGLES_PER_ARM: u64 = 69;

/// Gas for storing one unpacked triangle.
pub const UNPACKED_TRIANGLE_GAS: u64 = 20000;

/// Proof-check gas of the unpacked layout.
pub const UNPACKED_ZK_PROOF_GAS: u64 = 120000;

/// Metadata gas of the unpacked layout.
pub const UNPACKED_METADATA_GAS: u64 = 50000;

/// Gas saved by packing coordinates into bytes.
pub const DATA_PACKING_SAVINGS: u64 = 50000;

/// What minting a galaxy costs, item by item.
pub struct GasBreakdown {
    pub base_mint_gas: u64,
    pub zk_proof_gas: u64,
    pub metadata_gas: u64,
    pub triangle_storage_gas: u64,
    pub total_gas: u64,
}

/// What the packed layout saves against the unpacked one.
pub struct GasSavings {
    pub triangle_reduction_savings: u64,
    pub data_packing_savings: u64,
    pub total_savings: u64,
    pub unpacked_estimate: u64,
    pub optimized_estimate: u64,
}

/// Storage gas of the unpacked layout of a galaxy with `num_arms` arms.
pub open spec fn unpacked_storage_gas(num_arms: int) -> int {
    num_arms * (UNPACKED_TRIANGLES_PER_ARM as int) * (UNPACKED_TRIANGLE_GAS as int)
}

/// Estimates the gas for minting a galaxy with its packed triangles, and
/// what that saves against storing `69` unpacked triangles per arm.
pub fn estimate_optimized_gas(spiral_data: &SpiralData) -> (r: (GasBreakdown, GasSavings))
    requires
        spiral_data.triangles@.len() * PACKED_TRIANGLE_GAS <= unpacked_storage_gas(
            spiral_data.num_arms as int,
        ),
        unpacked_storage_gas(spiral_data.num_arms as int) + BASE_MINT_GAS + UNPACKED_ZK_PROOF_GAS
            + UNPACKED_METADATA_GAS + DATA_PACKING_SAVINGS <= u64::MAX,
    ensures
        ({
            let storage = spiral_data.triangles@.len() * PACKED_TRIANGLE_GAS;
            let total = BASE_MINT_GAS + ZK_PROOF_GAS + storage + METADATA_GAS;
            let unpacked = unpacked_storage_gas(spiral_data.num_arms as int);
            let (b, s) = r;
            &&& b.base_mint_gas == BASE_MINT_GAS
            &&& b.zk_proof_gas == ZK_PROOF_GAS
            &&& b.metadata_gas == METADATA_GAS
            &&& b.triangle_storage_gas == storage
            &&& b.total_gas == total
            &&& s.triangle_reduction_savings == unpacked - storage
            &&& s.data_packing_savings == DATA_PACKING_SAVINGS
            &&& s.total_savings == unpacked - storage + DATA_PACKING_SAVINGS
            &&& s.unpacked_estimate == BASE_MINT_GAS + UNPACKED_ZK_PROOF_GAS + unpacked
                + UNPACKED_METADATA_GAS
            &&& s.optimized_estimate == total
        }),
{
    let triangle_count = spiral_data.triangles.len() as u64;
    let triangle_storage_gas = triangle_count * PACKED_TRIANGLE_GAS;
    let total_optimized = BASE_MINT_GAS + ZK_PROOF_GAS + triangle_storage_gas + METADATA_GAS;
    let unpacked_storage = spiral_data.num_arms * UNPACKED_TRIANGLES_PER_ARM
        * UNPACKED_TRIANGLE_GAS;
    let unpacked_total = BASE_MINT_GAS + UNPACKED_ZK_PROOF_GAS + unpacked_storage
        + UNPACKED_METADATA_GAS;
    let triangle_reduction_savings = unpacked_storage - triangle_storage_gas;
    let total_savings = triangle_reduction_savings + DATA_PACKING_SAVINGS;
    let breakdown = GasBreakdown {
        base_mint_gas: BASE_MINT_GAS,
        zk_proof_gas: ZK_PROOF_GAS,
        metadata_gas: METADATA_GAS,
        triangle_storage_gas,
        total_gas: total_optimized,
    };
    let savings = GasSavings {
        triangle_reduction_savings,
        data_packing_savings: DATA_PACKING_SAVINGS,
        total_savings,
        unpacked_estimate: unpacked_total,
        optimized_estimate: total_optimized,
    };
    (breakdown, savings)
}

} // verus!
