//! Deterministic derivation of a spiral-galaxy artwork from a 64-bit seed,
//! together with the arithmetic constraints that check the derivation.

pub mod config;
pub mod spiral;
pub mod layout;
pub mod packing;
pub mod galaxy;
pub mod witness;

pub use config::{calculate_configuration_mapping, generate_background_type, select_variant};
pub use spiral::{calculate_spiral_point, trig_entry, PARTICLES_PER_ARM};
pub use layout::{create_micro_triangle, generate_spiral_particles, generate_spiral_triangles};
pub use packing::{generate_optimized_triangles, scale_from_uint8, scale_to_uint8, TriangleData};
pub use galaxy::{estimate_optimized_gas, generate_spiral_data, GasBreakdown, GasSavings, SpiralData};
pub use witness::{build_witness, check_witness, SpiralWitness, DEFAULT_MAX_ROWS};
