//! Seed decomposition: seed -> (quotient, variant id) -> spiral configuration.
use vstd::prelude::*;

verus! {

/// Number of artwork variants a seed is reduced to.
pub const VARIANT_COUNT: u64 = 41;

/// Number of spiral shapes (tight, loose, classic).
pub const SPIRAL_TYPE_COUNT: u64 = 3;

/// Number of distinct arm counts.
pub const ARM_CHOICES: u64 = 6;

/// Smallest number of arms a galaxy has.
pub const MIN_ARMS: u64 = 3;

/// Number of background styles a seed selects from.
pub const BACKGROUND_KINDS: u64 = 5;

/// The variant id selected by a seed.
pub open spec fn variant_of(seed: int) -> int {
    seed % (VARIANT_COUNT as int)
}

/// The quotient left over when a seed is reduced to its variant id.
pub open spec fn quotient_of(seed: int) -> int {
    seed / (VARIANT_COUNT as int)
}

/// The configuration tuple of a variant id:
/// `(spiral_type, num_arms, spiral_quotient, arms_quotient, arms_remainder)`.
pub open spec fn config_of(variant_id: int) -> (int, int, int, int, int) {
    let spiral_type = variant_id % (SPIRAL_TYPE_COUNT as int);
    let spiral_quotient = variant_id / (SPIRAL_TYPE_COUNT as int);
    let arms_remainder = spiral_quotient % (ARM_CHOICES as int);
    let arms_quotient = spiral_quotient / (ARM_CHOICES as int);
    (spiral_type, MIN_ARMS + arms_remainder, spiral_quotient, arms_quotient, arms_remainder)
}

/// Splits a seed into `(variant_id, quotient)`.
pub fn select_variant(seed: u64) -> (r: (u64, u64))
    ensures
        r.0 == variant_of(seed as int),
        r.1 == quotient_of(seed as int),
{
    (seed % VARIANT_COUNT, seed / VARIANT_COUNT)
}

/// Maps a variant id to
/// `(spiral_type, num_arms, spiral_quotient, arms_quotient, arms_remainder)`.
pub fn calculate_configuration_mapping(variant_id: u64) -> (r: (u64, u64, u64, u64, u64))
    ensures
        (r.0 as int, r.1 as int, r.2 as int, r.3 as int, r.4 as int) == config_of(
            variant_id as int,
        ),
{
    let spiral_type = variant_id % SPIRAL_TYPE_COUNT;
    let spiral_quotient = variant_id / SPIRAL_TYPE_COUNT;
    let arms_remainder = spiral_quotient % ARM_CHOICES;
    let arms_quotient = spiral_quotient / ARM_CHOICES;
    let num_arms = MIN_ARMS + arms_remainder;
    (spiral_type, num_arms, spiral_quotient, arms_quotient, arms_remainder)
}

/// The background style selected by a seed, in `[0, BACKGROUND_KINDS)`.
pub fn generate_background_type(seed: u64) -> (r: u64)
    ensures
        r == seed % BACKGROUND_KINDS,
        r < BACKGROUND_KINDS,
{
    seed % BACKGROUND_KINDS
}

/// Every seed is its quotient times the variant count plus its variant id,
/// and the variant id lies in `[0, 41)`.
pub proof fn lemma_seed_decomposition(seed: u64)
    ensures
        seed as int == quotient_of(seed as int) * (VARIANT_COUNT as int) + variant_of(
            seed as int,
        ),
        0 <= variant_of(seed as int) < VARIANT_COUNT,
{
}

/// For every variant id below 41 the configuration is a consistent
/// decomposition: `variant_id = spiral_quotient*3 + spiral_type`,
/// `spiral_quotient = arms_quotient*6 + arms_remainder`,
/// `num_arms = 3 + arms_remainder`, and `num_arms` lies in `[3, 8]`.
pub proof fn lemma_configuration_decomposition(variant_id: u64)
    requires
        variant_id < VARIANT_COUNT,
    ensures
        ({
            let (spiral_type, num_arms, spiral_quotient, arms_quotient, arms_remainder) =
                config_of(variant_id as int);
            &&& variant_id == spiral_quotient * 3 + spiral_type
            &&& spiral_quotient == arms_quotient * 6 + arms_remainder
            &&& num_arms == 3 + arms_remainder
            &&& 3 <= num_arms <= 8
            &&& 0 <= spiral_type < 3
        }),
{
}

} // verus!
