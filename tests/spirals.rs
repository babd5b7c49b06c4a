use zkbg::{
    build_witness, calculate_configuration_mapping, check_witness, generate_background_type,
    generate_spiral_particles, generate_spiral_triangles, SpiralWitness,
};

fn witness_by_hand(
    seed: u64,
    canvas_size: u64,
    positions: Vec<(u64, u64)>,
    metadata: Vec<(u64, u64, u64)>,
    vertices: Vec<(u64, u64, u64, u64, u64, u64)>,
    triangle_metadata: Vec<(u64, u64, u64)>,
) -> SpiralWitness {
    let variant = seed % 41;
    let quotient = seed / 41;
    let (spiral_type, num_arms, spiral_quotient, arms_quotient, arms_remainder) =
        calculate_configuration_mapping(variant);
    SpiralWitness {
        seed,
        quotient,
        variant_id: variant,
        spiral_type,
        num_arms,
        spiral_quotient,
        arms_quotient,
        arms_remainder,
        particles_per_arm: 23,
        total_particles: num_arms * 23,
        canvas_size,
        triangles_per_arm: 23,
        total_triangles: num_arms * 23,
        particle_positions: positions,
        particle_metadata: metadata,
        triangle_vertices: vertices,
        triangle_metadata,
    }
}

#[test]
fn test_optimized_spirals_circuit() {
    let seed_u64 = 12345u64;
    let variant_u64 = seed_u64 % 41;
    let (spiral_type, num_arms, _, _, _) = calculate_configuration_mapping(variant_u64);
    let background_type = generate_background_type(seed_u64);
    println!("  Seed: {}", seed_u64);
    println!("  Variant: {}", variant_u64);
    println!("  Config: spiral_type={}, num_arms={}", spiral_type, num_arms);
    println!("  Background: {}", background_type);

    let witness = witness_by_hand(seed_u64, 420, vec![], vec![], vec![], vec![]);
    assert_eq!(check_witness(&witness), true);
    println!("   Expected particles: {} (reduced from {})", num_arms * 23, num_arms * 69);
    println!("   Expected triangles: {} (reduced from {})", num_arms * 23, num_arms * 69);
}

#[test]
fn test_optimized_particle_generation() {
    let seed_u64 = 12345u64;
    let variant_u64 = seed_u64 % 41;
    let canvas_size = 420u64;
    let (spiral_type, num_arms, _, _, _) = calculate_configuration_mapping(variant_u64);

    let (positions, metadata) = generate_spiral_particles(spiral_type, num_arms, canvas_size);
    println!("  Spiral config: type={}, arms={}", spiral_type, num_arms);
    println!("  Total particles generated: {}", positions.len());
    assert_eq!(positions.len(), (num_arms * 23) as usize);

    for arm in 0..num_arms {
        let arm_particles: Vec<_> = metadata
            .iter()
            .enumerate()
            .filter(|(_, (arm_idx, _, _))| *arm_idx == arm)
            .take(5)
            .collect();
        for (i, (_arm_idx, particle_idx, angle_idx)) in arm_particles {
            let (x, y) = positions[i];
            println!("    Particle {}: ({}, {}) angle_idx={}", particle_idx, x, y, angle_idx);
        }
    }

    let witness = witness_by_hand(seed_u64, canvas_size, positions.clone(), metadata, vec![], vec![]);
    assert_eq!(check_witness(&witness), true);
}

#[test]
fn test_optimized_triangle_generation() {
    let seed_u64 = 12345u64;
    let variant_u64 = seed_u64 % 41;
    let canvas_size = 420u64;
    let (spiral_type, num_arms, _, _, _) = calculate_configuration_mapping(variant_u64);

    let (positions, _metadata) = generate_spiral_particles(spiral_type, num_arms, canvas_size);
    let (triangle_vertices, triangle_metadata) =
        generate_spiral_triangles(spiral_type, num_arms, canvas_size);
    println!("  Total particles: {}", positions.len());
    println!("  Total micro-triangles generated: {}", triangle_vertices.len());
    assert_eq!(triangle_vertices.len(), (num_arms * 23) as usize);

    for arm in 0..num_arms {
        let arm_triangles: Vec<_> = triangle_metadata
            .iter()
            .enumerate()
            .filter(|(_, (arm_idx, _, _))| *arm_idx == arm)
            .take(3)
            .collect();
        for (i, (_arm_idx, triangle_idx, triangle_type)) in arm_triangles {
            let (x1, y1, x2, y2, x3, y3) = triangle_vertices[i];
            let width = x3.max(x1).max(x2) - x1.min(x2).min(x3);
            let height = y2.max(y1).max(y3) - y1.min(y2).min(y3);
            println!(
                "    Triangle {}: center≈({},{}) size≈{}x{} type={}",
                triangle_idx,
                (x1 + x2 + x3) / 3,
                (y1 + y2 + y3) / 3,
                width,
                height,
                triangle_type
            );
            assert!(width <= 12, "Triangle too wide: {}", width);
            assert!(height <= 12, "Triangle too tall: {}", height);
        }
    }

    let witness = witness_by_hand(
        seed_u64,
        canvas_size,
        positions,
        vec![],
        triangle_vertices,
        triangle_metadata,
    );
    assert_eq!(check_witness(&witness), true);
}

#[test]
fn test_background_type_generation() {
    let test_seeds = vec![12345u64, 67890u64, 111u64, 999u64, 5555u64];
    let background_names = ["Deep Space", "Nebula", "Starfield", "Cosmic", "Void"];

    for seed in test_seeds {
        let bg_type = generate_background_type(seed);
        println!("  Seed {}: Background {} ({})", seed, bg_type, background_names[bg_type as usize]);
        assert!(bg_type < 5, "Background type should be 0-4");
    }

    let seed = 12345u64;
    let bg1 = generate_background_type(seed);
    let bg2 = generate_background_type(seed);
    assert_eq!(bg1, bg2, "Background generation should be deterministic");
}

#[test]
fn test_optimized_visual_distribution() {
    let test_cases = vec![
        (0, "Tight Galaxy (Optimized)"),
        (1, "Loose Galaxy (Optimized)"),
        (2, "Classic Galaxy (Optimized)"),
    ];

    for (spiral_type, name) in test_cases {
        println!("\n Testing {}", name);
        let num_arms = 6u64;
        let canvas_size = 420u64;

        let (positions, _metadata) = generate_spiral_particles(spiral_type, num_arms, canvas_size);
        let (triangles, _tri_metadata) = generate_spiral_triangles(spiral_type, num_arms, canvas_size);

        let center_x = canvas_size / 2;
        let center_y = canvas_size / 2;

        let mut radial_counts = vec![0; 5];
        for (x, y) in &positions {
            let dx = (*x as i64 - center_x as i64).abs() as u64;
            let dy = (*y as i64 - center_y as i64).abs() as u64;
            let distance_sq = dx * dx + dy * dy;
            let distance = (distance_sq as f64).sqrt() as u64;

            let zone = ((distance * 5) / (canvas_size / 2)).min(4) as usize;
            radial_counts[zone] += 1;
        }
        println!("  Radial distribution: {:?}", radial_counts);

        assert!(radial_counts[0] > 0, "Should have core particles");
        assert!(radial_counts[4] > 0, "Should have edge particles");
        assert_eq!(positions.len(), (num_arms * 23) as usize, "Should have exactly 23 particles per arm");
        assert_eq!(triangles.len(), (num_arms * 23) as usize, "Should have exactly 23 triangles per arm");
    }
}

#[test]
fn test_multiple_seeds_optimized() {
    let test_cases = vec![123u64, 999u64, 0u64, 40u64, 41u64, 82u64, 5000u64];

    for seed in test_cases {
        let variant = seed % 41;
        let quotient = seed / 41;
        let (spiral_type, num_arms, _, _, _) = calculate_configuration_mapping(variant);
        let background_type = generate_background_type(seed);
        println!("Testing Seed {} → variant {} (quotient: {})", seed, variant, quotient);
        println!("  Config: spiral_type={}, num_arms={}, background={}", spiral_type, num_arms, background_type);

        let witness = witness_by_hand(seed, 420, vec![], vec![], vec![], vec![]);
        assert_eq!(check_witness(&witness), true);
    }
}

#[test]
fn test_optimized_complexity_limits() {
    let seed_u64 = 12345u64;
    let variant_u64 = seed_u64 % 41;
    let (spiral_type, num_arms, _, _, _) = calculate_configuration_mapping(variant_u64);

    let (positions, metadata) = generate_spiral_particles(spiral_type, num_arms, 420);
    let (triangles, _tri_metadata) = generate_spiral_triangles(spiral_type, num_arms, 420);
    println!("  Generated {} positions", positions.len());
    println!("  Generated {} triangles", triangles.len());

    let limited_positions: Vec<(u64, u64)> = positions.iter().take(30).cloned().collect();
    let limited_metadata: Vec<(u64, u64, u64)> = metadata.iter().take(30).cloned().collect();
    let limited_triangles: Vec<(u64, u64, u64, u64, u64, u64)> =
        triangles.iter().take(30).cloned().collect();

    let witness = witness_by_hand(
        seed_u64,
        420,
        limited_positions,
        limited_metadata,
        limited_triangles,
        vec![],
    );
    assert_eq!(check_witness(&witness), true);
    let derived = build_witness(seed_u64, 420, 30);
    assert_eq!(check_witness(&derived), true);
    assert_eq!(derived.particle_positions.len(), 30);
}
