//! Integration tests for the compute-calibration payload family.
//!
//! These exercise the engine parameter matrices distributed to agents:
//! cache-aware tensor folding, Galois-field lookup tables, De Bruijn
//! compute graphs, Hopfield scheduling and particle-mesh waves.

use std::time::Duration;

/// Test CARTF matrix generation
#[test]
fn test_cartf_matrix_generation() {
    // CARTF uses 32x32 matrices for cache-aware tensor folding
    let matrix_size: usize = 32;
    let mut matrix = vec![vec![0.0f64; matrix_size]; matrix_size];

    // Generate CARTF folding matrix
    for i in 0..matrix_size {
        for j in 0..matrix_size {
            // Cache-aware pattern: diagonal dominance with L1/L2/L3 block structure
            let l1_block = (i / 4) == (j / 4);
            let l2_block = (i / 8) == (j / 8);
            let l3_block = (i / 16) == (j / 16);

            let base = if i == j { 1.0 } else { 0.0 };
            let l1_contrib = if l1_block { 0.3 } else { 0.0 };
            let l2_contrib = if l2_block { 0.2 } else { 0.0 };
            let l3_contrib = if l3_block { 0.1 } else { 0.0 };

            matrix[i][j] = base + l1_contrib + l2_contrib + l3_contrib;
        }
    }

    // Verify matrix properties
    assert_eq!(matrix.len(), 32);
    assert_eq!(matrix[0].len(), 32);

    // Diagonal should be strongest (1.0 + all cache contributions)
    assert!(matrix[0][0] > 1.5);

    // Off-diagonal in same L1 block should have contribution
    assert!(matrix[0][1] > 0.0);

    // Far off-diagonal should be smaller
    assert!(matrix[0][31] < matrix[0][1]);
}

/// Test GFCE (Galois Field) matrix generation
#[test]
fn test_gfce_matrix_generation() {
    // GFCE uses 64x64 matrices for GF(2^32) operations
    let matrix_size: usize = 64;
    let irreducible_poly: u32 = 0x18D; // GF(2^32) irreducible polynomial

    // Generate multiplication lookup table (simplified)
    let mut mult_lut = vec![0u32; 256];
    for i in 0..256 {
        mult_lut[i] = galois_multiply(i as u32, 2, irreducible_poly);
    }

    // Verify LUT properties
    assert_eq!(mult_lut[0], 0); // 0 * 2 = 0
    assert_eq!(mult_lut[1], 2); // 1 * 2 = 2

    // Generate calibration matrix
    let mut matrix = vec![vec![0.0f64; matrix_size]; matrix_size];
    for i in 0..matrix_size {
        for j in 0..matrix_size {
            // Galois field structure
            let gf_value = galois_multiply(i as u32, j as u32, irreducible_poly);
            matrix[i][j] = (gf_value as f64) / 255.0;
        }
    }

    assert_eq!(matrix.len(), 64);
    assert_eq!(matrix[0].len(), 64);
}

/// Test De Bruijn Compute Graph matrix
#[test]
fn test_dbcg_matrix_generation() {
    // De Bruijn graph with k=4, n=16 (alphabet size)
    let k: u32 = 4;
    let n: usize = 16;
    let _num_nodes = (n as u32).pow(k - 1); // 16^3 = 4096 nodes

    // For testing, use smaller representation
    let test_size: usize = 64;
    let mut adjacency = vec![vec![0.0f64; test_size]; test_size];

    // Generate De Bruijn adjacency pattern
    for i in 0..test_size {
        for j in 0..test_size {
            // De Bruijn edge: node i connects to j if j = (i * n + c) mod num_nodes
            // Simplified for test
            let shift = (i * n) % test_size;
            if j >= shift && j < shift + n && j < test_size {
                adjacency[i][j] = 1.0;
            }
        }
    }

    // Verify De Bruijn properties
    assert_eq!(adjacency.len(), 64);

    // Each node should have outgoing edges
    let out_degree: f64 = adjacency[0].iter().sum();
    assert!(out_degree > 0.0);
}

/// Test Hopfield Network energy matrix
#[test]
fn test_hopfield_matrix_generation() {
    // Continuous Hopfield Network with 64 neurons
    let num_neurons: usize = 64;
    let _temperature: f64 = 0.1;

    // Generate symmetric energy matrix
    let mut energy_matrix = vec![vec![0.0f64; num_neurons]; num_neurons];

    for i in 0..num_neurons {
        for j in 0..num_neurons {
            if i != j {
                // Hebbian learning pattern
                let pattern_correlation = ((i ^ j) as f64).cos();
                energy_matrix[i][j] = pattern_correlation / (num_neurons as f64);
                energy_matrix[j][i] = energy_matrix[i][j]; // Symmetric
            }
        }
    }

    // Verify symmetry
    for i in 0..num_neurons {
        for j in 0..num_neurons {
            assert!((energy_matrix[i][j] - energy_matrix[j][i]).abs() < 1e-10);
        }
    }

    // Diagonal should be zero (no self-connections)
    for i in 0..num_neurons {
        assert_eq!(energy_matrix[i][i], 0.0);
    }
}

/// Test PME (Particle Mesh Ewald) matrix
#[test]
fn test_pme_matrix_generation() {
    // PME with grid size 128, B-spline order 4
    let grid_size: usize = 64; // Reduced for testing
    let bspline_order: usize = 4;
    let ewald_coeff: f64 = 0.3;

    // Generate B-spline interpolation weights
    let mut bspline_weights = vec![0.0f64; bspline_order];
    for i in 0..bspline_order {
        bspline_weights[i] = bspline_basis(i, bspline_order, 0.5);
    }

    // Verify B-spline properties - weights should be non-negative
    let weight_sum: f64 = bspline_weights.iter().sum();
    assert!(weight_sum >= 0.0); // Weights should be non-negative
    assert!(bspline_weights.iter().all(|&w| w >= 0.0));

    // Generate PME influence function
    let mut influence = vec![vec![0.0f64; grid_size]; grid_size];
    for i in 0..grid_size {
        for j in 0..grid_size {
            let kx = (i as f64) * 2.0 * std::f64::consts::PI / (grid_size as f64);
            let ky = (j as f64) * 2.0 * std::f64::consts::PI / (grid_size as f64);
            let k2 = kx * kx + ky * ky;

            if k2 > 0.0 {
                influence[i][j] = (-k2 / (4.0 * ewald_coeff * ewald_coeff)).exp() / k2;
            }
        }
    }

    assert_eq!(influence.len(), 64);
}

/// Test combined amplification factor calculation
#[test]
fn test_combined_amplification_factor() {
    let cartf_factor: f64 = 1.8;
    let gfce_factor: f64 = 14.0;
    let dbcg_factor: f64 = 2.19;
    let hopfield_factor: f64 = 1.45;
    let pme_factor: f64 = 1.45;

    let theoretical_combined = cartf_factor * gfce_factor * dbcg_factor * hopfield_factor * pme_factor;

    // Verify theoretical combined factor (1.8 * 14.0 * 2.19 * 1.45 * 1.45 = ~116.2)
    assert!((theoretical_combined - 116.2_f64).abs() < 2.0);

    // Practical factor accounts for real-world overhead
    let practical_factor: f64 = 29.86;

    // Verify practical factor is reasonable (between 25% and 30% of theoretical)
    let efficiency = practical_factor / theoretical_combined;
    assert!(efficiency > 0.20 && efficiency < 0.35);
}

/// Test matrix rotation (security feature)
#[test]
fn test_matrix_rotation() {
    let _rotation_interval = Duration::from_secs(60);
    let mut version: u64 = 0;

    // Simulate rotation
    for _ in 0..5 {
        version += 1;
        // In real implementation, matrix would be regenerated
    }

    assert_eq!(version, 5);
}

// Helper functions

fn galois_multiply(a: u32, b: u32, poly: u32) -> u32 {
    let mut result: u32 = 0;
    let mut a = a;
    let mut b = b;

    while b > 0 {
        if b & 1 != 0 {
            result ^= a;
        }
        let high_bit = a & 0x80;
        a <<= 1;
        if high_bit != 0 {
            a ^= poly;
        }
        b >>= 1;
    }
    result & 0xFF
}

fn bspline_basis(i: usize, order: usize, t: f64) -> f64 {
    // Simplified B-spline basis function
    match order {
        1 => if i == 0 && t >= 0.0 && t < 1.0 { 1.0 } else { 0.0 },
        _ => {
            let left = t * bspline_basis(i, order - 1, t);
            let right = (1.0 - t) * bspline_basis(i, order - 1, t);
            (left + right) / 2.0
        }
    }
}
