//! Integration tests for the PCIe amplification payload family:
//! predictive prefetch, transfer coalescing and compression.

use std::time::Duration;

/// Test prefetch matrix generation
#[test]
fn test_prefetch_matrix_generation() {
    // Hopfield-based prefetch prediction matrix (64x64)
    let matrix_size: usize = 64;
    let mut prefetch_matrix = vec![vec![0.0f64; matrix_size]; matrix_size];

    // Generate access pattern correlation matrix
    for i in 0..matrix_size {
        for j in 0..matrix_size {
            // Temporal locality: recent accesses predict future accesses
            let temporal_weight = (-((i as i32 - j as i32).abs() as f64) / 8.0).exp();

            // Spatial locality: nearby addresses accessed together
            let spatial_weight = if (i / 4) == (j / 4) { 0.5 } else { 0.0 };

            prefetch_matrix[i][j] = temporal_weight * 0.6 + spatial_weight * 0.4;
        }
    }

    // Verify matrix properties
    assert_eq!(prefetch_matrix.len(), 64);

    // Diagonal should be strongest (self-prediction) - temporal_weight=1.0, spatial_weight=0.5
    // Result: 1.0 * 0.6 + 0.5 * 0.4 = 0.8
    assert!(prefetch_matrix[0][0] > 0.7);

    // Nearby elements should have high correlation
    assert!(prefetch_matrix[0][1] > 0.4);

    // Far elements should have low correlation
    assert!(prefetch_matrix[0][63] < 0.3);
}

/// Test coalescing matrix generation
#[test]
fn test_coalescing_matrix_generation() {
    // De Bruijn-based transfer coalescing matrix (64x64)
    let matrix_size: usize = 64;
    let mut coalescing_matrix = vec![vec![0.0f64; matrix_size]; matrix_size];

    // Generate coalescing schedule based on De Bruijn sequence
    for i in 0..matrix_size {
        for j in 0..matrix_size {
            // Coalescing efficiency based on address alignment
            let alignment = (i ^ j).trailing_zeros() as f64;
            let coalesce_weight = alignment / 6.0; // Max 6 bits = 64-byte alignment

            coalescing_matrix[i][j] = coalesce_weight.min(1.0);
        }
    }

    // Verify matrix properties
    assert_eq!(coalescing_matrix.len(), 64);

    // Same address (0 XOR 0 = 0) has infinite trailing zeros, capped at 1.0
    assert_eq!(coalescing_matrix[0][0], 1.0);

    // Different addresses should have some coalescing based on alignment
    // 0 XOR 32 = 32 = 0b100000, trailing_zeros = 5, weight = 5/6 = 0.833
    assert!(coalescing_matrix[0][32] > 0.5);
}

/// Test compression matrix generation
#[test]
fn test_compression_matrix_generation() {
    // Galois Field compression matrix (64x64)
    let matrix_size: usize = 64;
    let irreducible_poly: u32 = 0x18D;

    let mut compression_matrix = vec![vec![0.0f64; matrix_size]; matrix_size];

    // Generate compression transformation matrix
    for i in 0..matrix_size {
        for j in 0..matrix_size {
            // GF multiplication for compression
            let gf_value = galois_multiply(i as u32, j as u32, irreducible_poly);
            compression_matrix[i][j] = (gf_value as f64) / 255.0;
        }
    }

    // Verify matrix properties
    assert_eq!(compression_matrix.len(), 64);

    // First row/column should follow GF multiplication pattern
    assert_eq!(compression_matrix[0][0], 0.0); // 0 * 0 = 0
}

/// Test combined PCIe amplification factor
#[test]
fn test_combined_pcie_amplification() {
    let prefetch_factor: f64 = 8.0;
    let coalescing_factor: f64 = 4.0;
    let compression_factor: f64 = 2.5;

    let combined = prefetch_factor * coalescing_factor * compression_factor;

    // Verify expected combined factor
    assert!((combined - 80.0_f64).abs() < 1.0);

    // Test bandwidth calculation
    let physical_bandwidth_gbs: f64 = 32.0; // PCIe Gen5 x16
    let effective_bandwidth_gbs = physical_bandwidth_gbs * combined;

    assert!((effective_bandwidth_gbs - 2560.0_f64).abs() < 100.0);
}

/// Test prefetch hit rate calculation
#[test]
fn test_prefetch_hit_rate() {
    // Simulate prefetch predictions
    let total_accesses: usize = 1000;
    let mut hits: usize = 0;
    let mut predictions = vec![false; total_accesses];

    // Simulate Hopfield-based prediction
    for i in 0..total_accesses {
        // Predict based on temporal pattern
        if i > 0 && i % 4 == 0 {
            predictions[i] = true;
        }
        // Predict based on spatial pattern
        if i > 8 && (i - 8) % 16 == 0 {
            predictions[i] = true;
        }
    }

    // Count hits (simplified)
    for i in 0..total_accesses {
        if predictions[i] {
            hits += 1;
        }
    }

    let hit_rate = (hits as f64) / (total_accesses as f64) * 100.0;

    // Should have reasonable hit rate
    assert!(hit_rate > 10.0);
    assert!(hit_rate < 100.0);
}

/// Test PCIe generation support
#[test]
fn test_pcie_generation_bandwidth() {
    // PCIe bandwidth per lane (GB/s)
    let gen3_bandwidth: f64 = 1.0;
    let gen4_bandwidth: f64 = 2.0;
    let gen5_bandwidth: f64 = 4.0;
    let gen6_bandwidth: f64 = 8.0;

    // x16 configurations
    let gen3_x16 = gen3_bandwidth * 16.0;
    let gen4_x16 = gen4_bandwidth * 16.0;
    let gen5_x16 = gen5_bandwidth * 16.0;
    let gen6_x16 = gen6_bandwidth * 16.0;

    assert!((gen3_x16 - 16.0_f64).abs() < 0.1);
    assert!((gen4_x16 - 32.0_f64).abs() < 0.1);
    assert!((gen5_x16 - 64.0_f64).abs() < 0.1);
    assert!((gen6_x16 - 128.0_f64).abs() < 0.1);
}

/// Test matrix rotation for security
#[test]
fn test_pcie_matrix_rotation() {
    let _rotation_interval = Duration::from_secs(60);
    let mut version: u64 = 0;

    // Simulate 5 rotations
    for _ in 0..5 {
        version += 1;
    }

    assert_eq!(version, 5);
}

// Helper function
fn galois_multiply(a: u32, b: u32, poly: u32) -> u32 {
    let mut result: u32 = 0;
    let mut a = a;
    let mut b = b;

    while b > 0 {
        if b & 1 != 0 {
            result ^= a;
        }
        let high_bit = a & 0x80;
        a <<= 1;
        if high_bit != 0 {
            a ^= poly;
        }
        b >>= 1;
    }
    result & 0xFF
}
