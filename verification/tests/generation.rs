//! Heightmap generation: determinism, sample counts, ranges and validation.

use terrain_erosion::config::{ConfigError, NoiseParams, Terrain, TerrainConfig};

fn test_config(size: u32) -> TerrainConfig {
    TerrainConfig {
        size,
        scale_micros: 10_000_000,
        noise: NoiseParams { seed: 0, octaves: 6, frequency_micros: 200_000, persistence_micros: 500_000 },
    }
}

#[test]
fn identical_configs_generate_identical_heightmaps() {
    let a = test_config(32).generate_heightmap().unwrap();
    let b = test_config(32).generate_heightmap().unwrap();
    assert_eq!(a.samples, b.samples);
    assert_eq!(a.encode_r32(), b.encode_r32());
}

#[test]
fn identical_terrains_generate_identical_byte_heightmaps() {
    let t = Terrain { size: 24, scale_micros: 10_000_000 };
    let a = t.generate_heightmap().unwrap();
    let b = t.generate_heightmap().unwrap();
    assert_eq!(a.samples, b.samples);
}

#[test]
fn heightmap_has_size_squared_samples_in_unit_range() {
    let h = test_config(8).generate_heightmap().unwrap();
    assert_eq!(h.size, 8);
    assert_eq!(h.samples.len(), 64);
    for &s in &h.samples {
        let v = f32::from_bits(s);
        assert!(0.0 <= v && v <= 1.0);
    }
}

#[test]
fn byte_heightmap_has_size_squared_samples() {
    let t = Terrain { size: 4, scale_micros: 10_000_000 };
    let h = t.generate_heightmap().unwrap();
    assert_eq!(h.size, 4);
    assert_eq!(h.samples.len(), 16);
}

#[test]
fn zero_size_fails_validation() {
    let c = test_config(0);
    assert_eq!(c.generate_heightmap().unwrap_err(), ConfigError::InvalidSize);
    assert_eq!(c.generate_mesh().unwrap_err(), ConfigError::InvalidSize);
    let t = Terrain { size: 0, scale_micros: 10_000_000 };
    assert_eq!(t.generate_heightmap().unwrap_err(), ConfigError::InvalidSize);
    assert_eq!(t.generate_mesh().unwrap_err(), ConfigError::InvalidSize);
}

#[test]
fn oversized_grid_fails_validation() {
    let c = test_config(40_000);
    assert_eq!(c.generate_heightmap().unwrap_err(), ConfigError::InvalidSize);
}

#[test]
fn oversized_seed_fails_validation() {
    // One above the largest seed that leaves room for the generator's
    // per-octave reseeding.
    let mut c = test_config(8);
    c.noise.seed = 0xFFFF_FFE1;
    assert_eq!(c.generate_heightmap().unwrap_err(), ConfigError::InvalidSeed);
    assert_eq!(c.generate_mesh().unwrap_err(), ConfigError::InvalidSeed);
}

#[test]
fn largest_valid_seed_generates_with_maximal_octaves() {
    // At the seed cap with the generator's octave cap, the last octave is
    // reseeded to exactly the largest 32-bit value: this must not overflow.
    let mut c = test_config(4);
    c.noise.seed = 0xFFFF_FFE0;
    c.noise.octaves = 32;
    let h = c.generate_heightmap().unwrap();
    assert_eq!(h.samples.len(), 16);
}

#[test]
fn unit_persistence_fails_validation() {
    // A persistence of exactly one zeroes the generator's amplitude
    // normalizer, so it is rejected rather than sampled.
    let mut c = test_config(8);
    c.noise.persistence_micros = 1_000_000;
    assert_eq!(c.generate_heightmap().unwrap_err(), ConfigError::InvalidPersistence);
    assert_eq!(c.generate_mesh().unwrap_err(), ConfigError::InvalidPersistence);
}

#[test]
fn persistence_next_to_one_generates() {
    // Either neighbour of the excluded value keeps the normalizer nonzero;
    // the samples stay in range even where the normalizer is tiny.
    for p in [999_999u32, 1_000_001] {
        let mut c = test_config(8);
        c.noise.persistence_micros = p;
        let h = c.generate_heightmap().unwrap();
        assert_eq!(h.samples.len(), 64);
        for &s in &h.samples {
            let v = f32::from_bits(s);
            assert!(0.0 <= v && v <= 1.0);
        }
    }
}

#[test]
fn zero_scale_fails_validation() {
    let mut c = test_config(8);
    c.scale_micros = 0;
    assert_eq!(c.generate_heightmap().unwrap_err(), ConfigError::InvalidScale);
    assert_eq!(c.generate_mesh().unwrap_err(), ConfigError::InvalidScale);
}

#[test]
fn mesh_plan_copies_the_configuration() {
    let c = test_config(512);
    let plan = c.generate_mesh().unwrap();
    assert_eq!(plan.subdivisions, 512);
    assert_eq!(plan.extent_micros, 10_000_000);
    let t = Terrain { size: 96, scale_micros: 2_500_000 };
    let plan = t.generate_mesh().unwrap();
    assert_eq!(plan.subdivisions, 96);
    assert_eq!(plan.extent_micros, 2_500_000);
}

#[test]
fn default_config_matches_documented_defaults() {
    let c = TerrainConfig::default();
    assert_eq!(c.size, 256);
    assert_eq!(c.scale_micros, 10_000_000);
    assert_eq!(c.noise.seed, 0);
    assert_eq!(c.noise.octaves, 6);
    assert_eq!(c.noise.frequency_micros, 1_000_000);
    assert_eq!(c.noise.persistence_micros, 500_000);
}

// Gradient noise vanishes on its own lattice, so the corner sample of the
// field is exactly zero: the unit encoding stores exactly one half, and the
// byte encoding exactly zero.  A wrapper that handed anything else back
// would fail here.
#[test]
fn corner_sample_is_the_remapped_zero() {
    let h = test_config(16).generate_heightmap().unwrap();
    assert_eq!(h.samples[0], 0.5f32.to_bits());
    let t = Terrain { size: 16, scale_micros: 10_000_000 };
    let b = t.generate_heightmap().unwrap();
    assert_eq!(b.samples[0], 0);
}

#[test]
fn samples_vary_across_the_grid() {
    let h = test_config(16).generate_heightmap().unwrap();
    let first = h.samples[0];
    assert!(h.samples.iter().any(|&s| s != first));
}
