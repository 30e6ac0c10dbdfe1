//! Terrain configuration records and their validation.
//!
//! Continuous quantities (the world extent and the fractal parameters) are
//! carried as exact counts of millionths, so that defaulting, comparison and
//! validation are plain integer logic.  The sampling side reads each count
//! back as a double through the standard duration type — whole seconds
//! exactly, the fraction correctly rounded — so common decimal values
//! convert exactly.

use vstd::prelude::*;

verus! {

/// Largest accepted grid edge: the sampling raster refuses edges of 32767
/// cells or more.
pub const MAX_GRID_SIZE: u32 = 32766;

/// Largest accepted noise seed: thirty-one below the largest unsigned 32-bit
/// value.  The generator reseeds each octave's source by adding the octave
/// index to the seed, and it caps octaves at thirty-two, so seeds above this
/// would overflow that addition.
pub const MAX_NOISE_SEED: u32 = 0xFFFF_FFE0;

/// Holds exactly when `seed` leaves room for the generator's per-octave
/// reseeding.
pub open spec fn valid_noise_seed(seed: u32) -> bool {
    seed <= MAX_NOISE_SEED
}

/// The millionths count of a persistence of exactly one — the single value
/// the generator cannot normalize.  Its amplitude normalizer is one minus
/// the persistence raised to the octave count, which is zero exactly there,
/// and grid points aligned with the gradient lattice (the origin always is)
/// then divide zero by zero: a NaN, whose bit pattern no platform fixes.
pub const UNIT_PERSISTENCE_MICROS: u32 = 1_000_000;

/// Holds exactly when `micros` is a persistence the generator can
/// normalize.
pub open spec fn valid_noise_persistence(micros: u32) -> bool {
    micros != UNIT_PERSISTENCE_MICROS
}

/// Holds exactly when `size` is an acceptable grid edge: at least one sample
/// per axis and within the sampling raster's limit.
pub open spec fn valid_grid_size(size: u32) -> bool {
    1 <= size <= MAX_GRID_SIZE
}

/// Why a configuration was rejected at generation time.
#[derive(Clone, Copy, Debug, PartialEq, Eq, Structural)]
pub enum ConfigError {
    /// The grid edge is zero, or beyond the sampling raster's limit.
    InvalidSize,
    /// The world extent is zero: the terrain plane must span a positive extent.
    InvalidScale,
    /// The noise seed is too large for the generator's per-octave reseeding.
    InvalidSeed,
    /// The persistence is exactly one, which the generator cannot normalize.
    InvalidPersistence,
}

/// Fractal-noise parameters: several octaves of gradient noise summed with
/// geometrically decreasing amplitude.  The per-octave frequency multiplier
/// (lacunarity) is the generator's own default and is not configurable here.
#[derive(Clone, Copy, Debug, PartialEq, Eq, Structural)]
pub struct NoiseParams {
    /// Seed of the underlying gradient-noise permutation.
    pub seed: u32,
    /// Number of octaves summed (the generator clamps this to its own limit).
    pub octaves: u32,
    /// Cycles per unit length of the first octave, in millionths.
    pub frequency_micros: u32,
    /// Per-octave amplitude multiplier, in millionths.
    pub persistence_micros: u32,
}

/// The default fractal parameters: seed 0, six octaves, unit frequency and a
/// persistence of one half, matching the generator's own defaults.
pub open spec fn default_noise_params() -> NoiseParams {
    NoiseParams { seed: 0, octaves: 6, frequency_micros: 1_000_000, persistence_micros: 500_000 }
}

impl Default for NoiseParams {
    fn default() -> (d: Self)
        ensures
            d == default_noise_params(),
    {
        NoiseParams { seed: 0, octaves: 6, frequency_micros: 1_000_000, persistence_micros: 500_000 }
    }
}

/// Configuration of one terrain: grid resolution, world extent and noise
/// parameters.  A configuration is immutable once used to generate;
/// generating from different values is a different terrain, not a mutation.
#[derive(Clone, Copy, Debug, PartialEq, Eq, Structural)]
pub struct TerrainConfig {
    /// Grid resolution: samples per edge of the square heightmap, and
    /// subdivisions per edge of the mesh plane.
    pub size: u32,
    /// World-space extent of the terrain plane, in millionths.
    pub scale_micros: u32,
    /// Fractal-noise parameters.
    pub noise: NoiseParams,
}

impl TerrainConfig {
    /// A configuration generates successfully exactly when its grid edge,
    /// world extent, noise seed and persistence are valid.
    pub open spec fn valid(self) -> bool {
        &&& valid_grid_size(self.size)
        &&& self.scale_micros >= 1
        &&& valid_noise_seed(self.noise.seed)
        &&& valid_noise_persistence(self.noise.persistence_micros)
    }
}

/// The default configuration: a 256-sample edge over ten world units, with
/// the default fractal parameters.
pub open spec fn default_terrain_config() -> TerrainConfig {
    TerrainConfig { size: 256, scale_micros: 10_000_000, noise: default_noise_params() }
}

impl Default for TerrainConfig {
    fn default() -> (d: Self)
        ensures
            d == default_terrain_config(),
    {
        TerrainConfig { size: 256, scale_micros: 10_000_000, noise: NoiseParams::default() }
    }
}

/// A display-only terrain descriptor: grid resolution and world extent.  Its
/// heightmap uses the byte encoding and the default fractal parameters.
#[derive(Clone, Copy, Debug, PartialEq, Eq, Structural)]
pub struct Terrain {
    /// Grid resolution: samples per edge, and subdivisions of the mesh plane.
    pub size: u32,
    /// World-space extent of the terrain plane, in millionths.
    pub scale_micros: u32,
}

impl Terrain {
    /// A descriptor generates successfully exactly when its grid edge and
    /// world extent are valid.
    pub open spec fn valid(self) -> bool {
        valid_grid_size(self.size) && self.scale_micros >= 1
    }
}

/// The plan for the terrain's mesh: a flat plane of `subdivisions` by
/// `subdivisions` cells spanning `extent_micros` millionths of a world unit
/// on each axis.  Elevation is never baked into the mesh; it is conveyed by
/// the heightmap texture alone.
#[derive(Clone, Copy, Debug, PartialEq, Eq, Structural)]
pub struct MeshPlan {
    /// Subdivisions per edge of the plane.
    pub subdivisions: u32,
    /// World-space extent of the plane, in millionths.
    pub extent_micros: u32,
}

impl TerrainConfig {
    /// Plans the terrain mesh for this configuration, rejecting invalid sizes
    /// and extents instead of producing a degenerate plane.
    pub fn generate_mesh(&self) -> (r: Result<MeshPlan, ConfigError>)
        ensures
            r is Ok <==> self.valid(),
            !valid_grid_size(self.size) ==> r == Result::<MeshPlan, ConfigError>::Err(
                ConfigError::InvalidSize,
            ),
            valid_grid_size(self.size) && self.scale_micros == 0 ==> r == Result::<
                MeshPlan,
                ConfigError,
            >::Err(ConfigError::InvalidScale),
            valid_grid_size(self.size) && self.scale_micros >= 1 && !valid_noise_seed(
                self.noise.seed,
            ) ==> r == Result::<MeshPlan, ConfigError>::Err(ConfigError::InvalidSeed),
            valid_grid_size(self.size) && self.scale_micros >= 1 && valid_noise_seed(
                self.noise.seed,
            ) && !valid_noise_persistence(self.noise.persistence_micros) ==> r == Result::<
                MeshPlan,
                ConfigError,
            >::Err(ConfigError::InvalidPersistence),
            r matches Ok(p) ==> p == (MeshPlan {
                subdivisions: self.size,
                extent_micros: self.scale_micros,
            }),
    {
        if self.size == 0 || self.size > MAX_GRID_SIZE {
            Err(ConfigError::InvalidSize)
        } else if self.scale_micros == 0 {
            Err(ConfigError::InvalidScale)
        } else if self.noise.seed > MAX_NOISE_SEED {
            Err(ConfigError::InvalidSeed)
        } else if self.noise.persistence_micros == UNIT_PERSISTENCE_MICROS {
            Err(ConfigError::InvalidPersistence)
        } else {
            Ok(MeshPlan { subdivisions: self.size, extent_micros: self.scale_micros })
        }
    }
}

impl Terrain {
    /// Plans the terrain mesh for this descriptor, rejecting invalid sizes and
    /// extents instead of producing a degenerate plane.
    pub fn generate_mesh(&self) -> (r: Result<MeshPlan, ConfigError>)
        ensures
            r is Ok <==> self.valid(),
            !valid_grid_size(self.size) ==> r == Result::<MeshPlan, ConfigError>::Err(
                ConfigError::InvalidSize,
            ),
            valid_grid_size(self.size) && self.scale_micros == 0 ==> r == Result::<
                MeshPlan,
                ConfigError,
            >::Err(ConfigError::InvalidScale),
            r matches Ok(p) ==> p == (MeshPlan {
                subdivisions: self.size,
                extent_micros: self.scale_micros,
            }),
    {
        let config = TerrainConfig {
            size: self.size,
            scale_micros: self.scale_micros,
            noise: NoiseParams::default(),
        };
        config.generate_mesh()
    }
}

} // verus!
