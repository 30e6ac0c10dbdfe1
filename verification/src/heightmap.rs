//! Heightmap generation: from a configuration to an encoded elevation grid.
//!
//! A heightmap is a square grid of `size * size` elevation samples derived
//! from the fractal-noise field.  Two encodings exist and are never mixed
//! for one texture: the unit-interval single-precision encoding (four bytes
//! per sample, required where the compute stage reads and writes the texture
//! in place) remaps raw samples by `(v + 1) / 2`, clamps them into `[0, 1]`
//! and narrows them to single precision; the byte encoding (one byte per
//! sample, display only) scales raw samples by 255 and saturates them into
//! `[0, 255]`.

use vstd::prelude::*;

verus! {

use crate::config::{ConfigError, NoiseParams, Terrain, TerrainConfig, valid_grid_size,
    valid_noise_persistence, valid_noise_seed, MAX_GRID_SIZE, MAX_NOISE_SEED,
    UNIT_PERSISTENCE_MICROS, default_noise_params};
use crate::float_bits::{clamp_unit_bits, clamp_unit_sample, narrow_unit_bits, narrow_unit_sample,
    F32_ONE_BITS};
use crate::noise_field::{fbm_unit_field, fbm_byte_field, fbm_plane_unit, fbm_plane_bytes};

/// One stored sample from one remapped field sample: clamped into the unit
/// interval, then narrowed to the single-precision pattern.
pub open spec fn unit_sample_spec(raw: u64) -> u32 {
    narrow_unit_bits(clamp_unit_bits(raw))
}

/// The unit-encoded fractal field of a configuration.
pub open spec fn config_unit_field(c: TerrainConfig) -> Seq<u64> {
    fbm_unit_field(
        c.noise.seed,
        c.noise.octaves,
        c.noise.frequency_micros,
        c.noise.persistence_micros,
        c.size,
        c.scale_micros,
    )
}

/// The samples of the heightmap generated from `c`: the unit-encoded field,
/// clamped and narrowed samplewise.
pub open spec fn heightmap_samples_spec(c: TerrainConfig) -> Seq<u32> {
    config_unit_field(c).map_values(|raw: u64| unit_sample_spec(raw))
}

/// The samples of the byte heightmap generated from `t`: the byte-encoded
/// field under the default fractal parameters.
pub open spec fn byte_samples_spec(t: Terrain) -> Seq<u8> {
    fbm_byte_field(
        default_noise_params().seed,
        default_noise_params().octaves,
        default_noise_params().frequency_micros,
        default_noise_params().persistence_micros,
        t.size,
        t.scale_micros,
    )
}

/// A heightmap in the unit-interval single-precision encoding: one `u32`
/// bit pattern per sample, each encoding a value in `[0, 1]`.
#[derive(Debug)]
pub struct Heightmap {
    /// Samples per edge of the square grid.
    pub size: u32,
    /// The `size * size` samples, row-major, as single-precision patterns.
    pub samples: Vec<u32>,
}

impl Heightmap {
    /// Well-formedness: exactly `size * size` samples, each within the
    /// encoding's valid range — a pattern at most that of `1.0`, hence a
    /// value in `[0, 1]`.
    pub open spec fn wf(self) -> bool {
        &&& self.samples@.len() == self.size * self.size
        &&& forall|i: int|
            0 <= i < self.samples@.len() ==> self.samples@[i] <= F32_ONE_BITS
    }
}

/// A heightmap in the byte encoding: one byte per sample, display only.
#[derive(Debug)]
pub struct ByteHeightmap {
    /// Samples per edge of the square grid.
    pub size: u32,
    /// The `size * size` samples, row-major; a byte's range is the
    /// encoding's valid range.
    pub samples: Vec<u8>,
}

impl ByteHeightmap {
    /// Well-formedness: exactly `size * size` samples.
    pub open spec fn wf(self) -> bool {
        self.samples@.len() == self.size * self.size
    }
}

/// Encodes a vector of remapped field samples: each is clamped into the
/// unit interval and narrowed to single precision.
pub fn encode_unit_samples(raw: &Vec<u64>) -> (out: Vec<u32>)
    ensures
        out@.len() == raw@.len(),
        out@ == raw@.map_values(|r: u64| unit_sample_spec(r)),
        forall|i: int| 0 <= i < out@.len() ==> out@[i] <= F32_ONE_BITS,
{
    let mut out: Vec<u32> = Vec::new();
    let mut i: usize = 0;
    while i < raw.len()
        invariant
            i <= raw@.len(),
            out@.len() == i,
            forall|j: int|
                0 <= j < i ==> out@[j] == unit_sample_spec(raw@[j]) && out@[j] <= F32_ONE_BITS,
        decreases raw@.len() - i,
    {
        let clamped = clamp_unit_sample(raw[i]);
        let sample = narrow_unit_sample(clamped);
        out.push(sample);
        i = i + 1;
    }
    assert(out@ =~= raw@.map_values(|r: u64| unit_sample_spec(r)));
    out
}

impl TerrainConfig {
    /// Generates the heightmap in the unit-interval single-precision
    /// encoding.  Succeeds exactly on valid configurations; an invalid grid
    /// edge or world extent is rejected synchronously, never clamped.  The
    /// output is a pure function of the configuration: identical
    /// configurations generate identical heightmaps.
    pub fn generate_heightmap(&self) -> (r: Result<Heightmap, ConfigError>)
        ensures
            r is Ok <==> self.valid(),
            !valid_grid_size(self.size) ==> r == Result::<Heightmap, ConfigError>::Err(
                ConfigError::InvalidSize,
            ),
            valid_grid_size(self.size) && self.scale_micros == 0 ==> r == Result::<
                Heightmap,
                ConfigError,
            >::Err(ConfigError::InvalidScale),
            valid_grid_size(self.size) && self.scale_micros >= 1 && !valid_noise_seed(
                self.noise.seed,
            ) ==> r == Result::<Heightmap, ConfigError>::Err(ConfigError::InvalidSeed),
            valid_grid_size(self.size) && self.scale_micros >= 1 && valid_noise_seed(
                self.noise.seed,
            ) && !valid_noise_persistence(self.noise.persistence_micros) ==> r == Result::<
                Heightmap,
                ConfigError,
            >::Err(ConfigError::InvalidPersistence),
            r matches Ok(h) ==> h.size == self.size && h.samples@ == heightmap_samples_spec(*self)
                && h.wf(),
    {
        if self.size == 0 || self.size > MAX_GRID_SIZE {
            Err(ConfigError::InvalidSize)
        } else if self.scale_micros == 0 {
            Err(ConfigError::InvalidScale)
        } else if self.noise.seed > MAX_NOISE_SEED {
            Err(ConfigError::InvalidSeed)
        } else if self.noise.persistence_micros == UNIT_PERSISTENCE_MICROS {
            Err(ConfigError::InvalidPersistence)
        } else {
            let raw = fbm_plane_unit(
                self.noise.seed,
                self.noise.octaves,
                self.noise.frequency_micros,
                self.noise.persistence_micros,
                self.size,
                self.scale_micros,
            );
            let samples = encode_unit_samples(&raw);
            Ok(Heightmap { size: self.size, samples })
        }
    }
}

impl Terrain {
    /// Generates the heightmap in the byte encoding, under the default
    /// fractal parameters.  Succeeds exactly on valid descriptors; the
    /// output is a pure function of the descriptor.
    pub fn generate_heightmap(&self) -> (r: Result<ByteHeightmap, ConfigError>)
        ensures
            r is Ok <==> self.valid(),
            !valid_grid_size(self.size) ==> r == Result::<ByteHeightmap, ConfigError>::Err(
                ConfigError::InvalidSize,
            ),
            valid_grid_size(self.size) && self.scale_micros == 0 ==> r == Result::<
                ByteHeightmap,
                ConfigError,
            >::Err(ConfigError::InvalidScale),
            r matches Ok(h) ==> h.size == self.size && h.samples@ == byte_samples_spec(*self)
                && h.wf(),
    {
        if self.size == 0 || self.size > MAX_GRID_SIZE {
            Err(ConfigError::InvalidSize)
        } else if self.scale_micros == 0 {
            Err(ConfigError::InvalidScale)
        } else {
            let noise = NoiseParams::default();
            let samples = fbm_plane_bytes(
                noise.seed,
                noise.octaves,
                noise.frequency_micros,
                noise.persistence_micros,
                self.size,
                self.scale_micros,
            );
            Ok(ByteHeightmap { size: self.size, samples })
        }
    }
}

/// The little-endian byte at position `k` of a single-precision pattern.
pub open spec fn le_byte(x: u32, k: int) -> u8 {
    if k == 0 {
        (x & 0xFF) as u8
    } else if k == 1 {
        ((x >> 8u32) & 0xFF) as u8
    } else if k == 2 {
        ((x >> 16u32) & 0xFF) as u8
    } else {
        ((x >> 24u32) & 0xFF) as u8
    }
}

/// The texture data of a sample sequence: each sample's four bytes, little
/// endian, in sample order.
pub open spec fn r32_texture_bytes(samples: Seq<u32>) -> Seq<u8> {
    Seq::new(samples.len() * 4, |i: int| le_byte(samples[i / 4], i % 4))
}

impl Heightmap {
    /// Encodes the samples as single-channel single-precision texture data:
    /// four little-endian bytes per sample.
    pub fn encode_r32(&self) -> (out: Vec<u8>)
        ensures
            out@ == r32_texture_bytes(self.samples@),
            out@.len() == self.samples@.len() * 4,
    {
        let mut out: Vec<u8> = Vec::new();
        let mut i: usize = 0;
        while i < self.samples.len()
            invariant
                i <= self.samples@.len(),
                out@.len() == i * 4,
                forall|j: int|
                    0 <= j < out@.len() ==> out@[j] == le_byte(self.samples@[j / 4], j % 4),
            decreases self.samples@.len() - i,
        {
            let x = self.samples[i];
            out.push((x & 0xFF) as u8);
            out.push(((x >> 8u32) & 0xFF) as u8);
            out.push(((x >> 16u32) & 0xFF) as u8);
            out.push(((x >> 24u32) & 0xFF) as u8);
            proof {
                let n = i as int;
                assert((4 * n) / 4 == n && (4 * n) % 4 == 0 && (4 * n + 1) / 4 == n && (4 * n + 1)
                    % 4 == 1 && (4 * n + 2) / 4 == n && (4 * n + 2) % 4 == 2 && (4 * n + 3) / 4
                    == n && (4 * n + 3) % 4 == 3) by (nonlinear_arith)
                    requires
                        n >= 0,
                ;
            }
            i = i + 1;
        }
        assert(out@ =~= r32_texture_bytes(self.samples@));
        out
    }
}

/// Determinism law: heightmap generation is a pure function of the
/// configuration — heightmaps generated from configurations with identical
/// fields hold identical samples and identical texture bytes.
pub proof fn lemma_generation_deterministic(
    a: TerrainConfig,
    b: TerrainConfig,
    ha: Heightmap,
    hb: Heightmap,
)
    requires
        a == b,
        ha.samples@ == heightmap_samples_spec(a),
        hb.samples@ == heightmap_samples_spec(b),
    ensures
        ha.samples@ == hb.samples@,
        r32_texture_bytes(ha.samples@) == r32_texture_bytes(hb.samples@),
{
}

/// Determinism law, byte encoding: byte heightmaps generated from
/// descriptors with identical fields hold identical samples.
pub proof fn lemma_byte_generation_deterministic(
    a: Terrain,
    b: Terrain,
    ha: ByteHeightmap,
    hb: ByteHeightmap,
)
    requires
        a == b,
        ha.samples@ == byte_samples_spec(a),
        hb.samples@ == byte_samples_spec(b),
    ensures
        ha.samples@ == hb.samples@,
{
}

} // verus!
