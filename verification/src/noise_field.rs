//! The fractal-noise field behind the heightmap generator.
//!
//! The two trusted functions here sample fractal Brownian motion over
//! gradient noise on a square grid and hand the samples back as plain values:
//! double-precision bit patterns for the unit-interval encoding, bytes for
//! the display encoding.  On the admitted parameters both results are pure
//! functions of their arguments, so each is given an uninterpreted name that
//! the rest of the crate reasons with.  Continuous parameters arrive as counts of millionths and become
//! doubles through the standard duration type: a duration of that many
//! microseconds, read back in seconds — whole seconds exactly, the fraction
//! correctly rounded.

use vstd::prelude::*;
use noise::utils::{NoiseMapBuilder, PlaneMapBuilder};
use noise::{Fbm, MultiFractal, Perlin};
use std::time::Duration;

verus! {

use crate::config::{MAX_GRID_SIZE, MAX_NOISE_SEED, UNIT_PERSISTENCE_MICROS};

/// The unit-encoded fractal-noise field: the double-precision bit patterns
/// of `(v + 1) / 2` for each of the `size * size` raw samples `v` (row-major)
/// that fractal Brownian motion takes on the regular grid covering
/// `[0, extent]` on both axes, for the given seed and fractal parameters.
pub uninterp spec fn fbm_unit_field(
    seed: u32,
    octaves: u32,
    frequency_micros: u32,
    persistence_micros: u32,
    size: u32,
    extent_micros: u32,
) -> Seq<u64>;

/// The byte-encoded fractal-noise field: `floor(v * 255)` saturated into a
/// byte, for each of the `size * size` raw samples `v` of the same fractal
/// field as `fbm_unit_field`.
pub uninterp spec fn fbm_byte_field(
    seed: u32,
    octaves: u32,
    frequency_micros: u32,
    persistence_micros: u32,
    size: u32,
    extent_micros: u32,
) -> Seq<u8>;

/// Relies on `noise`'s `Fbm<Perlin>` sampled through `PlaneMapBuilder`, and
/// on `Duration::from_micros` / `Duration::as_secs_f64` to turn each
/// micro-count into its double value: the built map holds exactly
/// `size * size` samples in row-major order, and the sampling is a
/// deterministic function of the seed, the fractal parameters and the grid,
/// so the remapped samples' bit patterns are `fbm_unit_field` of the
/// arguments.  The raster refuses edges above `MAX_GRID_SIZE`; the
/// generator reseeds each octave's source by the octave index (at most 31),
/// so seeds above `MAX_NOISE_SEED` would overflow and are excluded; and a
/// persistence of exactly one is excluded because the generator's amplitude
/// normalizer is zero there, lattice-aligned samples become zero over zero
/// — a NaN whose bit pattern no platform fixes — and the bit-level claim
/// below would not hold of it.  The remap `(v + 1) / 2` happens here, in
/// double precision, before `to_bits`.
#[verifier::external_body]
pub(crate) fn fbm_plane_unit(
    seed: u32,
    octaves: u32,
    frequency_micros: u32,
    persistence_micros: u32,
    size: u32,
    extent_micros: u32,
) -> (r: Vec<u64>)
    requires
        1 <= size <= MAX_GRID_SIZE,
        seed <= MAX_NOISE_SEED,
        persistence_micros != UNIT_PERSISTENCE_MICROS,
    ensures
        r@.len() == size * size,
        r@ == fbm_unit_field(
            seed,
            octaves,
            frequency_micros,
            persistence_micros,
            size,
            extent_micros,
        ),
{
    let fbm: Fbm<Perlin> = Fbm::new(seed).set_octaves(octaves as usize).set_persistence(
        Duration::from_micros(persistence_micros as u64).as_secs_f64(),
    ).set_frequency(Duration::from_micros(frequency_micros as u64).as_secs_f64());
    let upper = Duration::from_micros(extent_micros as u64).as_secs_f64();
    let one = Duration::from_secs(1).as_secs_f64();
    let map = PlaneMapBuilder::<Fbm<Perlin>, 2>::new(fbm).set_size(size as usize, size as usize)
        .set_x_bounds(upper - upper, upper).set_y_bounds(upper - upper, upper).build();
    map.iter().map(|v| ((*v + one) / (one + one)).to_bits()).collect()
}

/// Relies on the same `Fbm<Perlin>` sampling and duration-based parameter
/// conversion as `fbm_plane_unit` — with the same grid-edge, seed and
/// persistence limits — and on the saturating float-to-integer cast: each
/// raw sample is scaled by 255, rounded down and saturated into a byte, so
/// the result is `fbm_byte_field` of the arguments.
#[verifier::external_body]
pub(crate) fn fbm_plane_bytes(
    seed: u32,
    octaves: u32,
    frequency_micros: u32,
    persistence_micros: u32,
    size: u32,
    extent_micros: u32,
) -> (r: Vec<u8>)
    requires
        1 <= size <= MAX_GRID_SIZE,
        seed <= MAX_NOISE_SEED,
        persistence_micros != UNIT_PERSISTENCE_MICROS,
    ensures
        r@.len() == size * size,
        r@ == fbm_byte_field(
            seed,
            octaves,
            frequency_micros,
            persistence_micros,
            size,
            extent_micros,
        ),
{
    let fbm: Fbm<Perlin> = Fbm::new(seed).set_octaves(octaves as usize).set_persistence(
        Duration::from_micros(persistence_micros as u64).as_secs_f64(),
    ).set_frequency(Duration::from_micros(frequency_micros as u64).as_secs_f64());
    let upper = Duration::from_micros(extent_micros as u64).as_secs_f64();
    let scale = Duration::from_secs(255).as_secs_f64();
    let map = PlaneMapBuilder::<Fbm<Perlin>, 2>::new(fbm).set_size(size as usize, size as usize)
        .set_x_bounds(upper - upper, upper).set_y_bounds(upper - upper, upper).build();
    map.iter().map(|v| (*v * scale).floor() as u8).collect()
}

} // verus!
