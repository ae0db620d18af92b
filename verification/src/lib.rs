//! Deterministic voxel terrain generation: the integer core.
//!
//! The crate holds the discrete half of a layered-noise terrain generator.
//!
//! - [`noise`]: the seeded hash, the lattice keys and gradients that drive
//!   the coherent noise, and the seed of each octave of a fractal sum.
//! - [`scalar`]: single-precision numbers as bit patterns, with their
//!   numeric order.
//! - [`config`]: the configuration value and its stock setting.
//! - [`generators`]: the seed of each noise layer, the interface of a
//!   density source, and the voxelizer that turns a density field into the
//!   material ids of one padded chunk.
//! - [`mask`]: the column occupancy masks of a voxel buffer.
//!
//! Real arithmetic (interpolating the gradients, summing octaves, combining
//! the layers into a density) is left to the caller, who implements
//! [`generators::Generator`] with it.

use vstd::prelude::*;

pub mod config;
pub mod generators;
pub mod mask;
pub mod noise;
pub mod scalar;

verus! {

/// The edge length of a chunk, in voxels.
pub const CS: usize = 62;

/// The edge length of a chunk with its halo of one voxel on each side.
pub const CS_P: usize = 64;

/// The number of voxels in a chunk with its halo.
pub const CS_P3: usize = 262144;

} // verus!
