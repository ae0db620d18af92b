//! The configuration of a terrain generator.
//!
//! A configuration is a plain value: a seed, three noise layers, the weights
//! that combine them, the vertical bias window, the height bands of the
//! materials and the density threshold. Real-valued settings are held as
//! [`Scalar`]s.

use crate::scalar::{lemma_ordinal_orders_values, Scalar};
use vstd::prelude::*;

verus! {

/// The settings of one fractal noise layer.
#[derive(Debug, Clone, Copy)]
pub struct NoiseLayer {
    /// World units per noise period; positions are divided by it.
    pub scale: Scalar,
    /// Number of octaves summed.
    pub octaves: u32,
    /// Frequency multiplier from one octave to the next.
    pub lacunarity: Scalar,
    /// Amplitude multiplier from one octave to the next.
    pub gain: Scalar,
}

/// The multipliers of the three layers in the density sum.
#[derive(Debug, Clone, Copy)]
pub struct Weights {
    pub continentalness: Scalar,
    pub peaks_valleys: Scalar,
    pub erosion: Scalar,
}

/// The vertical bias: its gain and the height window it is normalised over.
#[derive(Debug, Clone, Copy)]
pub struct VerticalConfig {
    pub bias: Scalar,
    pub min_y: Scalar,
    pub max_y: Scalar,
}

/// The world heights that bound the material bands.
#[derive(Debug, Clone, Copy)]
pub struct MaterialThresholds {
    /// Solid voxels below this height are stone.
    pub stone_max: i32,
    /// Solid voxels below this height, and not stone, are grass.
    pub grass_max: i32,
}

/// Everything that determines the terrain.
#[derive(Debug, Clone)]
pub struct MapGenConfig {
    pub name: String,
    pub description: String,
    pub seed: u32,
    pub continentalness: NoiseLayer,
    pub erosion: NoiseLayer,
    pub peaks_valleys: NoiseLayer,
    pub weights: Weights,
    pub vertical: VerticalConfig,
    pub material_thresholds: MaterialThresholds,
    /// Voxels whose density is greater than this are solid.
    pub density_threshold: Scalar,
}

impl NoiseLayer {
    /// A layer is well formed when its scale is a positive number and it has
    /// at least one octave.
    pub open spec fn well_formed(self) -> bool {
        &&& self.scale.gt_spec(Scalar { bits: 0 })
        &&& self.octaves >= 1
    }
}

impl VerticalConfig {
    /// The window is well formed when it is not empty: `min_y` lies below
    /// `max_y`.
    pub open spec fn well_formed(self) -> bool {
        self.min_y.lt_spec(self.max_y)
    }
}

impl MaterialThresholds {
    /// The bands are layered when stone ends below the end of grass, so
    /// that each of the three materials has heights of its own.
    pub open spec fn layered(self) -> bool {
        self.stone_max < self.grass_max
    }
}

impl MapGenConfig {
    /// A configuration is well formed when its three layers and its vertical
    /// window are.
    pub open spec fn well_formed(self) -> bool {
        &&& self.continentalness.well_formed()
        &&& self.erosion.well_formed()
        &&& self.peaks_valleys.well_formed()
        &&& self.vertical.well_formed()
    }
}

impl Default for MapGenConfig {
    /// The stock configuration: seed 42, layers of scale 3, 8 and 18 with 5,
    /// 4 and 5 octaves, lacunarity 2 and gain 0.5 throughout, weights 0.9, 1
    /// and 0.35, a vertical bias of 1.8 over the heights -128 to 128, stone
    /// below 32, grass below 64, and a density threshold of -0.2.
    fn default() -> (c: MapGenConfig)
        ensures
            c.name@ == "Default Multi-Noise"@,
            c.description@ == "Default stacked noise terrain generation"@,
            c.seed == 42,
            c.continentalness.scale.bits == 0x4040_0000,
            c.continentalness.octaves == 5,
            c.continentalness.lacunarity.bits == 0x4000_0000,
            c.continentalness.gain.bits == 0x3F00_0000,
            c.erosion.scale.bits == 0x4100_0000,
            c.erosion.octaves == 4,
            c.erosion.lacunarity.bits == 0x4000_0000,
            c.erosion.gain.bits == 0x3F00_0000,
            c.peaks_valleys.scale.bits == 0x4190_0000,
            c.peaks_valleys.octaves == 5,
            c.peaks_valleys.lacunarity.bits == 0x4000_0000,
            c.peaks_valleys.gain.bits == 0x3F00_0000,
            c.weights.continentalness.bits == 0x3F66_6666,
            c.weights.peaks_valleys.bits == 0x3F80_0000,
            c.weights.erosion.bits == 0x3EB3_3333,
            c.vertical.bias.bits == 0x3FE6_6666,
            c.vertical.min_y.bits == 0xC300_0000,
            c.vertical.max_y.bits == 0x4300_0000,
            c.material_thresholds.stone_max == 32,
            c.material_thresholds.grass_max == 64,
            c.density_threshold.bits == 0xBE4C_CCCD,
            c.well_formed(),
            c.material_thresholds.layered(),
    {
        let two = Scalar::from_bits(0x4000_0000);
        let half = Scalar::from_bits(0x3F00_0000);
        let c = MapGenConfig {
            name: "Default Multi-Noise".to_owned(),
            description: "Default stacked noise terrain generation".to_owned(),
            seed: 42,
            continentalness: NoiseLayer {
                scale: Scalar::from_bits(0x4040_0000),
                octaves: 5,
                lacunarity: two,
                gain: half,
            },
            erosion: NoiseLayer {
                scale: Scalar::from_bits(0x4100_0000),
                octaves: 4,
                lacunarity: two,
                gain: half,
            },
            peaks_valleys: NoiseLayer {
                scale: Scalar::from_bits(0x4190_0000),
                octaves: 5,
                lacunarity: two,
                gain: half,
            },
            weights: Weights {
                continentalness: Scalar::from_bits(0x3F66_6666),
                peaks_valleys: Scalar::from_bits(0x3F80_0000),
                erosion: Scalar::from_bits(0x3EB3_3333),
            },
            vertical: VerticalConfig {
                bias: Scalar::from_bits(0x3FE6_6666),
                min_y: Scalar::from_bits(0xC300_0000),
                max_y: Scalar::from_bits(0x4300_0000),
            },
            material_thresholds: MaterialThresholds { stone_max: 32, grass_max: 64 },
            density_threshold: Scalar::from_bits(0xBE4C_CCCD),
        };
        proof {
            let zero = Scalar { bits: 0 };
            lemma_ordinal_orders_values(zero, c.continentalness.scale);
            lemma_ordinal_orders_values(zero, c.erosion.scale);
            lemma_ordinal_orders_values(zero, c.peaks_valleys.scale);
            lemma_ordinal_orders_values(c.vertical.min_y, c.vertical.max_y);
        }
        c
    }
}

} // verus!
