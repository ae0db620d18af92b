use mapgen::config::{MapGenConfig, MaterialThresholds};
use mapgen::generators::{
    classify_voxel, generate_chunk_voxels, layer_seed, material_for_height, voxel_index,
    ChunkPos, Generator, Layer, AIR, DIRT, GRASS, MAX_CHUNK_COORD, MIN_CHUNK_COORD, STONE,
};
use mapgen::noise::lattice_hash;
use mapgen::scalar::Scalar;
use mapgen::{CS, CS_P, CS_P3};

fn s(v: f32) -> Scalar {
    Scalar::from_bits(v.to_bits())
}

fn config(stone_max: i32, grass_max: i32, threshold: f32) -> MapGenConfig {
    let mut c = MapGenConfig::default();
    c.material_thresholds = MaterialThresholds { stone_max, grass_max };
    c.density_threshold = s(threshold);
    c
}

/// Density falls by one per unit of height and is zero at `level`.
struct Slope {
    cfg: MapGenConfig,
    level: i32,
}

impl Generator for Slope {
    // The two ghost methods exist for the verifier alone and are never called.
    fn density_spec(&self, _wx: i32, _wy: i32, _wz: i32) -> Scalar {
        unreachable!()
    }

    fn config_spec(&self) -> MapGenConfig {
        unreachable!()
    }

    fn generate_density(&self, _wx: i32, wy: i32, _wz: i32) -> Scalar {
        s((i64::from(self.level) - i64::from(wy)) as f32)
    }

    fn config(&self) -> &MapGenConfig {
        &self.cfg
    }
}

/// Density scattered over [-1, 1) by the lattice hash.
struct Speckle {
    cfg: MapGenConfig,
}

impl Generator for Speckle {
    fn density_spec(&self, _wx: i32, _wy: i32, _wz: i32) -> Scalar {
        unreachable!()
    }

    fn config_spec(&self) -> MapGenConfig {
        unreachable!()
    }

    fn generate_density(&self, wx: i32, wy: i32, wz: i32) -> Scalar {
        let h = lattice_hash(wx, wy, wz, self.cfg.seed) % 2000;
        s(h as f32 / 1000.0 - 1.0)
    }

    fn config(&self) -> &MapGenConfig {
        &self.cfg
    }
}

#[test]
fn chunk_constants() {
    assert_eq!(CS, 62);
    assert_eq!(CS_P, CS + 2);
    assert_eq!(CS_P3, CS_P * CS_P * CS_P);
}

#[test]
fn material_ids() {
    assert_eq!(AIR, 0);
    assert_eq!(STONE, 1);
    assert_eq!(DIRT, 2);
    assert_eq!(GRASS, 3);
}

#[test]
fn layer_seed_known_values() {
    assert_eq!(layer_seed(42, Layer::Continentalness), 53);
    assert_eq!(layer_seed(42, Layer::Erosion), 65);
    assert_eq!(layer_seed(42, Layer::PeaksValleys), 79);
    assert_eq!(layer_seed(0xFFFF_FFF0, Layer::PeaksValleys), 21);
    assert_eq!(layer_seed(u32::MAX, Layer::Continentalness), 10);
}

#[test]
fn material_bands() {
    let bands = MaterialThresholds { stone_max: 32, grass_max: 64 };
    assert_eq!(material_for_height(i32::MIN, &bands), STONE);
    assert_eq!(material_for_height(-1, &bands), STONE);
    assert_eq!(material_for_height(31, &bands), STONE);
    assert_eq!(material_for_height(32, &bands), GRASS);
    assert_eq!(material_for_height(63, &bands), GRASS);
    assert_eq!(material_for_height(64, &bands), DIRT);
    assert_eq!(material_for_height(i32::MAX, &bands), DIRT);
}

#[test]
fn material_bands_out_of_order() {
    let bands = MaterialThresholds { stone_max: 10, grass_max: 5 };
    assert_eq!(material_for_height(4, &bands), STONE);
    assert_eq!(material_for_height(9, &bands), STONE);
    assert_eq!(material_for_height(10, &bands), DIRT);
}

#[test]
fn classify_thresholds_strictly() {
    let bands = MaterialThresholds { stone_max: 32, grass_max: 64 };
    assert_eq!(classify_voxel(s(0.5), s(-0.2), 0, &bands), STONE);
    assert_eq!(classify_voxel(s(-0.2), s(-0.2), 0, &bands), AIR);
    assert_eq!(classify_voxel(s(-0.3), s(-0.2), 0, &bands), AIR);
    assert_eq!(classify_voxel(s(-0.19999), s(-0.2), 40, &bands), GRASS);
    assert_eq!(classify_voxel(s(100.0), s(-0.2), 64, &bands), DIRT);
    assert_eq!(classify_voxel(s(0.0), s(-0.0), 64, &bands), AIR);
}

#[test]
fn classify_rejects_not_a_number() {
    let bands = MaterialThresholds { stone_max: 32, grass_max: 64 };
    assert_eq!(classify_voxel(s(f32::NAN), s(-0.2), 0, &bands), AIR);
    assert_eq!(classify_voxel(s(1.0), s(f32::NAN), 0, &bands), AIR);
    assert_eq!(classify_voxel(s(f32::INFINITY), s(f32::MAX), 0, &bands), STONE);
}

#[test]
fn material_ignores_density_size() {
    let bands = MaterialThresholds { stone_max: 32, grass_max: 64 };
    for h in [-100, 0, 31, 32, 50, 63, 64, 1000] {
        let want = material_for_height(h, &bands);
        for d in [-0.1f32, 0.0, 0.3, 7.0, 1.0e30] {
            assert_eq!(classify_voxel(s(d), s(-0.2), h, &bands), want);
        }
    }
}

#[test]
fn voxel_index_layout() {
    assert_eq!(voxel_index(0, 0, 0), 0);
    assert_eq!(voxel_index(1, 0, 0), 1);
    assert_eq!(voxel_index(0, 1, 0), 64);
    assert_eq!(voxel_index(0, 0, 1), 4096);
    assert_eq!(voxel_index(1, 2, 3), 3 * 4096 + 2 * 64 + 1);
    assert_eq!(voxel_index(63, 63, 63), CS_P3 - 1);
}

#[test]
fn chunk_origin_scales_by_chunk_size() {
    assert_eq!(ChunkPos::new(0, 0, 0).origin(), (0, 0, 0));
    assert_eq!(ChunkPos::new(1, -2, 3).origin(), (62, -124, 186));
    assert_eq!(ChunkPos::new(5, 5, 5).origin(), (310, 310, 310));
    assert_eq!(
        ChunkPos::new(MAX_CHUNK_COORD, MIN_CHUNK_COORD, 0).origin(),
        (2147483584, -2147483646, 0)
    );
}

#[test]
fn chunk_bounds() {
    assert!(ChunkPos::new(0, 0, 0).check_bounds());
    assert!(ChunkPos::new(MAX_CHUNK_COORD, MIN_CHUNK_COORD, MAX_CHUNK_COORD).check_bounds());
    assert!(!ChunkPos::new(MAX_CHUNK_COORD + 1, 0, 0).check_bounds());
    assert!(!ChunkPos::new(0, MIN_CHUNK_COORD - 1, 0).check_bounds());
    assert!(!ChunkPos::new(0, 0, i32::MAX).check_bounds());
    assert!(i64::from(MAX_CHUNK_COORD) * 62 + 62 <= i64::from(i32::MAX));
    assert!(i64::from(MAX_CHUNK_COORD + 1) * 62 + 62 > i64::from(i32::MAX));
    assert!(i64::from(MIN_CHUNK_COORD) * 62 - 1 >= i64::from(i32::MIN));
    assert!(i64::from(MIN_CHUNK_COORD - 1) * 62 - 1 < i64::from(i32::MIN));
}

#[test]
fn slope_chunk_is_layered_by_height() {
    let g = Slope { cfg: config(3, 7, 0.0), level: 10 };
    let (voxels, solid) = generate_chunk_voxels(ChunkPos::new(0, 0, 0), &g);
    assert_eq!(voxels.len(), CS_P3);
    // World heights -1 ..= 62; solid where 10 - y > 0, that is y in -1 ..= 9.
    assert_eq!(solid, 11 * CS_P * CS_P);
    for lz in 0..CS_P {
        for ly in 0..CS_P {
            for lx in 0..CS_P {
                let y = ly as i32 - 1;
                let want = if y >= 10 {
                    AIR
                } else if y < 3 {
                    STONE
                } else if y < 7 {
                    GRASS
                } else {
                    DIRT
                };
                assert_eq!(voxels[voxel_index(lx, ly, lz)], want);
            }
        }
    }
}

#[test]
fn slope_chunk_above_and_below_the_surface() {
    let g = Slope { cfg: config(3, 7, 0.0), level: 10 };
    let (above, solid_above) = generate_chunk_voxels(ChunkPos::new(0, 1, 0), &g);
    assert_eq!(solid_above, 0);
    assert!(above.iter().all(|&v| v == AIR));
    let (below, solid_below) = generate_chunk_voxels(ChunkPos::new(3, -1, -4), &g);
    assert_eq!(solid_below, CS_P3);
    assert!(below.iter().all(|&v| v == STONE));
}

#[test]
fn solid_count_counts_the_solid_voxels() {
    let g = Speckle { cfg: config(0, 20, 0.25) };
    let (voxels, solid) = generate_chunk_voxels(ChunkPos::new(-2, 0, 7), &g);
    assert_eq!(solid, voxels.iter().filter(|&&v| v != AIR).count());
    assert!(solid > 0 && solid < CS_P3);
}

#[test]
fn voxels_sample_the_world_coordinate_of_each_lattice_point() {
    let g = Speckle { cfg: config(0, 20, 0.25) };
    let pos = ChunkPos::new(2, -1, 3);
    let (voxels, _) = generate_chunk_voxels(pos, &g);
    let (ox, oy, oz) = pos.origin();
    for (lx, ly, lz) in [(0, 0, 0), (1, 1, 1), (63, 0, 5), (17, 63, 42), (63, 63, 63)] {
        let wx = ox + lx as i32 - 1;
        let wy = oy + ly as i32 - 1;
        let wz = oz + lz as i32 - 1;
        let want = classify_voxel(
            g.generate_density(wx, wy, wz),
            g.cfg.density_threshold,
            wy,
            &g.cfg.material_thresholds,
        );
        assert_eq!(voxels[voxel_index(lx, ly, lz)], want);
    }
}

fn assert_halo_matches(step: (i32, i32, i32)) {
    let g = Speckle { cfg: config(0, 20, 0.1) };
    let pos = ChunkPos::new(1, -1, 2);
    let next = ChunkPos::new(pos.x + step.0, pos.y + step.1, pos.z + step.2);
    let (here, _) = generate_chunk_voxels(pos, &g);
    let (there, _) = generate_chunk_voxels(next, &g);
    let shift = |l: usize, d: i32| l + CS * d as usize;
    for a in 0..CS_P {
        for b in 0..CS_P {
            for edge in 0..2usize {
                // `edge` runs along the axis of the step, `a` and `b` across it.
                let (lx, ly, lz) = if step.0 == 1 {
                    (edge, a, b)
                } else if step.1 == 1 {
                    (a, edge, b)
                } else {
                    (a, b, edge)
                };
                let near = there[voxel_index(lx, ly, lz)];
                let far = here[voxel_index(shift(lx, step.0), shift(ly, step.1), shift(lz, step.2))];
                assert_eq!(near, far);
            }
        }
    }
}

#[test]
fn halo_matches_neighbour_along_x() {
    assert_halo_matches((1, 0, 0));
}

#[test]
fn halo_matches_neighbour_along_y() {
    assert_halo_matches((0, 1, 0));
}

#[test]
fn halo_matches_neighbour_along_z() {
    assert_halo_matches((0, 0, 1));
}

#[test]
fn raising_the_threshold_only_removes_voxels() {
    let low = Speckle { cfg: config(0, 20, -0.3) };
    let high = Speckle { cfg: config(0, 20, 0.4) };
    let pos = ChunkPos::new(0, 0, 0);
    let (a, solid_low) = generate_chunk_voxels(pos, &low);
    let (b, solid_high) = generate_chunk_voxels(pos, &high);
    assert!(solid_high < solid_low);
    for i in 0..CS_P3 {
        if b[i] != AIR {
            assert_eq!(a[i], b[i]);
        }
    }
}

#[test]
fn material_follows_height_alone() {
    let g = Speckle { cfg: config(5, 30, 0.0) };
    let pos = ChunkPos::new(0, 0, 0);
    let (voxels, _) = generate_chunk_voxels(pos, &g);
    for lz in 0..CS_P {
        for ly in 0..CS_P {
            let want = material_for_height(ly as i32 - 1, &g.cfg.material_thresholds);
            for lx in 0..CS_P {
                let v = voxels[voxel_index(lx, ly, lz)];
                assert!(v == AIR || v == want);
            }
        }
    }
}

#[test]
fn generation_is_repeatable() {
    let g = Speckle { cfg: config(0, 20, 0.0) };
    let pos = ChunkPos::new(4, 4, -4);
    assert_eq!(generate_chunk_voxels(pos, &g), generate_chunk_voxels(pos, &g));
}

#[test]
fn opaque_mask_has_a_bit_for_each_solid_voxel() {
    let g = Speckle { cfg: config(0, 20, 0.3) };
    let (voxels, solid) = generate_chunk_voxels(ChunkPos::new(1, 0, -1), &g);
    let mask = mapgen::mask::build_opaque_mask(&voxels);
    assert_eq!(mask.len(), CS_P * CS_P);
    let mut bits = 0usize;
    for ly in 0..CS_P {
        for lx in 0..CS_P {
            let word = mask[ly * CS_P + lx];
            bits += word.count_ones() as usize;
            for lz in 0..CS_P {
                let solid_here = voxels[voxel_index(lx, ly, lz)] != AIR;
                assert_eq!((word >> lz) & 1 == 1, solid_here);
            }
        }
    }
    assert_eq!(bits, solid);
}

#[test]
fn opaque_mask_of_a_slope() {
    let g = Slope { cfg: config(3, 7, 0.0), level: 10 };
    let (voxels, _) = generate_chunk_voxels(ChunkPos::new(0, 0, 0), &g);
    let mask = mapgen::mask::build_opaque_mask(&voxels);
    for ly in 0..CS_P {
        for lx in 0..CS_P {
            let want = if (ly as i32) - 1 < 10 { u64::MAX } else { 0 };
            assert_eq!(mask[ly * CS_P + lx], want);
        }
    }
}

#[test]
fn opaque_mask_of_single_voxels() {
    let mut voxels = vec![AIR; CS_P3];
    voxels[voxel_index(5, 9, 0)] = STONE;
    voxels[voxel_index(5, 9, 63)] = DIRT;
    voxels[voxel_index(0, 0, 17)] = GRASS;
    let mask = mapgen::mask::build_opaque_mask(&voxels);
    for (i, &word) in mask.iter().enumerate() {
        let want = if i == 9 * CS_P + 5 {
            1u64 | (1u64 << 63)
        } else if i == 0 {
            1u64 << 17
        } else {
            0
        };
        assert_eq!(word, want);
    }
}

#[test]
fn layer_seeds_differ_between_layers() {
    for seed in [0u32, 42, 0xFFFF_FFF0, u32::MAX] {
        let c = layer_seed(seed, Layer::Continentalness);
        let e = layer_seed(seed, Layer::Erosion);
        let p = layer_seed(seed, Layer::PeaksValleys);
        assert!(c != e && e != p && c != p);
    }
}

#[test]
fn seed_changes_every_corner_hash() {
    for layer in [Layer::Continentalness, Layer::Erosion, Layer::PeaksValleys] {
        for octave in 0..5u32 {
            let a = mapgen::noise::octave_seed(layer_seed(42, layer), octave);
            let b = mapgen::noise::octave_seed(layer_seed(43, layer), octave);
            for (x, y, z) in [(0, 0, 0), (1, -1, 7), (-300, 12, 5), (i32::MAX, i32::MIN, 0)] {
                assert_ne!(lattice_hash(x, y, z, a), lattice_hash(x, y, z, b));
            }
        }
    }
}

/// The slope again, written another way.
struct Ramp {
    cfg: MapGenConfig,
}

impl Generator for Ramp {
    fn density_spec(&self, _wx: i32, _wy: i32, _wz: i32) -> Scalar {
        unreachable!()
    }

    fn config_spec(&self) -> MapGenConfig {
        unreachable!()
    }

    fn generate_density(&self, _wx: i32, wy: i32, _wz: i32) -> Scalar {
        s(10.0 - wy as f32)
    }

    fn config(&self) -> &MapGenConfig {
        &self.cfg
    }
}

#[test]
fn generators_with_one_field_give_one_buffer() {
    let a = Slope { cfg: config(3, 7, 0.0), level: 10 };
    let mut cfg = config(3, 7, 0.0);
    cfg.seed = 7;
    cfg.name = "ramp".to_string();
    let b = Ramp { cfg };
    for pos in [ChunkPos::new(0, 0, 0), ChunkPos::new(-3, 1, 2)] {
        assert_eq!(generate_chunk_voxels(pos, &a), generate_chunk_voxels(pos, &b));
    }
}

#[test]
fn chunks_at_the_edge_of_the_world() {
    let g = Slope { cfg: config(3, 7, 0.0), level: 10 };
    let high = ChunkPos::new(MAX_CHUNK_COORD, MAX_CHUNK_COORD, MAX_CHUNK_COORD);
    let (voxels, solid) = generate_chunk_voxels(high, &g);
    assert_eq!(voxels.len(), CS_P3);
    assert_eq!(solid, 0);
    let low = ChunkPos::new(MIN_CHUNK_COORD, MIN_CHUNK_COORD, MIN_CHUNK_COORD);
    let (voxels, solid) = generate_chunk_voxels(low, &g);
    assert_eq!(solid, CS_P3);
    assert!(voxels.iter().all(|&v| v == STONE));
}

#[test]
fn solid_count_never_exceeds_the_buffer() {
    for threshold in [-2.0f32, -0.5, 0.0, 0.5, 2.0] {
        let g = Speckle { cfg: config(0, 20, threshold) };
        let (voxels, solid) = generate_chunk_voxels(ChunkPos::new(0, 0, 0), &g);
        assert!(solid <= voxels.len());
    }
    let none = Speckle { cfg: config(0, 20, 2.0) };
    assert_eq!(generate_chunk_voxels(ChunkPos::new(0, 0, 0), &none).1, 0);
    let all = Speckle { cfg: config(0, 20, -2.0) };
    assert_eq!(generate_chunk_voxels(ChunkPos::new(0, 0, 0), &all).1, CS_P3);
}
