//! Density sources and the chunk voxelizer.
//!
//! A [`Generator`] assigns a density to every point of the integer world
//! lattice. The voxelizer samples it over one chunk and its halo, marks as
//! solid each voxel whose density is greater than the configured threshold,
//! and gives every solid voxel the material of its height band.

use crate::config::{MapGenConfig, MaterialThresholds};
use crate::noise::{
    hash_u32_spec, lattice_hash_spec, lattice_key_spec, lemma_hash_injective,
    lemma_octave_seed_injective, mod32, octave_seed_spec,
};
use crate::scalar::Scalar;
use crate::{CS, CS_P, CS_P3};
use vstd::prelude::*;

verus! {

/// The material id of an empty voxel.
pub const AIR: u8 = 0;

/// The material id of stone.
pub const STONE: u8 = 1;

/// The material id of dirt.
pub const DIRT: u8 = 2;

/// The material id of grass.
pub const GRASS: u8 = 3;

/// The three noise layers of the density model.
#[derive(Clone, Copy, Debug, PartialEq, Eq, Structural)]
pub enum Layer {
    Continentalness,
    Erosion,
    PeaksValleys,
}

/// The amount by which a layer's seed lies above the configured seed.
pub open spec fn layer_offset(layer: Layer) -> u32 {
    match layer {
        Layer::Continentalness => 11,
        Layer::Erosion => 23,
        Layer::PeaksValleys => 37,
    }
}

/// The seed of a layer: the configured seed plus the layer's offset, modulo
/// 2^32.
pub open spec fn layer_seed_spec(seed: u32, layer: Layer) -> u32 {
    mod32(seed + layer_offset(layer))
}

/// Derives the seed of a noise layer from the configured seed.
pub fn layer_seed(seed: u32, layer: Layer) -> (s: u32)
    ensures
        s == layer_seed_spec(seed, layer),
{
    let offset: u32 = match layer {
        Layer::Continentalness => 11,
        Layer::Erosion => 23,
        Layer::PeaksValleys => 37,
    };
    seed.wrapping_add(offset)
}

/// Under one configured seed, different layers get different seeds.
pub proof fn lemma_layer_seeds_distinct(seed: u32, a: Layer, b: Layer)
    requires
        a != b,
    ensures
        layer_seed_spec(seed, a) != layer_seed_spec(seed, b),
{
}

/// A layer's seed follows the configured seed: two different configured
/// seeds give a layer two different seeds.
pub proof fn lemma_layer_seed_injective(seed1: u32, seed2: u32, layer: Layer)
    requires
        seed1 != seed2,
    ensures
        layer_seed_spec(seed1, layer) != layer_seed_spec(seed2, layer),
{
}

/// Seed sensitivity of the lattice. Changing the configured seed changes
/// the hash of every lattice point in every octave of every layer, so no
/// part of the noise ignores the seed.
pub proof fn lemma_seed_reaches_every_hash(
    seed1: u32,
    seed2: u32,
    layer: Layer,
    octave: u32,
    ix: int,
    iy: int,
    iz: int,
)
    requires
        seed1 != seed2,
    ensures
        lattice_hash_spec(ix, iy, iz, octave_seed_spec(layer_seed_spec(seed1, layer), octave))
            != lattice_hash_spec(
            ix,
            iy,
            iz,
            octave_seed_spec(layer_seed_spec(seed2, layer), octave),
        ),
{
    let s1 = layer_seed_spec(seed1, layer);
    let s2 = layer_seed_spec(seed2, layer);
    lemma_layer_seed_injective(seed1, seed2, layer);
    lemma_octave_seed_injective(s1, s2, octave);
    let o1 = octave_seed_spec(s1, octave);
    let o2 = octave_seed_spec(s2, octave);
    let key = lattice_key_spec(ix, iy, iz);
    if hash_u32_spec(key, o1) == hash_u32_spec(key, o2) {
        lemma_hash_injective(key, o1, key, o2);
    }
}

/// The position of a chunk in the grid of chunks.
#[derive(Clone, Copy, Debug, PartialEq, Eq, Structural)]
pub struct ChunkPos {
    pub x: i32,
    pub y: i32,
    pub z: i32,
}

/// The world coordinate, along one axis, of local lattice index `local` in
/// the chunk at `chunk`. Local index 0 is the halo voxel just before the
/// chunk's first own voxel.
pub open spec fn world_coord(chunk: int, local: int) -> int {
    chunk * CS + local - 1
}

/// Whether every lattice coordinate of the chunk at `chunk`, halo included,
/// fits in an `i32`.
pub open spec fn axis_in_bounds(chunk: int) -> bool {
    i32::MIN <= world_coord(chunk, 0) && world_coord(chunk, CS_P - 1) <= i32::MAX
}

/// The lowest chunk coordinate whose lattice fits in an `i32`.
pub const MIN_CHUNK_COORD: i32 = -34636833;

/// The highest chunk coordinate whose lattice fits in an `i32`.
pub const MAX_CHUNK_COORD: i32 = 34636832;

/// The componentwise product of an integer vector and an integer.
///
/// Calls `<glam::IVec3 as Mul<i32>>::mul`, which multiplies each component by
/// the factor with `i32::mul`. The factors are restricted to those whose
/// products fit, for which that multiplication is exact.
#[verifier::external_body]
fn scale_components(x: i32, y: i32, z: i32, factor: i32) -> (r: (i32, i32, i32))
    requires
        i32::MIN <= x * factor <= i32::MAX,
        i32::MIN <= y * factor <= i32::MAX,
        i32::MIN <= z * factor <= i32::MAX,
    ensures
        r.0 == x * factor,
        r.1 == y * factor,
        r.2 == z * factor,
{
    let v = glam::IVec3::new(x, y, z) * factor;
    (v.x, v.y, v.z)
}

impl ChunkPos {
    /// The chunk at grid position `(x, y, z)`.
    pub fn new(x: i32, y: i32, z: i32) -> (p: ChunkPos)
        ensures
            p == (ChunkPos { x, y, z }),
    {
        ChunkPos { x, y, z }
    }

    /// Whether the whole lattice of the chunk, halo included, has world
    /// coordinates that fit in an `i32`.
    pub open spec fn in_bounds(self) -> bool {
        &&& axis_in_bounds(self.x as int)
        &&& axis_in_bounds(self.y as int)
        &&& axis_in_bounds(self.z as int)
    }

    /// Tests whether the chunk's lattice fits in the `i32` world.
    pub fn check_bounds(self) -> (b: bool)
        ensures
            b == self.in_bounds(),
    {
        MIN_CHUNK_COORD <= self.x && self.x <= MAX_CHUNK_COORD && MIN_CHUNK_COORD <= self.y
            && self.y <= MAX_CHUNK_COORD && MIN_CHUNK_COORD <= self.z && self.z
            <= MAX_CHUNK_COORD
    }

    /// The world coordinates of the chunk's first own voxel: the chunk
    /// position times the chunk size.
    pub fn origin(self) -> (o: (i32, i32, i32))
        requires
            self.in_bounds(),
        ensures
            o.0 == self.x * CS,
            o.1 == self.y * CS,
            o.2 == self.z * CS,
    {
        scale_components(self.x, self.y, self.z, CS as i32)
    }
}

/// The material of a solid voxel at world height `height`: stone below
/// `stone_max`, else grass below `grass_max`, else dirt.
pub open spec fn material_for_height_spec(height: int, bands: MaterialThresholds) -> u8 {
    if height < bands.stone_max {
        STONE
    } else if height < bands.grass_max {
        GRASS
    } else {
        DIRT
    }
}

/// The material id of a voxel: air unless the density is greater than the
/// threshold, else the material of the voxel's height.
pub open spec fn classify_voxel_spec(
    density: Scalar,
    threshold: Scalar,
    height: int,
    bands: MaterialThresholds,
) -> u8 {
    if density.gt_spec(threshold) {
        material_for_height_spec(height, bands)
    } else {
        AIR
    }
}

/// Picks the material of a solid voxel from its world height.
pub fn material_for_height(height: i32, bands: &MaterialThresholds) -> (m: u8)
    ensures
        m == material_for_height_spec(height as int, *bands),
        m != AIR,
{
    if height < bands.stone_max {
        STONE
    } else if height < bands.grass_max {
        GRASS
    } else {
        DIRT
    }
}

/// Turns a sampled density into a material id.
pub fn classify_voxel(density: Scalar, threshold: Scalar, height: i32, bands: &MaterialThresholds) -> (m: u8)
    ensures
        m == classify_voxel_spec(density, threshold, height as int, *bands),
        m != AIR <==> density.gt_spec(threshold),
{
    if density.gt(threshold) {
        material_for_height(height, bands)
    } else {
        AIR
    }
}

/// The position in a voxel buffer of the lattice point with local indices
/// `(lx, ly, lz)`: x runs fastest, z slowest.
pub open spec fn voxel_index_spec(lx: int, ly: int, lz: int) -> int {
    lz * CS_P * CS_P + ly * CS_P + lx
}

/// The local x index of the lattice point at buffer position `index`.
pub open spec fn local_x(index: int) -> int {
    index % (CS_P as int)
}

/// The local y index of the lattice point at buffer position `index`.
pub open spec fn local_y(index: int) -> int {
    (index / (CS_P as int)) % (CS_P as int)
}

/// The local z index of the lattice point at buffer position `index`.
pub open spec fn local_z(index: int) -> int {
    (index / (CS_P as int)) / (CS_P as int)
}

/// Computes the buffer position of a lattice point.
pub fn voxel_index(lx: usize, ly: usize, lz: usize) -> (index: usize)
    requires
        lx < CS_P,
        ly < CS_P,
        lz < CS_P,
    ensures
        index == voxel_index_spec(lx as int, ly as int, lz as int),
        index < CS_P3,
        local_x(index as int) == lx,
        local_y(index as int) == ly,
        local_z(index as int) == lz,
{
    lz * CS_P * CS_P + ly * CS_P + lx
}

/// A terrain algorithm: a density field over the world lattice, together
/// with the configuration that it was built from.
///
/// An implementation states its field as `density_spec` and its
/// configuration as `config_spec`. Its two methods must return exactly
/// those: sampling the same point twice gives the same bits. Nothing
/// proved here holds of an implementation that breaks this promise.
///
/// The two ghost methods are never called. An implementation that is
/// compiled without the verifier still has to name them, with any body.
pub trait Generator: Send + Sync {
    /// The density at the world lattice point `(wx, wy, wz)`.
    spec fn density_spec(&self, wx: i32, wy: i32, wz: i32) -> Scalar;

    /// The configuration in force.
    spec fn config_spec(&self) -> MapGenConfig;

    /// Samples the density at a world lattice point.
    fn generate_density(&self, wx: i32, wy: i32, wz: i32) -> (d: Scalar)
        ensures
            d == self.density_spec(wx, wy, wz),
    ;

    /// The configuration in force.
    fn config(&self) -> (c: &MapGenConfig)
        ensures
            *c == self.config_spec(),
    ;
}

/// The material id that a generator gives the voxel at a world lattice
/// point.
pub open spec fn voxel_spec<G: Generator>(generator: &G, wx: int, wy: int, wz: int) -> u8 {
    classify_voxel_spec(
        generator.density_spec(wx as i32, wy as i32, wz as i32),
        generator.config_spec().density_threshold,
        wy,
        generator.config_spec().material_thresholds,
    )
}

/// The material id at buffer position `index` of the chunk at `pos`.
pub open spec fn chunk_voxel_spec<G: Generator>(generator: &G, pos: ChunkPos, index: int) -> u8 {
    voxel_spec(
        generator,
        world_coord(pos.x as int, local_x(index)),
        world_coord(pos.y as int, local_y(index)),
        world_coord(pos.z as int, local_z(index)),
    )
}

/// The voxel buffer of the chunk at `pos`: one material id for each lattice
/// point of the chunk and its halo.
pub open spec fn chunk_buffer_spec<G: Generator>(generator: &G, pos: ChunkPos) -> Seq<u8> {
    Seq::new(CS_P3 as nat, |index: int| chunk_voxel_spec(generator, pos, index))
}

/// The number of solid voxels in a buffer: the entries that are not air.
pub open spec fn solid_count_spec(buffer: Seq<u8>) -> nat
    decreases buffer.len(),
{
    if buffer.len() == 0 {
        0
    } else {
        solid_count_spec(buffer.drop_last()) + if buffer.last() != AIR {
            1nat
        } else {
            0nat
        }
    }
}

/// A buffer holds no more solid voxels than it has entries.
pub proof fn lemma_solid_count_bound(buffer: Seq<u8>)
    ensures
        solid_count_spec(buffer) <= buffer.len(),
    decreases buffer.len(),
{
    if buffer.len() > 0 {
        lemma_solid_count_bound(buffer.drop_last());
    }
}

/// Appending one voxel raises the solid count by one if the voxel is solid
/// and leaves it unchanged otherwise.
proof fn lemma_solid_count_push(buffer: Seq<u8>, voxel: u8)
    ensures
        solid_count_spec(buffer.push(voxel)) == solid_count_spec(buffer) + if voxel != AIR {
            1nat
        } else {
            0nat
        },
{
    assert(buffer.push(voxel).drop_last() =~= buffer);
}

/// Generates the voxels of one chunk with its halo, and counts the solid
/// ones.
///
/// The buffer holds, at the position of each lattice point, the material id
/// that the generator's density and configuration give the point.
pub fn generate_chunk_voxels<G: Generator>(chunk_pos: ChunkPos, generator: &G) -> (out: (
    Vec<u8>,
    usize,
))
    requires
        chunk_pos.in_bounds(),
    ensures
        out.0@ == chunk_buffer_spec(generator, chunk_pos),
        out.1 == solid_count_spec(out.0@),
{
    let cfg = generator.config();
    let mut voxels: Vec<u8> = Vec::with_capacity(CS_P3);
    let mut solid_count: usize = 0;
    let origin = chunk_pos.origin();

    let mut lz: usize = 0;
    while lz < CS_P
        invariant
            lz <= CS_P,
            chunk_pos.in_bounds(),
            origin.0 == chunk_pos.x * CS,
            origin.1 == chunk_pos.y * CS,
            origin.2 == chunk_pos.z * CS,
            *cfg == generator.config_spec(),
            voxels@.len() == voxel_index_spec(0, 0, lz as int),
            forall|i: int|
                0 <= i < voxels@.len() ==> voxels@[i] == chunk_voxel_spec(generator, chunk_pos, i),
            solid_count == solid_count_spec(voxels@),
        decreases CS_P - lz,
    {
        let wz: i32 = origin.2 + lz as i32 - 1;
        let mut ly: usize = 0;
        while ly < CS_P
            invariant
                lz < CS_P,
                ly <= CS_P,
                chunk_pos.in_bounds(),
                origin.0 == chunk_pos.x * CS,
                origin.1 == chunk_pos.y * CS,
                wz == world_coord(chunk_pos.z as int, lz as int),
                *cfg == generator.config_spec(),
                voxels@.len() == voxel_index_spec(0, ly as int, lz as int),
                forall|i: int|
                    0 <= i < voxels@.len() ==> voxels@[i] == chunk_voxel_spec(
                        generator,
                        chunk_pos,
                        i,
                    ),
                solid_count == solid_count_spec(voxels@),
            decreases CS_P - ly,
        {
            let wy: i32 = origin.1 + ly as i32 - 1;
            let mut lx: usize = 0;
            while lx < CS_P
                invariant
                    lz < CS_P,
                    ly < CS_P,
                    lx <= CS_P,
                    chunk_pos.in_bounds(),
                    origin.0 == chunk_pos.x * CS,
                    wy == world_coord(chunk_pos.y as int, ly as int),
                    wz == world_coord(chunk_pos.z as int, lz as int),
                    *cfg == generator.config_spec(),
                    voxels@.len() == voxel_index_spec(lx as int, ly as int, lz as int),
                    forall|i: int|
                        0 <= i < voxels@.len() ==> voxels@[i] == chunk_voxel_spec(
                            generator,
                            chunk_pos,
                            i,
                        ),
                    solid_count == solid_count_spec(voxels@),
                decreases CS_P - lx,
            {
                let wx: i32 = origin.0 + lx as i32 - 1;
                let density = generator.generate_density(wx, wy, wz);
                let voxel = classify_voxel(
                    density,
                    cfg.density_threshold,
                    wy,
                    &cfg.material_thresholds,
                );
                let index = voxel_index(lx, ly, lz);
                proof {
                    lemma_solid_count_push(voxels@, voxel);
                    lemma_solid_count_bound(voxels@);
                    assert(voxel == chunk_voxel_spec(generator, chunk_pos, index as int));
                }
                if voxel != AIR {
                    solid_count += 1;
                }
                voxels.push(voxel);
                lx += 1;
            }
            ly += 1;
        }
        lz += 1;
    }
    proof {
        assert(voxels@ =~= chunk_buffer_spec(generator, chunk_pos));
    }
    (voxels, solid_count)
}

/// Buffer positions and local indices determine each other.
pub proof fn lemma_voxel_index_roundtrip(lx: int, ly: int, lz: int)
    requires
        0 <= lx < CS_P,
        0 <= ly < CS_P,
        0 <= lz < CS_P,
    ensures
        0 <= voxel_index_spec(lx, ly, lz) < CS_P3,
        local_x(voxel_index_spec(lx, ly, lz)) == lx,
        local_y(voxel_index_spec(lx, ly, lz)) == ly,
        local_z(voxel_index_spec(lx, ly, lz)) == lz,
{
}

/// The voxel at a lattice point of a chunk is the voxel of the point's
/// world coordinates.
pub proof fn lemma_chunk_voxel_at<G: Generator>(
    generator: &G,
    pos: ChunkPos,
    lx: int,
    ly: int,
    lz: int,
)
    requires
        0 <= lx < CS_P,
        0 <= ly < CS_P,
        0 <= lz < CS_P,
    ensures
        0 <= voxel_index_spec(lx, ly, lz) < CS_P3,
        chunk_buffer_spec(generator, pos)[voxel_index_spec(lx, ly, lz)] == voxel_spec(
            generator,
            world_coord(pos.x as int, lx),
            world_coord(pos.y as int, ly),
            world_coord(pos.z as int, lz),
        ),
{
    lemma_voxel_index_roundtrip(lx, ly, lz);
}

/// Halo consistency. Let `neighbor` be the chunk one step after `pos` along
/// one axis, `(dx, dy, dz)` being that step. A lattice point of `neighbor`
/// that also lies in the lattice of `pos` (on the axis of the step: the
/// neighbour's low halo and its first own layer, which are the last own
/// layer and the high halo of `pos`) holds the same material id in both
/// buffers.
pub proof fn lemma_halo_consistency<G: Generator>(
    generator: &G,
    pos: ChunkPos,
    neighbor: ChunkPos,
    lx: int,
    ly: int,
    lz: int,
)
    requires
        0 <= neighbor.x - pos.x <= 1,
        0 <= neighbor.y - pos.y <= 1,
        0 <= neighbor.z - pos.z <= 1,
        (neighbor.x - pos.x) + (neighbor.y - pos.y) + (neighbor.z - pos.z) == 1,
        0 <= lx && lx + (neighbor.x - pos.x) * CS < CS_P,
        0 <= ly && ly + (neighbor.y - pos.y) * CS < CS_P,
        0 <= lz && lz + (neighbor.z - pos.z) * CS < CS_P,
    ensures
        chunk_buffer_spec(generator, neighbor)[voxel_index_spec(lx, ly, lz)] == chunk_buffer_spec(
            generator,
            pos,
        )[voxel_index_spec(
            lx + (neighbor.x - pos.x) * CS,
            ly + (neighbor.y - pos.y) * CS,
            lz + (neighbor.z - pos.z) * CS,
        )],
{
    let dx = neighbor.x - pos.x;
    let dy = neighbor.y - pos.y;
    let dz = neighbor.z - pos.z;
    lemma_chunk_voxel_at(generator, neighbor, lx, ly, lz);
    lemma_chunk_voxel_at(generator, pos, lx + dx * CS, ly + dy * CS, lz + dz * CS);
}

/// The buffer of a chunk is a function of what the generator says on the
/// chunk's lattice: two generators that agree on the density of every
/// lattice point of the chunk, on the density threshold and on the material
/// bands give the chunk the same buffer and the same solid count.
pub proof fn lemma_chunk_buffer_determined<G: Generator, H: Generator>(
    first: &G,
    second: &H,
    pos: ChunkPos,
)
    requires
        forall|lx: int, ly: int, lz: int|
            0 <= lx < CS_P && 0 <= ly < CS_P && 0 <= lz < CS_P ==> #[trigger] first.density_spec(
                world_coord(pos.x as int, lx) as i32,
                world_coord(pos.y as int, ly) as i32,
                world_coord(pos.z as int, lz) as i32,
            ) == second.density_spec(
                world_coord(pos.x as int, lx) as i32,
                world_coord(pos.y as int, ly) as i32,
                world_coord(pos.z as int, lz) as i32,
            ),
        first.config_spec().density_threshold == second.config_spec().density_threshold,
        first.config_spec().material_thresholds == second.config_spec().material_thresholds,
    ensures
        chunk_buffer_spec(first, pos) == chunk_buffer_spec(second, pos),
        solid_count_spec(chunk_buffer_spec(first, pos)) == solid_count_spec(
            chunk_buffer_spec(second, pos),
        ),
{
    assert forall|index: int| 0 <= index < CS_P3 implies chunk_voxel_spec(first, pos, index)
        == chunk_voxel_spec(second, pos, index) by {
        let lx = local_x(index);
        let ly = local_y(index);
        let lz = local_z(index);
        assert(0 <= lx < CS_P && 0 <= ly < CS_P && 0 <= lz < CS_P);
        assert(first.density_spec(
            world_coord(pos.x as int, lx) as i32,
            world_coord(pos.y as int, ly) as i32,
            world_coord(pos.z as int, lz) as i32,
        ) == second.density_spec(
            world_coord(pos.x as int, lx) as i32,
            world_coord(pos.y as int, ly) as i32,
            world_coord(pos.z as int, lz) as i32,
        ));
    }
    assert(chunk_buffer_spec(first, pos) =~= chunk_buffer_spec(second, pos));
}

/// Threshold monotonicity for one voxel: a voxel that is solid under a
/// threshold is solid, with the same material, under every lower one.
pub proof fn lemma_classify_threshold_monotone(
    density: Scalar,
    low: Scalar,
    high: Scalar,
    height: int,
    bands: MaterialThresholds,
)
    requires
        low.lt_spec(high),
    ensures
        classify_voxel_spec(density, high, height, bands) != AIR ==> classify_voxel_spec(
            density,
            low,
            height,
            bands,
        ) == classify_voxel_spec(density, high, height, bands),
{
}

/// Of two buffers of one length, the one that is solid wherever the other
/// is holds at least as many solid voxels.
pub proof fn lemma_solid_count_monotone(fewer: Seq<u8>, more: Seq<u8>)
    requires
        fewer.len() == more.len(),
        forall|i: int| 0 <= i < fewer.len() && fewer[i] != AIR ==> more[i] != AIR,
    ensures
        solid_count_spec(fewer) <= solid_count_spec(more),
    decreases fewer.len(),
{
    if fewer.len() > 0 {
        lemma_solid_count_monotone(fewer.drop_last(), more.drop_last());
    }
}

/// Threshold monotonicity for a chunk. Take two generators with the same
/// density field and the same material bands, the second with a strictly
/// higher density threshold. Every voxel that is solid in the second's
/// buffer holds the same material in the first's, and the second's buffer
/// has no more solid voxels than the first's: raising the threshold turns
/// solid voxels into air and never the reverse.
pub proof fn lemma_threshold_monotone<G: Generator, H: Generator>(
    low: &G,
    high: &H,
    pos: ChunkPos,
)
    requires
        forall|wx: i32, wy: i32, wz: i32|
            low.density_spec(wx, wy, wz) == high.density_spec(wx, wy, wz),
        low.config_spec().material_thresholds == high.config_spec().material_thresholds,
        low.config_spec().density_threshold.lt_spec(high.config_spec().density_threshold),
    ensures
        forall|i: int|
            0 <= i < CS_P3 && chunk_buffer_spec(high, pos)[i] != AIR ==> chunk_buffer_spec(
                low,
                pos,
            )[i] == chunk_buffer_spec(high, pos)[i],
        solid_count_spec(chunk_buffer_spec(high, pos)) <= solid_count_spec(
            chunk_buffer_spec(low, pos),
        ),
{
    let lower = chunk_buffer_spec(low, pos);
    let higher = chunk_buffer_spec(high, pos);
    assert forall|i: int| 0 <= i < CS_P3 && higher[i] != AIR implies lower[i] == higher[i] by {
        let wx = world_coord(pos.x as int, local_x(i));
        let wy = world_coord(pos.y as int, local_y(i));
        let wz = world_coord(pos.z as int, local_z(i));
        lemma_classify_threshold_monotone(
            low.density_spec(wx as i32, wy as i32, wz as i32),
            low.config_spec().density_threshold,
            high.config_spec().density_threshold,
            wy,
            low.config_spec().material_thresholds,
        );
    }
    lemma_solid_count_monotone(higher, lower);
}

/// Material banding: the material of a solid voxel is decided by its height
/// and the bands alone. Two solid voxels at one height hold the same
/// material, whatever their densities and the thresholds that made them
/// solid.
pub proof fn lemma_material_banding(
    density1: Scalar,
    threshold1: Scalar,
    density2: Scalar,
    threshold2: Scalar,
    height: int,
    bands: MaterialThresholds,
)
    requires
        classify_voxel_spec(density1, threshold1, height, bands) != AIR,
        classify_voxel_spec(density2, threshold2, height, bands) != AIR,
    ensures
        classify_voxel_spec(density1, threshold1, height, bands) == material_for_height_spec(
            height,
            bands,
        ),
        classify_voxel_spec(density2, threshold2, height, bands) == material_for_height_spec(
            height,
            bands,
        ),
{
}

/// Material banding within a chunk: a solid voxel of a buffer holds the
/// material of its world height, wherever it lies along x and z.
pub proof fn lemma_chunk_material_banding<G: Generator>(generator: &G, pos: ChunkPos, index: int)
    requires
        0 <= index < CS_P3,
        chunk_buffer_spec(generator, pos)[index] != AIR,
    ensures
        chunk_buffer_spec(generator, pos)[index] == material_for_height_spec(
            world_coord(pos.y as int, local_y(index)),
            generator.config_spec().material_thresholds,
        ),
{
}

} // verus!
