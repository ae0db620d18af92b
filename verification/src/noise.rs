//! Seeded integer hashing for the noise lattice.
//!
//! Every value here lives in the ring of integers modulo 2^32, so the
//! specifications are written over `int` with an explicit reduction.

use vstd::arithmetic::div_mod::{lemma_add_mod_noop, lemma_mul_mod_noop_left};
use vstd::prelude::*;

verus! {

/// Multiplier of the first mixing round.
pub const MIX_A: u32 = 0x9E37_79B1;

/// Multiplier of the second mixing round.
pub const MIX_B: u32 = 0x85EB_CA6B;

/// Multiplier of the third mixing round.
pub const MIX_C: u32 = 0xC2B2_AE35;

/// `n` reduced into `0 .. 2^32`.
pub open spec fn mod32(n: int) -> u32 {
    (n % 0x1_0000_0000) as u32
}

/// One mixing round: multiply modulo 2^32, then fold the high bits onto the
/// low ones by xor with the product shifted right by `shift`.
pub open spec fn mix_round(h: u32, mult: u32, shift: u32) -> u32 {
    let p = mod32(h * mult);
    p ^ (p >> shift)
}

/// The avalanche hash of `x` under `seed`: three mixing rounds applied to
/// `x ^ seed`.
pub open spec fn hash_u32_spec(x: u32, seed: u32) -> u32 {
    mix_round(mix_round(mix_round(x ^ seed, MIX_A, 16), MIX_B, 13), MIX_C, 16)
}

/// Hashes a 32-bit key under a 32-bit seed.
pub fn hash_u32(x: u32, seed: u32) -> (h: u32)
    ensures
        h == hash_u32_spec(x, seed),
{
    let mut h: u32 = x ^ seed;
    h = h.wrapping_mul(MIX_A);
    h ^= h >> 16;
    h = h.wrapping_mul(MIX_B);
    h ^= h >> 13;
    h = h.wrapping_mul(MIX_C);
    h ^= h >> 16;
    h
}

/// Multiplying by an odd constant modulo 2^32 is undone by multiplying by its
/// inverse; this is the case of the three mixing multipliers.
proof fn lemma_multipliers_invertible(h: u32)
    by (bit_vector)
    ensures
        mod32(mod32(h * MIX_A) * 0x0E8B_2F51u32) == h,
        mod32(mod32(h * MIX_B) * 0xA5CB_9243u32) == h,
        mod32(mod32(h * MIX_C) * 0x7ED1_B41Du32) == h,
{
}

/// Folding the high bits down is undone by folding again (and, for the
/// 13-bit shift, once more at twice the distance).
proof fn lemma_folds_invertible(p: u32)
    by (bit_vector)
    ensures
        ({
            let q = p ^ (p >> 16);
            q ^ (q >> 16) == p
        }),
        ({
            let q = p ^ (p >> 13);
            q ^ (q >> 13) ^ (q >> 26) == p
        }),
{
}

/// Each of the three mixing rounds is one-to-one.
proof fn lemma_rounds_injective(h1: u32, h2: u32)
    ensures
        mix_round(h1, MIX_A, 16) == mix_round(h2, MIX_A, 16) ==> h1 == h2,
        mix_round(h1, MIX_B, 13) == mix_round(h2, MIX_B, 13) ==> h1 == h2,
        mix_round(h1, MIX_C, 16) == mix_round(h2, MIX_C, 16) ==> h1 == h2,
{
    lemma_multipliers_invertible(h1);
    lemma_multipliers_invertible(h2);
    lemma_folds_invertible(mod32(h1 * MIX_A));
    lemma_folds_invertible(mod32(h2 * MIX_A));
    lemma_folds_invertible(mod32(h1 * MIX_B));
    lemma_folds_invertible(mod32(h2 * MIX_B));
    lemma_folds_invertible(mod32(h1 * MIX_C));
    lemma_folds_invertible(mod32(h2 * MIX_C));
}

/// The hash is one-to-one in each argument: under a fixed seed two distinct
/// keys never collide, and a fixed key hashes differently under any two
/// distinct seeds.
pub proof fn lemma_hash_injective(x1: u32, seed1: u32, x2: u32, seed2: u32)
    requires
        hash_u32_spec(x1, seed1) == hash_u32_spec(x2, seed2),
    ensures
        x1 ^ seed1 == x2 ^ seed2,
        seed1 == seed2 ==> x1 == x2,
        x1 == x2 ==> seed1 == seed2,
{
    let a1 = mix_round(x1 ^ seed1, MIX_A, 16);
    let a2 = mix_round(x2 ^ seed2, MIX_A, 16);
    let b1 = mix_round(a1, MIX_B, 13);
    let b2 = mix_round(a2, MIX_B, 13);
    lemma_rounds_injective(b1, b2);
    lemma_rounds_injective(a1, a2);
    lemma_rounds_injective(x1 ^ seed1, x2 ^ seed2);
    assert(x1 ^ seed1 == x2 ^ seed2 ==> (seed1 == seed2 <==> x1 == x2)) by (bit_vector);
}

/// Multiplier of the x coordinate in a lattice key.
pub const KEY_X: u32 = 73856093;

/// Multiplier of the y coordinate in a lattice key.
pub const KEY_Y: u32 = 19349663;

/// Multiplier of the z coordinate in a lattice key.
pub const KEY_Z: u32 = 83492791;

/// The key of the lattice point `(ix, iy, iz)`: a linear form in the
/// coordinates, reduced modulo 2^32.
pub open spec fn lattice_key_spec(ix: int, iy: int, iz: int) -> u32 {
    mod32(ix * KEY_X + iy * KEY_Y + iz * KEY_Z)
}

/// The hash of the lattice point `(ix, iy, iz)` under `seed`.
pub open spec fn lattice_hash_spec(ix: int, iy: int, iz: int, seed: u32) -> u32 {
    hash_u32_spec(lattice_key_spec(ix, iy, iz), seed)
}

/// Reducing a factor first does not change a reduced product.
pub proof fn lemma_mod32_mul(n: int, c: int)
    ensures
        mod32(mod32(n) * c) == mod32(n * c),
{
    lemma_mul_mod_noop_left(n, c, 0x1_0000_0000);
}

/// Reducing the terms first does not change a reduced sum.
pub proof fn lemma_mod32_add(a: int, b: int)
    ensures
        mod32(mod32(a) + mod32(b)) == mod32(a + b),
{
    lemma_add_mod_noop(a, b, 0x1_0000_0000);
}

/// The term that one coordinate contributes to a lattice key.
fn key_term(i: i32, mult: u32) -> (k: u32)
    ensures
        k == mod32(i as int * mult as int),
{
    let u: u32 = #[verifier::truncate] (i as u32);
    let k: u32 = u.wrapping_mul(mult);
    proof {
        assert(i as u32 == (if i < 0 { i + 0x1_0000_0000 } else { i as int })) by (bit_vector);
        assert(u == mod32(i as int));
        lemma_mod32_mul(i as int, mult as int);
    }
    k
}

/// Computes the key of a lattice point.
pub fn lattice_key(ix: i32, iy: i32, iz: i32) -> (k: u32)
    ensures
        k == lattice_key_spec(ix as int, iy as int, iz as int),
{
    let kx: u32 = key_term(ix, KEY_X);
    let ky: u32 = key_term(iy, KEY_Y);
    let kz: u32 = key_term(iz, KEY_Z);
    let kxy: u32 = kx.wrapping_add(ky);
    let k: u32 = kxy.wrapping_add(kz);
    proof {
        let tx = ix as int * KEY_X as int;
        let ty = iy as int * KEY_Y as int;
        let tz = iz as int * KEY_Z as int;
        assert(kxy == mod32(kx + ky));
        lemma_mod32_add(tx, ty);
        assert(k == mod32(kxy + kz));
        lemma_mod32_add(tx + ty, tz);
    }
    k
}

/// Hashes a lattice point under a seed.
pub fn lattice_hash(ix: i32, iy: i32, iz: i32, seed: u32) -> (h: u32)
    ensures
        h == lattice_hash_spec(ix as int, iy as int, iz as int, seed),
{
    hash_u32(lattice_key(ix, iy, iz), seed)
}

/// A lattice gradient direction; every component is -1, 0 or 1.
#[derive(Clone, Copy, Debug, PartialEq, Eq, Structural)]
pub struct Gradient {
    pub x: i32,
    pub y: i32,
    pub z: i32,
}

/// The number of gradient directions.
pub const GRADIENT_COUNT: u32 = 12;

/// The table of gradient directions: the twelve vectors from the centre of a
/// cube to the midpoints of its edges.
pub open spec fn gradient_at(index: int) -> Gradient {
    if index == 0 {
        Gradient { x: 1, y: 1, z: 0 }
    } else if index == 1 {
        Gradient { x: -1i32, y: 1, z: 0 }
    } else if index == 2 {
        Gradient { x: 1, y: -1i32, z: 0 }
    } else if index == 3 {
        Gradient { x: -1i32, y: -1i32, z: 0 }
    } else if index == 4 {
        Gradient { x: 1, y: 0, z: 1 }
    } else if index == 5 {
        Gradient { x: -1i32, y: 0, z: 1 }
    } else if index == 6 {
        Gradient { x: 1, y: 0, z: -1i32 }
    } else if index == 7 {
        Gradient { x: -1i32, y: 0, z: -1i32 }
    } else if index == 8 {
        Gradient { x: 0, y: 1, z: 1 }
    } else if index == 9 {
        Gradient { x: 0, y: -1i32, z: 1 }
    } else if index == 10 {
        Gradient { x: 0, y: 1, z: -1i32 }
    } else {
        Gradient { x: 0, y: -1i32, z: -1i32 }
    }
}

/// The gradient that a corner hash selects: the table entry at the hash
/// reduced modulo the table's length.
pub open spec fn gradient_spec(hash: u32) -> Gradient {
    gradient_at(hash as int % GRADIENT_COUNT as int)
}

/// Selects the gradient direction for a corner hash.
pub fn gradient(hash: u32) -> (g: Gradient)
    ensures
        g == gradient_spec(hash),
{
    let index: u32 = hash % GRADIENT_COUNT;
    match index {
        0 => Gradient { x: 1, y: 1, z: 0 },
        1 => Gradient { x: -1, y: 1, z: 0 },
        2 => Gradient { x: 1, y: -1, z: 0 },
        3 => Gradient { x: -1, y: -1, z: 0 },
        4 => Gradient { x: 1, y: 0, z: 1 },
        5 => Gradient { x: -1, y: 0, z: 1 },
        6 => Gradient { x: 1, y: 0, z: -1 },
        7 => Gradient { x: -1, y: 0, z: -1 },
        8 => Gradient { x: 0, y: 1, z: 1 },
        9 => Gradient { x: 0, y: -1, z: 1 },
        10 => Gradient { x: 0, y: 1, z: -1 },
        _ => Gradient { x: 0, y: -1, z: -1 },
    }
}

/// Every selected gradient has squared length 2: one component is zero and
/// the other two have magnitude 1.
pub proof fn lemma_gradient_shape(hash: u32)
    ensures
        ({
            let g = gradient_spec(hash);
            &&& -1 <= g.x <= 1
            &&& -1 <= g.y <= 1
            &&& -1 <= g.z <= 1
            &&& g.x * g.x + g.y * g.y + g.z * g.z == 2
        }),
{
    let g = gradient_spec(hash);
    assert(g.x * g.x == (if g.x == 0 { 0int } else { 1int })) by (nonlinear_arith)
        requires
            -1 <= g.x <= 1,
    ;
    assert(g.y * g.y == (if g.y == 0 { 0int } else { 1int })) by (nonlinear_arith)
        requires
            -1 <= g.y <= 1,
    ;
    assert(g.z * g.z == (if g.z == 0 { 0int } else { 1int })) by (nonlinear_arith)
        requires
            -1 <= g.z <= 1,
    ;
}

/// Distinct table positions hold distinct directions.
pub proof fn lemma_gradients_distinct(i: int, j: int)
    requires
        0 <= i < GRADIENT_COUNT,
        0 <= j < GRADIENT_COUNT,
        i != j,
    ensures
        gradient_at(i) != gradient_at(j),
{
}

/// A lattice key depends on each coordinate only through its residue modulo
/// 2^32.
pub proof fn lemma_lattice_key_periodic(ix: int, iy: int, iz: int, jx: int, jy: int, jz: int)
    requires
        mod32(ix) == mod32(jx),
        mod32(iy) == mod32(jy),
        mod32(iz) == mod32(jz),
    ensures
        lattice_key_spec(ix, iy, iz) == lattice_key_spec(jx, jy, jz),
{
    lemma_mod32_mul(ix, KEY_X as int);
    lemma_mod32_mul(iy, KEY_Y as int);
    lemma_mod32_mul(iz, KEY_Z as int);
    lemma_mod32_mul(jx, KEY_X as int);
    lemma_mod32_mul(jy, KEY_Y as int);
    lemma_mod32_mul(jz, KEY_Z as int);
    lemma_mod32_add(ix * KEY_X, iy * KEY_Y);
    lemma_mod32_add(jx * KEY_X, jy * KEY_Y);
    lemma_mod32_add(ix * KEY_X + iy * KEY_Y, iz * KEY_Z);
    lemma_mod32_add(jx * KEY_X + jy * KEY_Y, jz * KEY_Z);
}

/// The gradient at one corner of the lattice cell whose lowest corner is
/// `(x0, y0, z0)`. Corners are numbered 0 to 7; bit 0 of the number is the
/// offset along x, bit 1 along y and bit 2 along z.
pub open spec fn corner_gradient_spec(x0: int, y0: int, z0: int, corner: int, seed: u32) -> Gradient {
    gradient_spec(
        lattice_hash_spec(x0 + corner % 2, y0 + (corner / 2) % 2, z0 + corner / 4, seed),
    )
}

/// The gradient at the lattice point `(x0 + dx, y0 + dy, z0 + dz)`, where
/// each offset is 0 or 1. A coordinate that leaves the `i32` range is taken
/// modulo 2^32, which leaves the point's key unchanged.
fn offset_gradient(x0: i32, y0: i32, z0: i32, dx: i32, dy: i32, dz: i32, seed: u32) -> (g: Gradient)
    requires
        0 <= dx <= 1,
        0 <= dy <= 1,
        0 <= dz <= 1,
    ensures
        g == gradient_spec(lattice_hash_spec(x0 + dx, y0 + dy, z0 + dz, seed)),
{
    let ix: i32 = x0.wrapping_add(dx);
    let iy: i32 = y0.wrapping_add(dy);
    let iz: i32 = z0.wrapping_add(dz);
    proof {
        assert(mod32(ix as int) == mod32(x0 + dx));
        assert(mod32(iy as int) == mod32(y0 + dy));
        assert(mod32(iz as int) == mod32(z0 + dz));
        lemma_lattice_key_periodic(ix as int, iy as int, iz as int, x0 + dx, y0 + dy, z0 + dz);
    }
    gradient(lattice_hash(ix, iy, iz, seed))
}

/// Computes the gradients at the eight corners of a lattice cell, in corner
/// order.
pub fn cell_gradients(x0: i32, y0: i32, z0: i32, seed: u32) -> (g: [Gradient; 8])
    ensures
        forall|corner: int|
            0 <= corner < 8 ==> g[corner] == corner_gradient_spec(
                x0 as int,
                y0 as int,
                z0 as int,
                corner,
                seed,
            ),
{
    let g = [
        offset_gradient(x0, y0, z0, 0, 0, 0, seed),
        offset_gradient(x0, y0, z0, 1, 0, 0, seed),
        offset_gradient(x0, y0, z0, 0, 1, 0, seed),
        offset_gradient(x0, y0, z0, 1, 1, 0, seed),
        offset_gradient(x0, y0, z0, 0, 0, 1, seed),
        offset_gradient(x0, y0, z0, 1, 0, 1, seed),
        offset_gradient(x0, y0, z0, 0, 1, 1, seed),
        offset_gradient(x0, y0, z0, 1, 1, 1, seed),
    ];
    proof {
        assert(g[0] == corner_gradient_spec(x0 as int, y0 as int, z0 as int, 0, seed));
        assert(g[1] == corner_gradient_spec(x0 as int, y0 as int, z0 as int, 1, seed));
        assert(g[2] == corner_gradient_spec(x0 as int, y0 as int, z0 as int, 2, seed));
        assert(g[3] == corner_gradient_spec(x0 as int, y0 as int, z0 as int, 3, seed));
        assert(g[4] == corner_gradient_spec(x0 as int, y0 as int, z0 as int, 4, seed));
        assert(g[5] == corner_gradient_spec(x0 as int, y0 as int, z0 as int, 5, seed));
        assert(g[6] == corner_gradient_spec(x0 as int, y0 as int, z0 as int, 6, seed));
        assert(g[7] == corner_gradient_spec(x0 as int, y0 as int, z0 as int, 7, seed));
    }
    g
}

/// The step between the seeds of consecutive octaves.
pub const OCTAVE_SEED_STRIDE: u32 = 1013;

/// The seed of octave number `octave` of a fractal sum seeded with `seed`:
/// the seeds advance by a fixed stride, modulo 2^32.
pub open spec fn octave_seed_spec(seed: u32, octave: u32) -> u32 {
    mod32(seed + octave * OCTAVE_SEED_STRIDE)
}

/// Derives the seed of one octave of a fractal sum.
pub fn octave_seed(seed: u32, octave: u32) -> (s: u32)
    ensures
        s == octave_seed_spec(seed, octave),
{
    let step: u32 = octave.wrapping_mul(OCTAVE_SEED_STRIDE);
    let s: u32 = seed.wrapping_add(step);
    proof {
        lemma_mod32_add(seed as int, octave * OCTAVE_SEED_STRIDE);
    }
    s
}

/// Within one fractal sum no two octaves share a seed.
pub proof fn lemma_octave_seeds_distinct(seed: u32, octave1: u32, octave2: u32)
    by (bit_vector)
    requires
        octave1 != octave2,
    ensures
        octave_seed_spec(seed, octave1) != octave_seed_spec(seed, octave2),
{
}

/// The seed of an octave follows the seed of the sum: two different seeds
/// give the same octave two different seeds.
pub proof fn lemma_octave_seed_injective(seed1: u32, seed2: u32, octave: u32)
    by (bit_vector)
    requires
        seed1 != seed2,
    ensures
        octave_seed_spec(seed1, octave) != octave_seed_spec(seed2, octave),
{
}

} // verus!
