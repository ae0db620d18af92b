//! Column occupancy masks of a voxel buffer.
//!
//! A surface extractor that works on bit masks wants, for every column of a
//! chunk along z, one 64-bit word whose bit `lz` tells whether the voxel at
//! depth `lz` of the column is solid.

use crate::generators::{voxel_index, voxel_index_spec, AIR};
use crate::{CS_P, CS_P3};
use vstd::prelude::*;

verus! {

/// Whether bit number `bit` of `word` is set.
pub open spec fn bit_is_set(word: u64, bit: u64) -> bool {
    (word >> bit) & 1 == 1
}

/// The position in a mask of the column at local indices `(lx, ly)`.
pub open spec fn column_index_spec(lx: int, ly: int) -> int {
    ly * CS_P + lx
}

/// Setting one bit of a word sets that bit and leaves the others as they
/// were.
proof fn lemma_set_bit(word: u64, bit: u64, other: u64)
    by (bit_vector)
    requires
        bit < 64,
        other < 64,
    ensures
        bit_is_set(word | (1u64 << bit), other) == (other == bit || bit_is_set(word, other)),
{
}

/// No bit of zero is set.
proof fn lemma_zero_has_no_bit(bit: u64)
    by (bit_vector)
    requires
        bit < 64,
    ensures
        !bit_is_set(0, bit),
{
}

/// Builds the occupancy word of one column: bit `lz` is set exactly where
/// the voxel at `(lx, ly, lz)` is solid.
fn column_mask(voxels: &Vec<u8>, lx: usize, ly: usize) -> (word: u64)
    requires
        voxels@.len() == CS_P3,
        lx < CS_P,
        ly < CS_P,
    ensures
        forall|lz: u64|
            lz < CS_P ==> bit_is_set(word, lz) == (voxels@[voxel_index_spec(
                lx as int,
                ly as int,
                lz as int,
            )] != AIR),
{
    let mut word: u64 = 0;
    let mut lz: usize = 0;
    proof {
        assert forall|bit: u64| bit < 64 implies !bit_is_set(0, bit) by {
            lemma_zero_has_no_bit(bit);
        }
    }
    while lz < CS_P
        invariant
            lz <= CS_P,
            lx < CS_P,
            ly < CS_P,
            voxels@.len() == CS_P3,
            forall|bit: u64|
                bit < lz ==> bit_is_set(word, bit) == (voxels@[voxel_index_spec(
                    lx as int,
                    ly as int,
                    bit as int,
                )] != AIR),
            forall|bit: u64| lz <= bit < 64 ==> !bit_is_set(word, bit),
        decreases CS_P - lz,
    {
        let index = voxel_index(lx, ly, lz);
        if voxels[index] != AIR {
            let ghost before = word;
            word = word | (1u64 << (lz as u64));
            proof {
                assert forall|bit: u64| bit < 64 implies bit_is_set(word, bit) == (bit == lz
                    || bit_is_set(before, bit)) by {
                    lemma_set_bit(before, lz as u64, bit);
                }
            }
        }
        lz += 1;
    }
    word
}

/// Builds the occupancy mask of a voxel buffer: one word for each column
/// along z, columns in rows of `x` within planes of `y`.
pub fn build_opaque_mask(voxels: &Vec<u8>) -> (mask: Vec<u64>)
    requires
        voxels@.len() == CS_P3,
    ensures
        mask@.len() == CS_P * CS_P,
        forall|lx: int, ly: int, lz: u64|
            0 <= lx < CS_P && 0 <= ly < CS_P && lz < CS_P ==> bit_is_set(
                #[trigger] mask@[column_index_spec(lx, ly)],
                lz,
            ) == (#[trigger] voxels@[voxel_index_spec(lx, ly, lz as int)] != AIR),
{
    let mut mask: Vec<u64> = Vec::with_capacity(CS_P * CS_P);
    let mut ly: usize = 0;
    while ly < CS_P
        invariant
            ly <= CS_P,
            voxels@.len() == CS_P3,
            mask@.len() == column_index_spec(0, ly as int),
            forall|cx: int, cy: int, lz: u64|
                0 <= cx < CS_P && 0 <= cy < ly && lz < CS_P ==> bit_is_set(
                    #[trigger] mask@[column_index_spec(cx, cy)],
                    lz,
                ) == (#[trigger] voxels@[voxel_index_spec(cx, cy, lz as int)] != AIR),
        decreases CS_P - ly,
    {
        let mut lx: usize = 0;
        while lx < CS_P
            invariant
                ly < CS_P,
                lx <= CS_P,
                voxels@.len() == CS_P3,
                mask@.len() == column_index_spec(lx as int, ly as int),
                forall|cx: int, cy: int, lz: u64|
                    0 <= cx < CS_P && 0 <= cy < CS_P && column_index_spec(cx, cy)
                        < column_index_spec(lx as int, ly as int) && lz < CS_P ==> bit_is_set(
                        #[trigger] mask@[column_index_spec(cx, cy)],
                        lz,
                    ) == (#[trigger] voxels@[voxel_index_spec(cx, cy, lz as int)] != AIR),
            decreases CS_P - lx,
        {
            let word = column_mask(voxels, lx, ly);
            mask.push(word);
            lx += 1;
        }
        ly += 1;
    }
    mask
}

} // verus!
