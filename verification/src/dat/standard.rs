//! Standard entries: an explicit, pre-enumerated block table, concatenated in
//! table order.

use vstd::prelude::*;
use crate::bytes::{le_u16_at, le_u32_at};
use crate::dat::shared::{decoded_block, DatError};

verus! {

/// One row of a standard entry's block table. `offset` is relative to the
/// entry base (archive offset plus entry header size).
#[derive(Debug, Clone, Copy, PartialEq, Eq, Structural)]
pub struct StdFileBlock {
    pub offset: u32,
    pub compressed_size: u16,
    pub uncompressed_size: u16,
}

/// The block table of a standard entry.
#[derive(Debug, Clone, PartialEq, Eq)]
pub struct StandardBlock {
    pub num_blocks: u32,
    pub blocks: Vec<StdFileBlock>,
}

/// The table row stored at position `p` of `d` (8 bytes).
pub open spec fn std_block_at(d: Seq<u8>, p: int) -> StdFileBlock {
    StdFileBlock {
        offset: le_u32_at(d, p),
        compressed_size: le_u16_at(d, p + 4),
        uncompressed_size: le_u16_at(d, p + 6),
    }
}

/// The block table of the standard entry whose header starts at `off`: eight
/// ignored bytes, a row count, then that many 8-byte rows. `None` when the
/// table runs past the end of the archive.
pub open spec fn std_table(d: Seq<u8>, off: int) -> Option<Seq<StdFileBlock>> {
    if off + 24 > d.len() {
        None
    } else {
        let n = le_u32_at(d, off + 20) as int;
        if off + 24 + 8 * n > d.len() {
            None
        } else {
            Some(Seq::new(n as nat, |i: int| std_block_at(d, off + 24 + 8 * i)))
        }
    }
}

/// The output of a standard entry, built row by row from row `i` on: each
/// block decodes at `base` plus its relative offset and is appended to `acc`,
/// in table order, with nothing between blocks. The first failing block fails
/// the whole entry.
pub open spec fn std_cat(
    d: Seq<u8>,
    base: int,
    blocks: Seq<StdFileBlock>,
    i: int,
    acc: Seq<u8>,
) -> Result<Seq<u8>, DatError>
    decreases blocks.len() - i,
{
    if i < 0 || i >= blocks.len() {
        Ok(acc)
    } else {
        match decoded_block(d, base + blocks[i].offset) {
            Ok(b) => std_cat(d, base, blocks, i + 1, acc + b),
            Err(e) => Err(e),
        }
    }
}

/// A standard entry's whole output: its table, decoded and concatenated.
pub open spec fn standard_spec(d: Seq<u8>, off: int, size: u32) -> Result<Seq<u8>, DatError> {
    match std_table(d, off) {
        None => Err(DatError::MalformedHeader),
        Some(blocks) => std_cat(d, off + size, blocks, 0, Seq::empty()),
    }
}


/// Standard concatenation order: a three-block table decodes to the first
/// block's bytes, then the second's, then the third's, in exactly that
/// order, with no interleaving and nothing between blocks.
pub proof fn lemma_standard_concat_three(
    d: Seq<u8>,
    base: int,
    blocks: Seq<StdFileBlock>,
    b0: Seq<u8>,
    b1: Seq<u8>,
    b2: Seq<u8>,
)
    requires
        blocks.len() == 3,
        decoded_block(d, base + blocks[0].offset) == Ok::<Seq<u8>, DatError>(b0),
        decoded_block(d, base + blocks[1].offset) == Ok::<Seq<u8>, DatError>(b1),
        decoded_block(d, base + blocks[2].offset) == Ok::<Seq<u8>, DatError>(b2),
    ensures
        std_cat(d, base, blocks, 0, Seq::empty()) == Ok::<Seq<u8>, DatError>(b0 + b1 + b2),
{
    assert(Seq::<u8>::empty() + b0 =~= b0);
    assert(std_cat(d, base, blocks, 3, b0 + b1 + b2) == Ok::<Seq<u8>, DatError>(b0 + b1 + b2));
    assert(std_cat(d, base, blocks, 2, b0 + b1) == Ok::<Seq<u8>, DatError>(b0 + b1 + b2));
    assert(std_cat(d, base, blocks, 1, b0) == Ok::<Seq<u8>, DatError>(b0 + b1 + b2));
}

} // verus!
