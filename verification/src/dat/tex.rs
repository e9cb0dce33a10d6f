//! Texture entries: per-LOD chains of blocks linked by signed 16-bit jump
//! deltas, optionally prefixed by a verbatim header copy.

use vstd::prelude::*;
use crate::bytes::{le_i16_at, le_u32_at};
use crate::dat::shared::{decoded_block, DatError};

verus! {

/// One LOD level's descriptor in a texture entry's table (20 bytes).
#[derive(Debug, Clone, Copy, PartialEq, Eq, Structural)]
pub struct LodBlock {
    pub compressed_offset: u32,
    pub compressed_size: u32,
    pub decompressed_size: u32,
    pub block_offset: u32,
    pub block_count: u32,
}

/// The LOD table of a texture entry.
#[derive(Debug, Clone, PartialEq, Eq)]
pub struct TextureBlock {
    pub num_blocks: u32,
    pub lods: Vec<LodBlock>,
}

/// The LOD descriptor stored at position `p` of `d` (20 bytes).
pub open spec fn lod_block_at(d: Seq<u8>, p: int) -> LodBlock {
    LodBlock {
        compressed_offset: le_u32_at(d, p),
        compressed_size: le_u32_at(d, p + 4),
        decompressed_size: le_u32_at(d, p + 8),
        block_offset: le_u32_at(d, p + 12),
        block_count: le_u32_at(d, p + 16),
    }
}

/// The LOD table of the texture entry whose header starts at `off`: eight
/// ignored bytes, a level count, then that many 20-byte descriptors. `None`
/// when the table runs past the end of the archive.
pub open spec fn tex_table(d: Seq<u8>, off: int) -> Option<Seq<LodBlock>> {
    if off + 24 > d.len() {
        None
    } else {
        let n = le_u32_at(d, off + 20) as int;
        if off + 24 + 20 * n > d.len() {
            None
        } else {
            Some(Seq::new(n as nat, |i: int| lod_block_at(d, off + 24 + 20 * i)))
        }
    }
}

/// The rest of one LOD level's chain after its first block, `remaining`
/// blocks long. Each step reads a signed 16-bit delta at the table cursor
/// `tpos`, adds it to the previous block's position to find the next block,
/// decodes there, and appends. Returns the grown output and the advanced
/// table cursor. A jump below position zero targets a seek outside the
/// buffer.
pub open spec fn tex_chain(
    d: Seq<u8>,
    chain_pos: int,
    tpos: int,
    remaining: int,
    acc: Seq<u8>,
) -> Result<(Seq<u8>, int), DatError>
    decreases remaining,
{
    if remaining <= 0 {
        Ok((acc, tpos))
    } else if tpos + 2 > d.len() {
        Err(DatError::BoundsFailure)
    } else {
        let next = chain_pos + le_i16_at(d, tpos);
        if next < 0 {
            Err(DatError::BoundsFailure)
        } else {
            match decoded_block(d, next) {
                Ok(b) => tex_chain(d, next, tpos + 2, remaining - 1, acc + b),
                Err(e) => Err(e),
            }
        }
    }
}

/// The LOD chains of a texture entry from level `i` on. Each level decodes
/// its first block at `base` plus the level's stored offset, follows the
/// chain for the remaining `block_count - 1` blocks, then reads and discards
/// one trailing delta before the next level.
pub open spec fn tex_levels(
    d: Seq<u8>,
    base: int,
    lods: Seq<LodBlock>,
    i: int,
    tpos: int,
    acc: Seq<u8>,
) -> Result<Seq<u8>, DatError>
    decreases lods.len() - i, 1int,
{
    if i < 0 || i >= lods.len() {
        Ok(acc)
    } else {
        let start = base + lods[i].compressed_offset;
        match decoded_block(d, start) {
            Err(e) => Err(e),
            Ok(b) => tex_after_chain(
                d,
                base,
                lods,
                i,
                tex_chain(d, start, tpos, lods[i].block_count - 1, acc + b),
            ),
        }
    }
}

/// What follows one level's finished chain: reading (and discarding) the
/// trailing delta, then the remaining levels.
pub open spec fn tex_after_chain(
    d: Seq<u8>,
    base: int,
    lods: Seq<LodBlock>,
    i: int,
    chain_r: Result<(Seq<u8>, int), DatError>,
) -> Result<Seq<u8>, DatError>
    decreases lods.len() - i, 0int,
{
    match chain_r {
        Err(e) => Err(e),
        Ok((acc2, tp2)) => {
            if tp2 + 2 > d.len() {
                Err(DatError::BoundsFailure)
            } else if 0 <= i && i + 1 < lods.len() {
                tex_levels(d, base, lods, i + 1, tp2 + 2, acc2)
            } else {
                Ok(acc2)
            }
        }
    }
}

/// A texture entry's output once its table is parsed: when the first level's
/// stored offset is non-zero, that many bytes from the entry base are copied
/// verbatim as a leading raw header, then the LOD chains follow in level
/// order. An entry with no levels is empty. `tpos` is the position of the
/// level's first jump delta: the first byte after the entry header.
pub open spec fn texture_body(
    d: Seq<u8>,
    base: int,
    lods: Seq<LodBlock>,
    tpos: int,
) -> Result<Seq<u8>, DatError> {
    if lods.len() == 0 {
        Ok(Seq::empty())
    } else {
        let hn = lods[0].compressed_offset as int;
        if hn == 0 {
            tex_levels(d, base, lods, 0, tpos, Seq::empty())
        } else if base + hn <= d.len() {
            tex_levels(d, base, lods, 0, tpos, d.subrange(base, base + hn))
        } else {
            Err(DatError::BoundsFailure)
        }
    }
}

/// Texture chain traversal: a LOD level with a block count of three issues
/// exactly three block decodes — one seeded at the level's stored offset and
/// two more at positions advanced by the two intervening jump deltas — and
/// consumes exactly one more, discarded, trailing delta before the next
/// level begins.
pub proof fn lemma_texture_chain_three(
    d: Seq<u8>,
    base: int,
    lods: Seq<LodBlock>,
    i: int,
    tpos: int,
    acc: Seq<u8>,
    b0: Seq<u8>,
    b1: Seq<u8>,
    b2: Seq<u8>,
)
    requires
        0 <= i < lods.len(),
        lods[i].block_count == 3,
        0 <= tpos,
        tpos + 6 <= d.len(),
        decoded_block(d, base + lods[i].compressed_offset) == Ok::<Seq<u8>, DatError>(b0),
        base + lods[i].compressed_offset + le_i16_at(d, tpos) >= 0,
        decoded_block(d, base + lods[i].compressed_offset + le_i16_at(d, tpos)) == Ok::<
            Seq<u8>,
            DatError,
        >(b1),
        base + lods[i].compressed_offset + le_i16_at(d, tpos) + le_i16_at(d, tpos + 2) >= 0,
        decoded_block(
            d,
            base + lods[i].compressed_offset + le_i16_at(d, tpos) + le_i16_at(d, tpos + 2),
        ) == Ok::<Seq<u8>, DatError>(b2),
    ensures
        tex_levels(d, base, lods, i, tpos, acc) == tex_levels(
            d,
            base,
            lods,
            i + 1,
            tpos + 6,
            acc + b0 + b1 + b2,
        ),
{
    let start = base + lods[i].compressed_offset;
    let p1 = start + le_i16_at(d, tpos);
    let p2 = p1 + le_i16_at(d, tpos + 2);
    assert(tex_chain(d, p2, tpos + 4, 0, acc + b0 + b1 + b2) == Ok::<(Seq<u8>, int), DatError>(
        (acc + b0 + b1 + b2, tpos + 4),
    ));
    assert(tex_chain(d, p1, tpos + 2, 1, acc + b0 + b1) == Ok::<(Seq<u8>, int), DatError>(
        (acc + b0 + b1 + b2, tpos + 4),
    ));
    assert(tex_chain(d, start, tpos, 2, acc + b0) == Ok::<(Seq<u8>, int), DatError>(
        (acc + b0 + b1 + b2, tpos + 4),
    ));
    if 0 <= i && i + 1 < lods.len() {
        assert(tex_levels(d, base, lods, i, tpos, acc) == tex_levels(
            d,
            base,
            lods,
            i + 1,
            tpos + 6,
            acc + b0 + b1 + b2,
        ));
    } else {
        assert(tex_levels(d, base, lods, i, tpos, acc) == Ok::<Seq<u8>, DatError>(
            acc + b0 + b1 + b2,
        ));
    }
}

/// A texture entry's whole output: its LOD table, then the header copy and
/// the chains.
pub open spec fn texture_spec(d: Seq<u8>, off: int, size: u32) -> Result<Seq<u8>, DatError> {
    match tex_table(d, off) {
        None => Err(DatError::MalformedHeader),
        Some(lods) => texture_body(d, off + size, lods, off + 24 + 20 * lods.len()),
    }
}

} // verus!
