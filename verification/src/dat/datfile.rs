//! The archive decoder itself: a byte buffer with a cursor, the single-block
//! decoder, and the three entry reconstructors behind `read_file`.

use vstd::prelude::*;
use crate::bytes::{le_i16_at, le_u16_at, le_u32_at};
use crate::dat::inflate::inflate;
use crate::dat::shared::{
    block_end, block_header_at, decoded_block, result_view, CompressionMode, DatBlockHeader,
    DatError, FileType,
};
use crate::dat::standard::{
    standard_spec, std_block_at, std_cat, std_table, StandardBlock, StdFileBlock,
};
use crate::dat::model::{
    build_model_header, lod_edge_step, lod_index_step, lod_level_steps, lod_sections,
    lod_vertex_step, model_after_lods, model_block_at, model_body, model_spec, model_table,
    record_data_offset, run_section, section_info_u16_at, section_info_u32_at, stride_total,
    synth_model_header, LodState, ModelBlock, SectionInfo,
};
use crate::dat::tex::{
    lod_block_at, tex_after_chain, tex_chain, tex_levels, tex_table, texture_body, texture_spec,
    LodBlock, TextureBlock,
};

verus! {

/// Headroom kept between the archive length and `u64::MAX` so that every
/// position computation of the decoder (a stride jump of at most 0xFFFF, a
/// chain delta of at most 0x7FFF past a valid block start) fits in a `u64`.
pub const POSITION_HEADROOM: u64 = 0x10000;

/// An opened archive: the backing bytes, which are only ever read, and a
/// cursor, as a seekable in-memory stream.
pub struct DatFile {
    data: Vec<u8>,
    pos: u64,
}

impl View for DatFile {
    type V = Seq<u8>;

    /// The archive's backing bytes.
    closed spec fn view(&self) -> Seq<u8> {
        self.data@
    }
}

impl DatFile {
    /// The cursor position.
    pub closed spec fn cursor(self) -> u64 {
        self.pos
    }

    /// The backing buffer leaves the decoder headroom for position arithmetic.
    pub open spec fn wf(self) -> bool {
        self@.len() <= u64::MAX - POSITION_HEADROOM
    }

    /// Opens an archive over in-memory bytes. Fails only on construction —
    /// when the buffer is too large to be addressed as a stream with
    /// headroom — never on content.
    pub fn new(data: Vec<u8>) -> (r: Option<DatFile>)
        ensures
            match r {
                Some(f) => f@ == data@ && f.wf() && f.cursor() == 0,
                None => data@.len() > u64::MAX - POSITION_HEADROOM,
            },
    {
        if data.len() as u64 <= u64::MAX - POSITION_HEADROOM {
            Some(DatFile { data, pos: 0 })
        } else {
            None
        }
    }

    /// The archive length, as a stream length.
    fn stream_len(&self) -> (r: u64)
        ensures
            r == self@.len(),
    {
        self.data.len() as u64
    }

    /// The cursor position, as a stream position.
    fn position(&self) -> (r: u64)
        ensures
            r == self.cursor(),
    {
        self.pos
    }

    /// Seeks to an absolute position.
    fn set_pos(&mut self, p: u64)
        ensures
            final(self)@ == old(self)@,
            final(self).cursor() == p,
    {
        self.pos = p;
    }

    /// The 32-bit little-endian value at absolute position `p`.
    fn u32_at(&self, p: u64) -> (r: u32)
        requires
            p + 4 <= self@.len(),
        ensures
            r == le_u32_at(self@, p as int),
    {
        let n = self.data.len();
        assert(p + 4 <= n);
        let i = p as usize;
        let b0 = self.data[i] as u32;
        let b1 = self.data[i + 1] as u32;
        let b2 = self.data[i + 2] as u32;
        let b3 = self.data[i + 3] as u32;
        b0 + b1 * 0x100 + b2 * 0x10000 + b3 * 0x1000000
    }

    /// The 16-bit little-endian value at absolute position `p`.
    fn u16_at(&self, p: u64) -> (r: u16)
        requires
            p + 2 <= self@.len(),
        ensures
            r == le_u16_at(self@, p as int),
    {
        let n = self.data.len();
        assert(p + 2 <= n);
        let i = p as usize;
        let b0 = self.data[i] as u16;
        let b1 = self.data[i + 1] as u16;
        b0 + b1 * 0x100
    }

    /// The byte at absolute position `p`.
    fn u8_at(&self, p: u64) -> (r: u8)
        requires
            p + 1 <= self@.len(),
        ensures
            r == self@[p as int],
    {
        let n = self.data.len();
        assert(p + 1 <= n);
        self.data[p as usize]
    }

    /// Reads the 16-byte block header at absolute position `p` without
    /// consuming it: the cursor stays where it was, so a caller can still
    /// derive the payload start (16 bytes past `p`) itself.
    pub fn block_header(&self, p: u64) -> (r: Result<DatBlockHeader, DatError>)
        requires
            self.wf(),
        ensures
            match r {
                Ok(h) => p + 16 <= self@.len() && h == block_header_at(self@, p as int),
                Err(e) => e == DatError::MalformedHeader && p + 16 > self@.len(),
            },
    {
        let n = self.stream_len();
        if p > n || n - p < 16 {
            return Err(DatError::MalformedHeader);
        }
        Ok(
            DatBlockHeader {
                size: self.u32_at(p),
                compression: CompressionMode::classify(self.u32_at(p + 8), self.u32_at(p + 12)),
            },
        )
    }

    /// Reads the signed 16-bit little-endian value at the cursor and advances
    /// past it. Fails when it runs past the end of the buffer.
    fn read_i16(&mut self) -> (r: Result<i64, DatError>)
        ensures
            final(self)@ == old(self)@,
            if old(self).cursor() + 2 <= old(self)@.len() {
                r == Ok::<i64, DatError>(le_i16_at(old(self)@, old(self).cursor() as int) as i64)
                    && final(self).cursor() == old(self).cursor() + 2
            } else {
                r == Err::<i64, DatError>(DatError::BoundsFailure)
                    && final(self).cursor() == old(self).cursor()
            },
    {
        let n = self.stream_len();
        if self.pos > n || n - self.pos < 2 {
            return Err(DatError::BoundsFailure);
        }
        let v = self.u16_at(self.pos);
        self.pos = self.pos + 2;
        if v < 0x8000 {
            Ok(v as i64)
        } else {
            Ok(v as i64 - 0x10000)
        }
    }

    /// Parses the block table of the standard entry at `off`.
    fn parse_standard_table(&mut self, off: u64) -> (r: Result<StandardBlock, DatError>)
        requires
            old(self).wf(),
            off <= u32::MAX,
        ensures
            final(self).wf(),
            final(self)@ == old(self)@,
            match r {
                Ok(t) => std_table(old(self)@, off as int) == Some(t.blocks@) && t.num_blocks
                    == t.blocks@.len(),
                Err(e) => e == DatError::MalformedHeader && std_table(
                    old(self)@,
                    off as int,
                ) is None,
            },
    {
        let n = self.stream_len();
        if off > n || n - off < 24 {
            return Err(DatError::MalformedHeader);
        }
        let num = self.u32_at(off + 20);
        if 8 * (num as u64) > n - (off + 24) {
            return Err(DatError::MalformedHeader);
        }
        let ghost d = self@;
        let mut t: Vec<StdFileBlock> = Vec::new();
        let mut i: u32 = 0;
        while i < num
            invariant
                self.wf(),
                self@ == d,
                off <= u32::MAX,
                i <= num,
                off + 24 + 8 * num <= d.len(),
                t@.len() == i,
                forall|j: int|
                    0 <= j < i ==> t@[j] == std_block_at(d, off + 24 + 8 * j),
            decreases num - i,
        {
            let p = off + 24 + 8 * (i as u64);
            let b = StdFileBlock {
                offset: self.u32_at(p),
                compressed_size: self.u16_at(p + 4),
                uncompressed_size: self.u16_at(p + 6),
            };
            t.push(b);
            i = i + 1;
        }
        assert(t@ =~= Seq::new(num as nat, |j: int| std_block_at(d, off + 24 + 8 * j)));
        Ok(StandardBlock { num_blocks: num, blocks: t })
    }

    /// Reconstructs a standard entry: decodes each block of its table at the
    /// entry base plus the block's relative offset, restoring the cursor
    /// around each decode, and concatenates the results in table order.
    fn read_standard_file(&mut self, off: u64, size: u32, blocks: &Vec<StdFileBlock>) -> (r:
        Result<Vec<u8>, DatError>)
        requires
            old(self).wf(),
            off <= u32::MAX,
        ensures
            final(self).wf(),
            final(self)@ == old(self)@,
            result_view(r) == std_cat(
                old(self)@,
                off + size,
                blocks@,
                0,
                Seq::<u8>::empty(),
            ),
    {
        let ghost d = old(self)@;
        let base = off + size as u64;
        let mut out: Vec<u8> = Vec::new();
        let mut i: usize = 0;
        while i < blocks.len()
            invariant
                self.wf(),
                self@ == d,
                d == old(self)@,
                base == off + size,
                base <= u32::MAX as u64 + u32::MAX as u64,
                i <= blocks@.len(),
                std_cat(d, base as int, blocks@, 0, Seq::<u8>::empty()) == std_cat(
                    d,
                    base as int,
                    blocks@,
                    i as int,
                    out@,
                ),
            decreases blocks@.len() - i,
        {
            let p = base + blocks[i].offset as u64;
            match read_data_block(self, p, true) {
                Ok(mut blk) => {
                    assert(std_cat(d, base as int, blocks@, i as int, out@) == std_cat(
                        d,
                        base as int,
                        blocks@,
                        i + 1,
                        out@ + blk@,
                    ));
                    out.append(&mut blk);
                    i = i + 1;
                }
                Err(e) => {
                    assert(std_cat(d, base as int, blocks@, i as int, out@) == Err::<
                        Seq<u8>,
                        DatError,
                    >(e));
                    return Err(e);
                }
            }
        }
        Ok(out)
    }

    /// Parses the LOD table of the texture entry at `off` and leaves the
    /// cursor at the first byte after it, where the jump-delta stream of the
    /// block chains begins.
    fn parse_texture_table(&mut self, off: u64) -> (r: Result<TextureBlock, DatError>)
        requires
            old(self).wf(),
            off <= u32::MAX,
        ensures
            final(self).wf(),
            final(self)@ == old(self)@,
            match r {
                Ok(t) => tex_table(old(self)@, off as int) == Some(t.lods@) && t.num_blocks
                    == t.lods@.len() && final(self).cursor() as int == off + 24 + 20 * t.lods@.len(),
                Err(e) => e == DatError::MalformedHeader && tex_table(
                    old(self)@,
                    off as int,
                ) is None,
            },
    {
        let n = self.stream_len();
        if off > n || n - off < 24 {
            return Err(DatError::MalformedHeader);
        }
        let num = self.u32_at(off + 20);
        if 20 * (num as u64) > n - (off + 24) {
            return Err(DatError::MalformedHeader);
        }
        let ghost d = self@;
        let mut t: Vec<LodBlock> = Vec::new();
        let mut i: u32 = 0;
        while i < num
            invariant
                self.wf(),
                self@ == d,
                off <= u32::MAX,
                i <= num,
                off + 24 + 20 * num <= d.len(),
                t@.len() == i,
                forall|j: int|
                    0 <= j < i ==> t@[j] == lod_block_at(d, off + 24 + 20 * j),
            decreases num - i,
        {
            let p = off + 24 + 20 * (i as u64);
            let b = LodBlock {
                compressed_offset: self.u32_at(p),
                compressed_size: self.u32_at(p + 4),
                decompressed_size: self.u32_at(p + 8),
                block_offset: self.u32_at(p + 12),
                block_count: self.u32_at(p + 16),
            };
            t.push(b);
            i = i + 1;
        }
        assert(t@ =~= Seq::new(num as nat, |j: int| lod_block_at(d, off + 24 + 20 * j)));
        self.set_pos(off + 24 + 20 * (num as u64));
        Ok(TextureBlock { num_blocks: num, lods: t })
    }

    /// Reconstructs a texture entry: copies the optional leading raw header,
    /// then walks each LOD level's block chain. The first block of a level
    /// sits at the entry base plus the level's stored offset; each further
    /// block's position is the previous one plus a signed 16-bit delta read
    /// from the stream left standing after the entry header; one trailing
    /// delta per level is read and discarded. Every block decode restores
    /// the cursor, so the deltas are consumed in sequence.
    #[verifier::rlimit(50)]
    fn read_texture_file(&mut self, off: u64, size: u32, lods: &Vec<LodBlock>) -> (r: Result<
        Vec<u8>,
        DatError,
    >)
        requires
            old(self).wf(),
            off <= u32::MAX,
        ensures
            final(self).wf(),
            final(self)@ == old(self)@,
            result_view(r) == texture_body(
                old(self)@,
                off + size,
                lods@,
                old(self).cursor() as int,
            ),
    {
        let ghost d = old(self)@;
        let base = off + size as u64;
        if lods.len() == 0 {
            return Ok(Vec::new());
        }
        let mut out: Vec<u8> = Vec::new();
        let hn = lods[0].compressed_offset;
        if hn != 0 {
            let original = self.position();
            self.set_pos(base);
            match self.read_bytes(hn) {
                Ok(mut h) => {
                    out.append(&mut h);
                    self.set_pos(original);
                }
                Err(e) => {
                    return Err(e);
                }
            }
        }
        let ghost tpos0 = old(self).cursor() as int;
        let ghost acc0 = out@;
        let ghost goal = texture_body(d, off + size, lods@, tpos0);
        assert(goal == tex_levels(d, base as int, lods@, 0, tpos0, acc0));
        let mut i: usize = 0;
        while i < lods.len()
            invariant
                self.wf(),
                self@ == d,
                d == old(self)@,
                base == off + size,
                off <= u32::MAX,
                i <= lods@.len(),
                tpos0 == old(self).cursor() as int,
                goal == texture_body(d, off + size, lods@, tpos0),
                goal == tex_levels(d, base as int, lods@, i as int, self.cursor() as int, out@),
            decreases lods@.len() - i,
        {
            let lb = lods[i];
            let start = base + lb.compressed_offset as u64;
            let ghost tpos_i = self.cursor() as int;
            let ghost out_i = out@;
            match read_data_block(self, start, true) {
                Err(e) => {
                    assert(tex_levels(d, base as int, lods@, i as int, tpos_i, out_i) == Err::<
                        Seq<u8>,
                        DatError,
                    >(e));
                    return Err(e);
                }
                Ok(mut b) => {
                    out.append(&mut b);
                }
            }
            assert(goal == tex_after_chain(
                d,
                base as int,
                lods@,
                i as int,
                tex_chain(d, start as int, tpos_i, lb.block_count - 1, out@),
            ));
            let mut k: u32 = 1;
            let mut chain_pos = start;
            assert(decoded_block(d, chain_pos as int) is Ok);
            while k < lb.block_count
                invariant
                    self.wf(),
                    self@ == d,
                    d == old(self)@,
                    1 <= k,
                    i < lods@.len(),
                    chain_pos + 16 <= d.len(),
                    tpos0 == old(self).cursor() as int,
                    goal == texture_body(d, off + size, lods@, tpos0),
                    goal == tex_after_chain(
                        d,
                        base as int,
                        lods@,
                        i as int,
                        tex_chain(
                            d,
                            chain_pos as int,
                            self.cursor() as int,
                            lb.block_count - k,
                            out@,
                        ),
                    ),
                decreases lb.block_count - k,
            {
                let ghost tcur = self.cursor() as int;
                let ghost out_k = out@;
                let ghost cp_k = chain_pos as int;
                let ghost rem = lb.block_count - k;
                match self.read_i16() {
                    Err(e) => {
                        assert(tex_chain(d, cp_k, tcur, rem, out_k) == Err::<
                            (Seq<u8>, int),
                            DatError,
                        >(e));
                        return Err(e);
                    }
                    Ok(delta) => {
                        if delta >= 0 {
                            chain_pos = chain_pos + delta as u64;
                        } else {
                            let m = (-delta) as u64;
                            if chain_pos < m {
                                assert(tex_chain(d, cp_k, tcur, rem, out_k) == Err::<
                                    (Seq<u8>, int),
                                    DatError,
                                >(DatError::BoundsFailure));
                                return Err(DatError::BoundsFailure);
                            }
                            chain_pos = chain_pos - m;
                        }
                        assert(chain_pos as int == cp_k + le_i16_at(d, tcur));
                        match read_data_block(self, chain_pos, true) {
                            Err(e) => {
                                assert(tex_chain(d, cp_k, tcur, rem, out_k) == Err::<
                                    (Seq<u8>, int),
                                    DatError,
                                >(e));
                                return Err(e);
                            }
                            Ok(mut b2) => {
                                out.append(&mut b2);
                                k = k + 1;
                                assert(tex_chain(d, cp_k, tcur, rem, out_k) == tex_chain(
                                    d,
                                    chain_pos as int,
                                    self.cursor() as int,
                                    lb.block_count - k,
                                    out@,
                                ));
                            }
                        }
                    }
                }
            }
            assert(tex_chain(d, chain_pos as int, self.cursor() as int, lb.block_count - k, out@)
                == Ok::<(Seq<u8>, int), DatError>((out@, self.cursor() as int)));
            let ghost tp2 = self.cursor() as int;
            match self.read_i16() {
                Err(e) => {
                    assert(e == DatError::BoundsFailure && tp2 + 2 > d.len());
                    assert(goal == Err::<Seq<u8>, DatError>(e));
                    return Err(e);
                }
                Ok(_) => {}
            }
            i = i + 1;
            assert(goal == tex_levels(d, base as int, lods@, i as int, self.cursor() as int, out@));
        }
        Ok(out)
    }

    /// Reads and reconstructs the entry whose header starts at `offset`.
    ///
    /// The entry's kind selects the reconstructor: a standard entry's blocks
    /// are concatenated in table order; a texture entry's per-LOD block
    /// chains follow an optional verbatim header copy; a model entry's
    /// sections are decoded through its stride table and a synthesized
    /// 68-byte header is prepended. The archive bytes are never changed, and
    /// the result is exactly `read_file_spec` of those bytes and the offset:
    /// the same archive and offset always yield the same result. An entry of
    /// `Empty` or unrecognized kind, a header that cannot be parsed, a seek
    /// or read outside the archive, and a failed decompression each yield
    /// their error and no output.
    pub fn read_file(&mut self, offset: u32) -> (r: Result<Vec<u8>, DatError>)
        requires
            old(self).wf(),
        ensures
            final(self).wf(),
            final(self)@ == old(self)@,
            result_view(r) == read_file_spec(old(self)@, offset),
    {
        let off = offset as u64;
        let n = self.stream_len();
        if off > n || n - off < 12 {
            return Err(DatError::MalformedHeader);
        }
        let size = self.u32_at(off);
        let kind_code = self.u32_at(off + 4);
        match FileType::from_code(kind_code) {
            Some(FileType::Standard) => {
                match self.parse_standard_table(off) {
                    Err(e) => Err(e),
                    Ok(table) => self.read_standard_file(off, size, &table.blocks),
                }
            }
            Some(FileType::Texture) => {
                match self.parse_texture_table(off) {
                    Err(e) => Err(e),
                    Ok(table) => self.read_texture_file(off, size, &table.lods),
                }
            }
            Some(FileType::Model) => {
                match self.parse_model_block(off) {
                    Err(e) => Err(e),
                    Ok(mb) => self.read_model_file(off, size, &mb),
                }
            }
            _ => Err(DatError::InvalidEntryKind),
        }
    }

    /// Parses a group of eleven 32-bit per-section values at position `p`.
    fn parse_section_u32(&self, p: u64) -> (r: SectionInfo<u32>)
        requires
            self.wf(),
            p + 44 <= self@.len(),
        ensures
            r == section_info_u32_at(self@, p as int),
    {
        SectionInfo {
            stack_size: self.u32_at(p),
            runtime_size: self.u32_at(p + 4),
            vertex0: self.u32_at(p + 8),
            vertex1: self.u32_at(p + 12),
            vertex2: self.u32_at(p + 16),
            edge0: self.u32_at(p + 20),
            edge1: self.u32_at(p + 24),
            edge2: self.u32_at(p + 28),
            index0: self.u32_at(p + 32),
            index1: self.u32_at(p + 36),
            index2: self.u32_at(p + 40),
        }
    }

    /// Parses a group of eleven 16-bit per-section values at position `p`.
    fn parse_section_u16(&self, p: u64) -> (r: SectionInfo<u16>)
        requires
            self.wf(),
            p + 22 <= self@.len(),
        ensures
            r == section_info_u16_at(self@, p as int),
    {
        SectionInfo {
            stack_size: self.u16_at(p),
            runtime_size: self.u16_at(p + 2),
            vertex0: self.u16_at(p + 4),
            vertex1: self.u16_at(p + 6),
            vertex2: self.u16_at(p + 8),
            edge0: self.u16_at(p + 10),
            edge1: self.u16_at(p + 12),
            edge2: self.u16_at(p + 14),
            index0: self.u16_at(p + 16),
            index1: self.u16_at(p + 18),
            index2: self.u16_at(p + 20),
        }
    }

    /// Parses the fixed 208-byte header of the model entry at `off`.
    fn parse_model_block(&mut self, off: u64) -> (r: Result<ModelBlock, DatError>)
        requires
            old(self).wf(),
            off <= u32::MAX,
        ensures
            final(self).wf(),
            final(self)@ == old(self)@,
            match r {
                Ok(mb) => model_table(old(self)@, off as int) == Some(mb),
                Err(e) => e == DatError::MalformedHeader && model_table(
                    old(self)@,
                    off as int,
                ) is None,
            },
    {
        let n = self.stream_len();
        if off > n || n - off < 208 {
            return Err(DatError::MalformedHeader);
        }
        let mb = ModelBlock {
            num_blocks: self.u32_at(off + 12),
            num_used_blocks: self.u32_at(off + 16),
            version: self.u32_at(off + 20),
            uncompressed_size: self.parse_section_u32(off + 24),
            compressed_size: self.parse_section_u32(off + 68),
            offset: self.parse_section_u32(off + 112),
            index: self.parse_section_u16(off + 156),
            num: self.parse_section_u16(off + 178),
            vertex_dec_num: self.u16_at(off + 200),
            material_num: self.u16_at(off + 202),
            num_lods: self.u8_at(off + 204),
            index_buffer_streaming_enabled: self.u8_at(off + 205) != 0,
            edge_geometry_enabled: self.u8_at(off + 206) != 0,
        };
        assert(mb == model_block_at(self@, off as int));
        Ok(mb)
    }

    /// Reads the model entry's flat stride table: `total` 16-bit values
    /// starting at `tpos`.
    fn read_strides(&mut self, tpos: u64, total: u64) -> (r: Result<Vec<u16>, DatError>)
        requires
            old(self).wf(),
            tpos + 2 * total <= u64::MAX,
        ensures
            final(self).wf(),
            final(self)@ == old(self)@,
            match r {
                Ok(v) => tpos + 2 * total <= old(self)@.len() && v@ == Seq::new(
                    total as nat,
                    |k: int| le_u16_at(old(self)@, tpos + 2 * k),
                ),
                Err(e) => e == DatError::BoundsFailure && tpos + 2 * total > old(self)@.len(),
            },
    {
        let n = self.stream_len();
        if tpos > n || n - tpos < 2 * total {
            return Err(DatError::BoundsFailure);
        }
        let ghost d = self@;
        let mut v: Vec<u16> = Vec::new();
        let mut k: u64 = 0;
        while k < total
            invariant
                self.wf(),
                self@ == d,
                k <= total,
                tpos + 2 * total <= d.len(),
                v@.len() == k,
                forall|j: int| 0 <= j < k ==> v@[j] == le_u16_at(d, tpos + 2 * j),
            decreases total - k,
        {
            v.push(self.u16_at(tpos + 2 * k));
            k = k + 1;
        }
        assert(v@ =~= Seq::new(total as nat, |j: int| le_u16_at(d, tpos + 2 * j)));
        Ok(v)
    }

    /// Decodes one model section: seeks to `start`, then decodes `count`
    /// blocks sequentially, jumping from each block's start to the next with
    /// the stride-table value at the shared cursor `cur`, and appends their
    /// bytes to `out`. Returns the advanced cursor.
    fn decode_section(
        &mut self,
        strides: &Vec<u16>,
        start: u64,
        cur: usize,
        count: u16,
        out: &mut Vec<u8>,
    ) -> (r: Result<usize, DatError>)
        requires
            old(self).wf(),
            cur <= strides@.len(),
        ensures
            final(self).wf(),
            final(self)@ == old(self)@,
            match r {
                Ok(c2) => run_section(
                    old(self)@,
                    strides@,
                    start as int,
                    cur as int,
                    count as int,
                    old(out)@,
                ) == Ok::<(Seq<u8>, int, int), DatError>(
                    (final(out)@, final(self).cursor() as int, c2 as int),
                ) && c2 <= strides@.len() && final(out)@.len() >= old(out)@.len(),
                Err(e) => run_section(
                    old(self)@,
                    strides@,
                    start as int,
                    cur as int,
                    count as int,
                    old(out)@,
                ) == Err::<(Seq<u8>, int, int), DatError>(e),
            },
    {
        let ghost d = old(self)@;
        let ghost o0 = old(out)@;
        self.set_pos(start);
        let mut pos = start;
        let mut c = cur;
        let mut k: u16 = 0;
        while k < count
            invariant
                self.wf(),
                self@ == d,
                d == old(self)@,
                o0 == old(out)@,
                k <= count,
                c <= strides@.len(),
                out@.len() >= o0.len(),
                self.cursor() == pos,
                run_section(d, strides@, start as int, cur as int, count as int, o0)
                    == run_section(d, strides@, pos as int, c as int, count - k, out@),
            decreases count - k,
        {
            let ghost pos_k = pos as int;
            let ghost out_k = out@;
            let ghost c_k = c as int;
            let ghost rem = count - k;
            match read_data_block(self, pos, false) {
                Err(e) => {
                    assert(run_section(d, strides@, pos_k, c_k, rem as int, out_k) == Err::<
                        (Seq<u8>, int, int),
                        DatError,
                    >(e));
                    return Err(e);
                }
                Ok(mut b) => {
                    out.append(&mut b);
                    if c >= strides.len() {
                        assert(run_section(d, strides@, pos_k, c_k, rem as int, out_k) == Err::<
                            (Seq<u8>, int, int),
                            DatError,
                        >(DatError::MalformedHeader));
                        return Err(DatError::MalformedHeader);
                    }
                    assert(pos + 16 <= d.len());
                    let stride = strides[c];
                    pos = pos + stride as u64;
                    self.set_pos(pos);
                    c = c + 1;
                    k = k + 1;
                    assert(run_section(d, strides@, pos_k, c_k, rem as int, out_k) == run_section(
                        d,
                        strides@,
                        pos as int,
                        c as int,
                        count - k,
                        out@,
                    ));
                }
            }
        }
        Ok(c)
    }


    /// Decodes the vertex, edge and index sections of LOD level `i`, in that
    /// order, recording the level's vertex and index data offsets and byte
    /// totals. Returns the advanced stride-table cursor.
    #[verifier::rlimit(100)]
    fn decode_lod_level(
        &mut self,
        strides: &Vec<u16>,
        mb: &ModelBlock,
        base: u64,
        i: usize,
        cur: usize,
        out: &mut Vec<u8>,
        vdo: &mut [i32; 3],
        ido: &mut [i32; 3],
        vbs: &mut [usize; 3],
        ibs: &mut [usize; 3],
    ) -> (r: Result<usize, DatError>)
        requires
            old(self).wf(),
            i < 3,
            cur <= strides@.len(),
            base <= 0x2_0000_0000,
        ensures
            final(self).wf(),
            final(self)@ == old(self)@,
            ({
                let st_in = LodState {
                    out: old(out)@,
                    pos: old(self).cursor() as int,
                    cur: cur as int,
                    vdo: old(vdo)@,
                    ido: old(ido)@,
                    vbs: seq![old(vbs)@[0] as int, old(vbs)@[1] as int, old(vbs)@[2] as int],
                    ibs: seq![old(ibs)@[0] as int, old(ibs)@[1] as int, old(ibs)@[2] as int],
                };
                match r {
                    Ok(c2) => lod_level_steps(
                        old(self)@,
                        strides@,
                        *mb,
                        base as int,
                        i as int,
                        st_in,
                    ) == Ok::<LodState, DatError>(
                        LodState {
                            out: final(out)@,
                            pos: final(self).cursor() as int,
                            cur: c2 as int,
                            vdo: final(vdo)@,
                            ido: final(ido)@,
                            vbs: seq![
                                final(vbs)@[0] as int,
                                final(vbs)@[1] as int,
                                final(vbs)@[2] as int,
                            ],
                            ibs: seq![
                                final(ibs)@[0] as int,
                                final(ibs)@[1] as int,
                                final(ibs)@[2] as int,
                            ],
                        },
                    ) && c2 <= strides@.len(),
                    Err(e) => lod_level_steps(
                        old(self)@,
                        strides@,
                        *mb,
                        base as int,
                        i as int,
                        st_in,
                    ) == Err::<LodState, DatError>(e),
                }
            }),
    {
        let ghost d = old(self)@;
        let ghost sseq = strides@;
        let ghost st_in = LodState {
            out: out@,
            pos: self.cursor() as int,
            cur: cur as int,
            vdo: vdo@,
            ido: ido@,
            vbs: seq![vbs@[0] as int, vbs@[1] as int, vbs@[2] as int],
            ibs: seq![ibs@[0] as int, ibs@[1] as int, ibs@[2] as int],
        };
        let ghost mut gst = st_in;
        let mut cur = cur;
            // vertex section
            let vc = mb.num.vertex(i);
            if vc != 0 {
                let prev: i32 = if i > 0 {
                    vdo[i - 1]
                } else {
                    0
                };
                let rec = record_data_offset(i, out.len(), prev);
                vdo[i] = rec;
                let before = out.len();
                let start = base + mb.offset.vertex(i) as u64;
                match self.decode_section(strides, start, cur, vc, out) {
                    Err(e) => {
                        assert(lod_vertex_step(d, sseq, *mb, base as int, i as int, st_in)
                            == Err::<LodState, DatError>(e));
                        return Err(e);
                    }
                    Ok(c) => {
                        cur = c;
                    }
                }
                vbs[i] = out.len() - before;
                proof {
                    gst = LodState {
                        vdo: gst.vdo.update(i as int, rec),
                        vbs: gst.vbs.update(i as int, out@.len() - gst.out.len()),
                        out: out@,
                        pos: self.cursor() as int,
                        cur: cur as int,
                        ..gst
                    };
                    assert(lod_vertex_step(d, sseq, *mb, base as int, i as int, st_in) == Ok::<
                        LodState,
                        DatError,
                    >(gst));
                    assert(gst.vbs =~= seq![vbs@[0] as int, vbs@[1] as int, vbs@[2] as int]);
                }
            } else {
                assert(lod_vertex_step(d, sseq, *mb, base as int, i as int, st_in) == Ok::<
                    LodState,
                    DatError,
                >(gst));
            }
            let ghost gst1 = gst;
            // edge section
            let ec = mb.num.edge(i);
            if ec != 0 {
                let start = self.position();
                match self.decode_section(strides, start, cur, ec, out) {
                    Err(e) => {
                        assert(lod_edge_step(d, sseq, *mb, i as int, gst1) == Err::<
                            LodState,
                            DatError,
                        >(e));
                        return Err(e);
                    }
                    Ok(c) => {
                        cur = c;
                    }
                }
                proof {
                    gst = LodState { out: out@, pos: self.cursor() as int, cur: cur as int, ..gst };
                    assert(lod_edge_step(d, sseq, *mb, i as int, gst1) == Ok::<
                        LodState,
                        DatError,
                    >(gst));
                }
            } else {
                assert(lod_edge_step(d, sseq, *mb, i as int, gst1) == Ok::<LodState, DatError>(
                    gst,
                ));
            }
            let ghost gst2 = gst;
            // index section
            let ic = mb.num.index(i);
            if ic != 0 {
                let prev: i32 = if i > 0 {
                    ido[i - 1]
                } else {
                    0
                };
                let rec = record_data_offset(i, out.len(), prev);
                ido[i] = rec;
                let before = out.len();
                let start = self.position();
                match self.decode_section(strides, start, cur, ic, out) {
                    Err(e) => {
                        assert(lod_index_step(d, sseq, *mb, i as int, gst2) == Err::<
                            LodState,
                            DatError,
                        >(e));
                        return Err(e);
                    }
                    Ok(c) => {
                        cur = c;
                    }
                }
                ibs[i] = out.len() - before;
                proof {
                    gst = LodState {
                        ido: gst.ido.update(i as int, rec),
                        ibs: gst.ibs.update(i as int, out@.len() - gst.out.len()),
                        out: out@,
                        pos: self.cursor() as int,
                        cur: cur as int,
                        ..gst
                    };
                    assert(lod_index_step(d, sseq, *mb, i as int, gst2) == Ok::<
                        LodState,
                        DatError,
                    >(gst));
                    assert(gst.ibs =~= seq![ibs@[0] as int, ibs@[1] as int, ibs@[2] as int]);
                }
            } else {
                assert(lod_index_step(d, sseq, *mb, i as int, gst2) == Ok::<LodState, DatError>(
                    gst,
                ));
            }
            assert(lod_sections(d, sseq, *mb, base as int, i as int, st_in) == lod_sections(
                d,
                sseq,
                *mb,
                base as int,
                i + 1,
                gst,
            ));
        assert(lod_level_steps(d, sseq, *mb, base as int, i as int, st_in) == Ok::<
            LodState,
            DatError,
        >(gst));
        Ok(cur)
    }

    /// Reconstructs a model entry: reads the flat stride table that follows
    /// the entry header, decodes the stack and runtime sections and the
    /// per-LOD vertex, edge and index sections with one shared stride-table
    /// cursor, and prepends the 68-byte header synthesized from the decoded
    /// layout.
    #[verifier::rlimit(100)]
    fn read_model_file(&mut self, off: u64, size: u32, mb: &ModelBlock) -> (r: Result<
        Vec<u8>,
        DatError,
    >)
        requires
            old(self).wf(),
            off <= u32::MAX,
        ensures
            final(self).wf(),
            final(self)@ == old(self)@,
            result_view(r) == model_body(old(self)@, off as int, size, *mb),
    {
        let ghost d = old(self)@;
        let base = off + size as u64;
        let mut total: u64 = mb.num_blocks as u64;
        total = total + mb.num.runtime_size as u64;
        total = total + mb.num.vertex0 as u64 + mb.num.vertex1 as u64 + mb.num.vertex2 as u64;
        total = total + mb.num.edge0 as u64 + mb.num.edge1 as u64 + mb.num.edge2 as u64;
        total = total + mb.num.index0 as u64 + mb.num.index1 as u64 + mb.num.index2 as u64;
        assert(total as int == stride_total(*mb));
        let tpos = off + 208;
        let strides = match self.read_strides(tpos, total) {
            Ok(v) => v,
            Err(e) => {
                return Err(e);
            }
        };
        let ghost sseq = strides@;
        proof {
            assert(sseq =~= Seq::new(
                stride_total(*mb) as nat,
                |k: int| le_u16_at(d, off + 208 + 2 * k),
            ));
        }
        let mut out: Vec<u8> = Vec::new();
        let cur1 = match self.decode_section(
            &strides,
            base + mb.offset.stack_size as u64,
            0,
            mb.num.stack_size,
            &mut out,
        ) {
            Ok(c) => c,
            Err(e) => {
                return Err(e);
            }
        };
        let stack_len = out.len();
        let cur2 = match self.decode_section(
            &strides,
            base + mb.offset.runtime_size as u64,
            cur1,
            mb.num.runtime_size,
            &mut out,
        ) {
            Ok(c) => c,
            Err(e) => {
                return Err(e);
            }
        };
        let runtime_len = out.len() - stack_len;
        let ghost st0 = LodState {
            out: out@,
            pos: self.cursor() as int,
            cur: cur2 as int,
            vdo: seq![0i32, 0i32, 0i32],
            ido: seq![0i32, 0i32, 0i32],
            vbs: seq![0int, 0int, 0int],
            ibs: seq![0int, 0int, 0int],
        };
        let ghost goal = model_body(d, off as int, size, *mb);
        assert(goal == model_after_lods(
            *mb,
            stack_len as int,
            runtime_len as int,
            lod_sections(d, sseq, *mb, base as int, 0, st0),
        ));
        let mut cur = cur2;
        let mut vdo: [i32; 3] = [0, 0, 0];
        let mut ido: [i32; 3] = [0, 0, 0];
        let mut vbs: [usize; 3] = [0, 0, 0];
        let mut ibs: [usize; 3] = [0, 0, 0];
        let ghost mut gst = st0;
        let mut i: usize = 0;
        while i < 3
            invariant
                self.wf(),
                self@ == d,
                d == old(self)@,
                base == off + size,
                off <= u32::MAX,
                i <= 3,
                cur <= sseq.len(),
                sseq == strides@,
                goal == model_body(d, off as int, size, *mb),
                goal == model_after_lods(
                    *mb,
                    stack_len as int,
                    runtime_len as int,
                    lod_sections(d, sseq, *mb, base as int, i as int, gst),
                ),
                gst.out == out@,
                gst.pos == self.cursor() as int,
                gst.cur == cur as int,
                gst.vdo == vdo@,
                gst.ido == ido@,
                gst.vbs == seq![vbs@[0] as int, vbs@[1] as int, vbs@[2] as int],
                gst.ibs == seq![ibs@[0] as int, ibs@[1] as int, ibs@[2] as int],
            decreases 3 - i,
        {
            let ghost gst_in = gst;
            let c2 = match self.decode_lod_level(
                &strides,
                mb,
                base,
                i,
                cur,
                &mut out,
                &mut vdo,
                &mut ido,
                &mut vbs,
                &mut ibs,
            ) {
                Err(e) => {
                    assert(lod_sections(d, sseq, *mb, base as int, i as int, gst_in) == Err::<
                        LodState,
                        DatError,
                    >(e));
                    return Err(e);
                }
                Ok(c) => c,
            };
            cur = c2;
            proof {
                gst = LodState {
                    out: out@,
                    pos: self.cursor() as int,
                    cur: cur as int,
                    vdo: vdo@,
                    ido: ido@,
                    vbs: seq![vbs@[0] as int, vbs@[1] as int, vbs@[2] as int],
                    ibs: seq![ibs@[0] as int, ibs@[1] as int, ibs@[2] as int],
                };
                assert(lod_level_steps(d, sseq, *mb, base as int, i as int, gst_in) == Ok::<
                    LodState,
                    DatError,
                >(gst));
                assert(lod_sections(d, sseq, *mb, base as int, i as int, gst_in) == lod_sections(
                    d,
                    sseq,
                    *mb,
                    base as int,
                    i + 1,
                    gst,
                ));
            }
            i = i + 1;
        }
        assert(lod_sections(d, sseq, *mb, base as int, i as int, gst) == Ok::<
            LodState,
            DatError,
        >(gst));
        let mut hdr = build_model_header(mb, stack_len, runtime_len, &vdo, &ido, &vbs, &ibs);
        assert(hdr@ == synth_model_header(*mb, stack_len as int, runtime_len as int, gst));
        hdr.append(&mut out);
        Ok(hdr)
    }

    /// Reads `n` bytes at the cursor and advances past them. Fails when the
    /// read runs past the end of the buffer, leaving the cursor in place.
    fn read_bytes(&mut self, n: u32) -> (r: Result<Vec<u8>, DatError>)
        ensures
            final(self)@ == old(self)@,
            if old(self).cursor() + n <= old(self)@.len() {
                r matches Ok(v) && v@ == old(self)@.subrange(
                    old(self).cursor() as int,
                    old(self).cursor() + n,
                ) && final(self).cursor() == old(self).cursor() + n
            } else {
                r == Err::<Vec<u8>, DatError>(DatError::BoundsFailure)
                    && final(self).cursor() == old(self).cursor()
            },
    {
        let len_us = self.data.len();
        let len = self.stream_len();
        if self.pos > len || len - self.pos < n as u64 {
            return Err(DatError::BoundsFailure);
        }
        assert(self.pos + n <= len_us);
        let start = self.pos as usize;
        let count = n as usize;
        let mut v: Vec<u8> = Vec::new();
        let mut i: usize = 0;
        while i < count
            invariant
                start + count <= self.data@.len(),
                self.data@.len() <= usize::MAX,
                i <= count,
                v@ == self.data@.subrange(start as int, start + i),
            decreases count - i,
        {
            v.push(self.data[start + i]);
            assert(v@ =~= self.data@.subrange(start as int, start + i + 1));
            i = i + 1;
        }
        self.pos = self.pos + n as u64;
        Ok(v)
    }
}

/// Decodes exactly one block at absolute position `starting_position`.
///
/// Reads the 16-byte block header there, classifies its compression mode,
/// reads the payload, and inflates it when compressed. When `reset_pos` is
/// set, the cursor is restored to where it stood before the call; otherwise
/// it is left just past the block's stored payload. On failure the cursor is
/// unspecified; the caller abandons the decode.
pub fn read_data_block(file: &mut DatFile, starting_position: u64, reset_pos: bool) -> (r: Result<
    Vec<u8>,
    DatError,
>)
    requires
        old(file).wf(),
    ensures
        final(file).wf(),
        final(file)@ == old(file)@,
        match r {
            Ok(v) => Ok::<Seq<u8>, DatError>(v@) == decoded_block(
                old(file)@,
                starting_position as int,
            ) && (reset_pos ==> final(file).cursor() == old(file).cursor()) && (!reset_pos
                ==> final(file).cursor() as int == block_end(old(file)@, starting_position as int)),
            Err(e) => Err::<Seq<u8>, DatError>(e) == decoded_block(
                old(file)@,
                starting_position as int,
            ),
        },
{
    let original_pos = file.position();
    let n = file.stream_len();
    if starting_position > n || n - starting_position < 16 {
        return Err(DatError::MalformedHeader);
    }
    let x = file.u32_at(starting_position + 8);
    let y = file.u32_at(starting_position + 12);
    match CompressionMode::classify(x, y) {
        CompressionMode::Uncompressed { file_size } => {
            file.set_pos(starting_position + 16);
            match file.read_bytes(file_size) {
                Ok(v) => {
                    if reset_pos {
                        file.set_pos(original_pos);
                    }
                    Ok(v)
                }
                Err(e) => Err(e),
            }
        }
        CompressionMode::Compressed { compressed_length, decompressed_length } => {
            file.set_pos(starting_position + 16);
            match file.read_bytes(compressed_length) {
                Ok(compressed) => {
                    match inflate(&compressed, decompressed_length) {
                        Some(v) => {
                            if reset_pos {
                                file.set_pos(original_pos);
                            }
                            Ok(v)
                        }
                        None => Err(DatError::DecompressionFailure),
                    }
                }
                Err(e) => Err(e),
            }
        }
    }
}

/// What `read_file` returns for archive bytes `d` and entry offset `offset`:
/// the fixed leading fields are read at `offset` (declared header size, kind
/// code, declared file size), the kind selects a reconstructor, and an
/// `Empty` or unrecognized kind is rejected.
pub open spec fn read_file_spec(d: Seq<u8>, offset: u32) -> Result<Seq<u8>, DatError> {
    let off = offset as int;
    if off + 12 > d.len() {
        Err(DatError::MalformedHeader)
    } else {
        let size = le_u32_at(d, off);
        match FileType::spec_from_code(le_u32_at(d, off + 4)) {
            Some(FileType::Standard) => standard_spec(d, off, size),
            Some(FileType::Model) => model_spec(d, off, size),
            Some(FileType::Texture) => texture_spec(d, off, size),
            _ => Err(DatError::InvalidEntryKind),
        }
    }
}

/// Round-trip determinism: the decode of an entry is a function of the
/// archive bytes and the offset alone. `read_file` ensures that its result
/// equals `read_file_spec` of those two and that the archive bytes are left
/// unchanged, so decoding the same archive at the same offset twice yields
/// identical results.
pub proof fn lemma_read_file_deterministic(
    first: Result<Seq<u8>, DatError>,
    second: Result<Seq<u8>, DatError>,
    d: Seq<u8>,
    offset: u32,
)
    requires
        first == read_file_spec(d, offset),
        second == read_file_spec(d, offset),
    ensures
        first == second,
{
}

/// Kind dispatch: an entry whose stored kind code denotes `Empty`, or is not
/// a recognized kind code at all, always fails with `InvalidEntryKind` and
/// produces no output.
pub proof fn lemma_empty_kind_rejected(d: Seq<u8>, offset: u32)
    requires
        offset + 12 <= d.len(),
        FileType::spec_from_code(le_u32_at(d, offset + 4)) == Some(FileType::Empty)
            || FileType::spec_from_code(le_u32_at(d, offset + 4)) is None,
    ensures
        read_file_spec(d, offset) == Err::<Seq<u8>, DatError>(DatError::InvalidEntryKind),
{
}

} // verus!
