//! Model entries: typed sections (stack, runtime, and per-LOD vertex, edge
//! and index data) traversed with one flat stride table, followed by a
//! synthesized 68-byte leading header whose fields are derived from the
//! decoded layout rather than copied from disk.

use vstd::prelude::*;
use crate::bytes::{
    i32_le_bytes, le_u16_at, le_u32_at, push_i32_le, push_u16_le, push_u32_le, u16_le_bytes,
    u32_le_bytes,
};
use crate::dat::shared::{decoded_block, DatError};

verus! {

/// One per-section value group of a model entry's table: one value for the
/// stack and runtime sections and one per LOD level for the vertex, edge and
/// index sections.
#[derive(Debug, Clone, Copy, PartialEq, Eq, Structural)]
pub struct SectionInfo<T> {
    pub stack_size: T,
    pub runtime_size: T,
    pub vertex0: T,
    pub vertex1: T,
    pub vertex2: T,
    pub edge0: T,
    pub edge1: T,
    pub edge2: T,
    pub index0: T,
    pub index1: T,
    pub index2: T,
}

impl<T: Copy> SectionInfo<T> {
    /// The vertex value of LOD level `i`.
    pub open spec fn spec_vertex(self, i: int) -> T {
        if i == 0 {
            self.vertex0
        } else if i == 1 {
            self.vertex1
        } else {
            self.vertex2
        }
    }

    /// The edge value of LOD level `i`.
    pub open spec fn spec_edge(self, i: int) -> T {
        if i == 0 {
            self.edge0
        } else if i == 1 {
            self.edge1
        } else {
            self.edge2
        }
    }

    /// The index value of LOD level `i`.
    pub open spec fn spec_index(self, i: int) -> T {
        if i == 0 {
            self.index0
        } else if i == 1 {
            self.index1
        } else {
            self.index2
        }
    }

    /// The vertex value of LOD level `i`.
    pub fn vertex(&self, i: usize) -> (r: T)
        requires
            i < 3,
        ensures
            r == self.spec_vertex(i as int),
    {
        if i == 0 {
            self.vertex0
        } else if i == 1 {
            self.vertex1
        } else {
            self.vertex2
        }
    }

    /// The edge value of LOD level `i`.
    pub fn edge(&self, i: usize) -> (r: T)
        requires
            i < 3,
        ensures
            r == self.spec_edge(i as int),
    {
        if i == 0 {
            self.edge0
        } else if i == 1 {
            self.edge1
        } else {
            self.edge2
        }
    }

    /// The index value of LOD level `i`.
    pub fn index(&self, i: usize) -> (r: T)
        requires
            i < 3,
        ensures
            r == self.spec_index(i as int),
    {
        if i == 0 {
            self.index0
        } else if i == 1 {
            self.index1
        } else {
            self.index2
        }
    }
}

/// The fixed-size table of a model entry (196 bytes after the three leading
/// entry-header fields).
#[derive(Debug, Clone, Copy, PartialEq, Eq, Structural)]
pub struct ModelBlock {
    pub num_blocks: u32,
    pub num_used_blocks: u32,
    pub version: u32,
    pub uncompressed_size: SectionInfo<u32>,
    pub compressed_size: SectionInfo<u32>,
    pub offset: SectionInfo<u32>,
    pub index: SectionInfo<u16>,
    pub num: SectionInfo<u16>,
    pub vertex_dec_num: u16,
    pub material_num: u16,
    pub num_lods: u8,
    pub index_buffer_streaming_enabled: bool,
    pub edge_geometry_enabled: bool,
}

/// The `SectionInfo` of 32-bit values stored at position `p` of `d` (44 bytes).
pub open spec fn section_info_u32_at(d: Seq<u8>, p: int) -> SectionInfo<u32> {
    SectionInfo {
        stack_size: le_u32_at(d, p),
        runtime_size: le_u32_at(d, p + 4),
        vertex0: le_u32_at(d, p + 8),
        vertex1: le_u32_at(d, p + 12),
        vertex2: le_u32_at(d, p + 16),
        edge0: le_u32_at(d, p + 20),
        edge1: le_u32_at(d, p + 24),
        edge2: le_u32_at(d, p + 28),
        index0: le_u32_at(d, p + 32),
        index1: le_u32_at(d, p + 36),
        index2: le_u32_at(d, p + 40),
    }
}

/// The `SectionInfo` of 16-bit values stored at position `p` of `d` (22 bytes).
pub open spec fn section_info_u16_at(d: Seq<u8>, p: int) -> SectionInfo<u16> {
    SectionInfo {
        stack_size: le_u16_at(d, p),
        runtime_size: le_u16_at(d, p + 2),
        vertex0: le_u16_at(d, p + 4),
        vertex1: le_u16_at(d, p + 6),
        vertex2: le_u16_at(d, p + 8),
        edge0: le_u16_at(d, p + 10),
        edge1: le_u16_at(d, p + 12),
        edge2: le_u16_at(d, p + 14),
        index0: le_u16_at(d, p + 16),
        index1: le_u16_at(d, p + 18),
        index2: le_u16_at(d, p + 20),
    }
}

/// The model table stored in the entry header at `off`: three counters, three
/// 32-bit section groups (uncompressed sizes, compressed sizes, offsets), two
/// 16-bit section groups (first block indexes, block counts), and six scalar
/// fields with one pad byte. The entry header ends at `off + 208`.
pub open spec fn model_block_at(d: Seq<u8>, off: int) -> ModelBlock {
    ModelBlock {
        num_blocks: le_u32_at(d, off + 12),
        num_used_blocks: le_u32_at(d, off + 16),
        version: le_u32_at(d, off + 20),
        uncompressed_size: section_info_u32_at(d, off + 24),
        compressed_size: section_info_u32_at(d, off + 68),
        offset: section_info_u32_at(d, off + 112),
        index: section_info_u16_at(d, off + 156),
        num: section_info_u16_at(d, off + 178),
        vertex_dec_num: le_u16_at(d, off + 200),
        material_num: le_u16_at(d, off + 202),
        num_lods: d[off + 204],
        index_buffer_streaming_enabled: d[off + 205] != 0,
        edge_geometry_enabled: d[off + 206] != 0,
    }
}

/// The model table of the entry at `off`, or `None` when the 208-byte header
/// runs past the end of the archive.
pub open spec fn model_table(d: Seq<u8>, off: int) -> Option<ModelBlock> {
    if off < 0 || off + 208 > d.len() {
        None
    } else {
        Some(model_block_at(d, off))
    }
}

/// How many stride-table slots the model entry declares: the stored total
/// plus the runtime and per-LOD vertex, edge and index block counts (the
/// stack count is not added again).
pub open spec fn stride_total(mb: ModelBlock) -> int {
    mb.num_blocks + mb.num.runtime_size + mb.num.vertex0 + mb.num.vertex1 + mb.num.vertex2
        + mb.num.edge0 + mb.num.edge1 + mb.num.edge2 + mb.num.index0 + mb.num.index1
        + mb.num.index2
}

/// One section's run of `count` blocks, decoded sequentially from `pos`:
/// each block decodes where the stream stands, is appended to `acc`, and the
/// stream then jumps forward by the stride-table value at the shared cursor
/// `cur`. Returns the grown output, the stream position after the last jump,
/// and the advanced cursor. A run that consumes more stride slots than the
/// table holds is malformed.
pub open spec fn run_section(
    d: Seq<u8>,
    strides: Seq<u16>,
    pos: int,
    cur: int,
    count: int,
    acc: Seq<u8>,
) -> Result<(Seq<u8>, int, int), DatError>
    decreases count,
{
    if count <= 0 {
        Ok((acc, pos, cur))
    } else {
        match decoded_block(d, pos) {
            Err(e) => Err(e),
            Ok(b) => {
                if cur < 0 || cur >= strides.len() {
                    Err(DatError::MalformedHeader)
                } else {
                    run_section(d, strides, pos + strides[cur], cur + 1, count - 1, acc + b)
                }
            }
        }
    }
}

/// The traversal state carried across a model entry's sections: the output
/// gathered so far (without the 68 reserved leading bytes), the stream
/// position, the stride-table cursor, the recorded per-LOD vertex and index
/// data offsets, and the per-LOD vertex and index byte totals.
pub struct LodState {
    pub out: Seq<u8>,
    pub pos: int,
    pub cur: int,
    pub vdo: Seq<i32>,
    pub ido: Seq<i32>,
    pub vbs: Seq<int>,
    pub ibs: Seq<int>,
}

/// The data offset recorded for LOD level `i` whose section starts at output
/// length `len` (including the 68 reserved bytes): the length itself, unless
/// it equals the previous level's recorded offset, in which case `0` marks
/// "same buffer as the previous level".
pub open spec fn collapsed_offset(i: int, len: int, prev: i32) -> i32 {
    if i > 0 && len == (prev as usize) as int {
        0
    } else {
        len as i32
    }
}

/// LOD level `i`'s vertex section: when its block count is non-zero, the
/// level's data offset is recorded (with the same-buffer collapse rule), the
/// stream seeks to the section's stored offset, and the run's byte total is
/// recorded; a zero count leaves the state untouched.
pub open spec fn lod_vertex_step(
    d: Seq<u8>,
    strides: Seq<u16>,
    mb: ModelBlock,
    base: int,
    i: int,
    st: LodState,
) -> Result<LodState, DatError> {
    if mb.num.spec_vertex(i) != 0 {
        let rec = collapsed_offset(i, 68 + st.out.len() as int, if i > 0 { st.vdo[i - 1] } else { 0 });
        match run_section(
            d,
            strides,
            base + mb.offset.spec_vertex(i),
            st.cur,
            mb.num.spec_vertex(i) as int,
            st.out,
        ) {
            Err(e) => Err(e),
            Ok((out2, pos2, cur2)) => Ok(
                LodState {
                    vdo: st.vdo.update(i, rec),
                    vbs: st.vbs.update(i, out2.len() - st.out.len()),
                    out: out2,
                    pos: pos2,
                    cur: cur2,
                    ..st
                },
            ),
        }
    } else {
        Ok(st)
    }
}

/// LOD level `i`'s edge section: decoded from the current stream position
/// (no seek) with no offset bookkeeping; a zero count leaves the state
/// untouched.
pub open spec fn lod_edge_step(
    d: Seq<u8>,
    strides: Seq<u16>,
    mb: ModelBlock,
    i: int,
    st: LodState,
) -> Result<LodState, DatError> {
    if mb.num.spec_edge(i) != 0 {
        match run_section(d, strides, st.pos, st.cur, mb.num.spec_edge(i) as int, st.out) {
            Err(e) => Err(e),
            Ok((out2, pos2, cur2)) => Ok(LodState { out: out2, pos: pos2, cur: cur2, ..st }),
        }
    } else {
        Ok(st)
    }
}

/// LOD level `i`'s index section: decoded from the current stream position
/// (no seek), with the same data-offset and byte-total bookkeeping as the
/// vertex section; a zero count leaves the state untouched.
pub open spec fn lod_index_step(
    d: Seq<u8>,
    strides: Seq<u16>,
    mb: ModelBlock,
    i: int,
    st: LodState,
) -> Result<LodState, DatError> {
    if mb.num.spec_index(i) != 0 {
        let rec = collapsed_offset(i, 68 + st.out.len() as int, if i > 0 { st.ido[i - 1] } else { 0 });
        match run_section(d, strides, st.pos, st.cur, mb.num.spec_index(i) as int, st.out) {
            Err(e) => Err(e),
            Ok((out2, pos2, cur2)) => Ok(
                LodState {
                    ido: st.ido.update(i, rec),
                    ibs: st.ibs.update(i, out2.len() - st.out.len()),
                    out: out2,
                    pos: pos2,
                    cur: cur2,
                    ..st
                },
            ),
        }
    } else {
        Ok(st)
    }
}

/// One whole LOD level: its vertex, edge and index sections in that fixed
/// sub-order.
pub open spec fn lod_level_steps(
    d: Seq<u8>,
    strides: Seq<u16>,
    mb: ModelBlock,
    base: int,
    i: int,
    st: LodState,
) -> Result<LodState, DatError> {
    match lod_vertex_step(d, strides, mb, base, i, st) {
        Err(e) => Err(e),
        Ok(st1) => match lod_edge_step(d, strides, mb, i, st1) {
            Err(e) => Err(e),
            Ok(st2) => lod_index_step(d, strides, mb, i, st2),
        },
    }
}

/// The per-LOD sections of a model entry from level `i` on, in the fixed
/// sub-order vertex, edge, index. A section with a zero block count is
/// skipped entirely: no seek, no stride slots, no bookkeeping.
pub open spec fn lod_sections(
    d: Seq<u8>,
    strides: Seq<u16>,
    mb: ModelBlock,
    base: int,
    i: int,
    st: LodState,
) -> Result<LodState, DatError>
    decreases 3 - i,
{
    if i < 0 || i >= 3 {
        Ok(st)
    } else {
        match lod_level_steps(d, strides, mb, base, i, st) {
            Err(e) => Err(e),
            Ok(st3) => lod_sections(d, strides, mb, base, i + 1, st3),
        }
    }
}

/// The 68 synthesized leading bytes of a model entry's output, all fields
/// little-endian: version, the stack and runtime section byte lengths as
/// decoded (not the on-disk declared sizes), the vertex declaration and
/// material counts, the three recorded vertex data offsets, the three
/// recorded index data offsets, the three vertex byte totals, the three
/// index byte totals, the LOD count, two flag bytes, and one zero pad byte.
pub open spec fn synth_model_header(
    mb: ModelBlock,
    stack_len: int,
    runtime_len: int,
    st: LodState,
) -> Seq<u8> {
    u32_le_bytes(mb.version) + i32_le_bytes(stack_len as i32) + i32_le_bytes(runtime_len as i32)
        + u16_le_bytes(mb.vertex_dec_num) + u16_le_bytes(mb.material_num)
        + i32_le_bytes(st.vdo[0]) + i32_le_bytes(st.vdo[1]) + i32_le_bytes(st.vdo[2])
        + i32_le_bytes(st.ido[0]) + i32_le_bytes(st.ido[1]) + i32_le_bytes(st.ido[2])
        + i32_le_bytes(st.vbs[0] as i32) + i32_le_bytes(st.vbs[1] as i32)
        + i32_le_bytes(st.vbs[2] as i32) + i32_le_bytes(st.ibs[0] as i32)
        + i32_le_bytes(st.ibs[1] as i32) + i32_le_bytes(st.ibs[2] as i32)
        + seq![
            mb.num_lods,
            if mb.index_buffer_streaming_enabled { 1u8 } else { 0u8 },
            if mb.edge_geometry_enabled { 1u8 } else { 0u8 },
            0u8,
        ]
}

/// A model entry's output once its table is parsed. The stride table is read
/// right after the 208-byte entry header; the stack and runtime sections run
/// first, each seeking to its stored offset; the per-LOD sections follow; the
/// synthesized 68-byte header is prepended to the section bytes.
pub open spec fn model_body(d: Seq<u8>, off: int, size: u32, mb: ModelBlock) -> Result<
    Seq<u8>,
    DatError,
> {
    let base = off + size;
    let total = stride_total(mb);
    let tpos = off + 208;
    if tpos + 2 * total > d.len() {
        Err(DatError::BoundsFailure)
    } else {
        let strides = Seq::new(total as nat, |k: int| le_u16_at(d, tpos + 2 * k));
        match run_section(
            d,
            strides,
            base + mb.offset.stack_size,
            0,
            mb.num.stack_size as int,
            Seq::empty(),
        ) {
            Err(e) => Err(e),
            Ok((out1, _pos1, cur1)) => {
                let stack_len = out1.len() as int;
                match run_section(
                    d,
                    strides,
                    base + mb.offset.runtime_size,
                    cur1,
                    mb.num.runtime_size as int,
                    out1,
                ) {
                    Err(e) => Err(e),
                    Ok((out2, pos2, cur2)) => {
                        let runtime_len = out2.len() - stack_len;
                        let st0 = LodState {
                            out: out2,
                            pos: pos2,
                            cur: cur2,
                            vdo: seq![0i32, 0i32, 0i32],
                            ido: seq![0i32, 0i32, 0i32],
                            vbs: seq![0int, 0int, 0int],
                            ibs: seq![0int, 0int, 0int],
                        };
                        match lod_sections(d, strides, mb, base, 0, st0) {
                            Err(e) => Err(e),
                            Ok(st) => Ok(
                                synth_model_header(mb, stack_len, runtime_len, st)
                                    + st.out,
                            ),
                        }
                    }
                }
            }
        }
    }
}

/// What a model entry's output is once its LOD traversal has finished (or
/// failed): the synthesized header in front of the section bytes.
pub open spec fn model_after_lods(
    mb: ModelBlock,
    stack_len: int,
    runtime_len: int,
    r: Result<LodState, DatError>,
) -> Result<Seq<u8>, DatError> {
    match r {
        Err(e) => Err(e),
        Ok(st) => Ok(synth_model_header(mb, stack_len, runtime_len, st) + st.out),
    }
}

/// A model entry's whole output: its table, then the sections and the
/// synthesized header.
pub open spec fn model_spec(d: Seq<u8>, off: int, size: u32) -> Result<Seq<u8>, DatError> {
    match model_table(d, off) {
        None => Err(DatError::MalformedHeader),
        Some(mb) => model_body(d, off, size, mb),
    }
}

/// Builds the synthesized 68-byte model header from the decoded layout:
/// `stack_len` and `runtime_len` are the byte lengths actually decoded for
/// those sections, and the four arrays are the recorded per-LOD offsets and
/// byte totals.
#[verifier::rlimit(100)]
pub fn build_model_header(
    mb: &ModelBlock,
    stack_len: usize,
    runtime_len: usize,
    vdo: &[i32; 3],
    ido: &[i32; 3],
    vbs: &[usize; 3],
    ibs: &[usize; 3],
) -> (r: Vec<u8>)
    ensures
        r@ == synth_model_header(
            *mb,
            stack_len as int,
            runtime_len as int,
            LodState {
                out: Seq::empty(),
                pos: 0,
                cur: 0,
                vdo: vdo@,
                ido: ido@,
                vbs: seq![vbs@[0] as int, vbs@[1] as int, vbs@[2] as int],
                ibs: seq![ibs@[0] as int, ibs@[1] as int, ibs@[2] as int],
            },
        ),
        r@.len() == 68,
{
    let mut hdr: Vec<u8> = Vec::new();
    push_u32_le(&mut hdr, mb.version);
    push_i32_le(&mut hdr, #[verifier::truncate] (stack_len as i32));
    push_i32_le(&mut hdr, #[verifier::truncate] (runtime_len as i32));
    push_u16_le(&mut hdr, mb.vertex_dec_num);
    push_u16_le(&mut hdr, mb.material_num);
    push_i32_le(&mut hdr, vdo[0]);
    push_i32_le(&mut hdr, vdo[1]);
    push_i32_le(&mut hdr, vdo[2]);
    push_i32_le(&mut hdr, ido[0]);
    push_i32_le(&mut hdr, ido[1]);
    push_i32_le(&mut hdr, ido[2]);
    push_i32_le(&mut hdr, #[verifier::truncate] (vbs[0] as i32));
    push_i32_le(&mut hdr, #[verifier::truncate] (vbs[1] as i32));
    push_i32_le(&mut hdr, #[verifier::truncate] (vbs[2] as i32));
    push_i32_le(&mut hdr, #[verifier::truncate] (ibs[0] as i32));
    push_i32_le(&mut hdr, #[verifier::truncate] (ibs[1] as i32));
    push_i32_le(&mut hdr, #[verifier::truncate] (ibs[2] as i32));
    hdr.push(mb.num_lods);
    hdr.push(if mb.index_buffer_streaming_enabled { 1 } else { 0 });
    hdr.push(if mb.edge_geometry_enabled { 1 } else { 0 });
    hdr.push(0);
    proof {
        assert(hdr@ =~= synth_model_header(
            *mb,
            stack_len as int,
            runtime_len as int,
            LodState {
                out: Seq::empty(),
                pos: 0,
                cur: 0,
                vdo: vdo@,
                ido: ido@,
                vbs: seq![vbs@[0] as int, vbs@[1] as int, vbs@[2] as int],
                ibs: seq![ibs@[0] as int, ibs@[1] as int, ibs@[2] as int],
            },
        ));
    }
    hdr
}

/// Records the data offset of LOD level `i` whose section starts when the
/// output (68 reserved leading bytes included) is `68 + out_len` bytes long:
/// the level's true offset, unless it equals the previous level's recorded
/// offset `prev`, in which case `0` is recorded to signal "same buffer as the
/// previous level, no new offset".
pub fn record_data_offset(i: usize, out_len: usize, prev: i32) -> (r: i32)
    ensures
        r == collapsed_offset(i as int, 68 + out_len, prev),
        i > 0 && 68 + out_len == (prev as usize) as int ==> r == 0,
        i == 0 || 68 + out_len != (prev as usize) as int ==> r == ((68 + out_len) as i32),
{
    let prev_u = #[verifier::truncate] (prev as usize);
    if i > 0 && prev_u >= 68 && prev_u - 68 == out_len {
        0
    } else {
        #[verifier::truncate] ((out_len as u128 + 68) as i32)
    }
}

/// Model same-buffer collapse: when a LOD level past the first maps its data
/// to the very output offset the previous level recorded, `0` is recorded in
/// its place; when the offsets differ, the true offset is recorded.
pub proof fn lemma_same_buffer_collapse(i: int, len: int, prev: i32)
    requires
        0 < i,
    ensures
        len == (prev as usize) as int ==> collapsed_offset(i, len, prev) == 0,
        len != (prev as usize) as int ==> collapsed_offset(i, len, prev) == len as i32,
{
}

/// Synthesized header fields: the rebuilt model header encodes the stack and
/// runtime sections' decoded byte lengths — bytes 4..8 and 8..12 of the
/// output, as little-endian 32-bit values — never the on-disk declared sizes,
/// which appear nowhere in it.
pub proof fn lemma_model_header_sizes(
    mb: ModelBlock,
    stack_len: int,
    runtime_len: int,
    st: LodState,
)
    ensures
        synth_model_header(mb, stack_len, runtime_len, st).len() == 68,
        (synth_model_header(mb, stack_len, runtime_len, st) + st.out).subrange(0, 4)
            == u32_le_bytes(mb.version),
        (synth_model_header(mb, stack_len, runtime_len, st) + st.out).subrange(4, 8)
            == i32_le_bytes(stack_len as i32),
        (synth_model_header(mb, stack_len, runtime_len, st) + st.out).subrange(8, 12)
            == i32_le_bytes(runtime_len as i32),
{
    let h = synth_model_header(mb, stack_len, runtime_len, st);
    assert(h.len() == 68);
    assert((h + st.out).subrange(0, 4) =~= u32_le_bytes(mb.version));
    assert((h + st.out).subrange(4, 8) =~= i32_le_bytes(stack_len as i32));
    assert((h + st.out).subrange(8, 12) =~= i32_le_bytes(runtime_len as i32));
}

} // verus!
