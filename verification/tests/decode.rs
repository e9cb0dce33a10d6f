//! End-to-end tests of the archive decoder on hand-built archives.

use sqdat::dat::datfile::{read_data_block, DatFile};
use sqdat::dat::shared::{CompressionMode, DatBlockHeader, DatError};
use std::io::Write;

fn le32(v: u32) -> [u8; 4] {
    v.to_le_bytes()
}

fn le16(v: u16) -> [u8; 2] {
    v.to_le_bytes()
}

/// A 16-byte block header: declared size, four pad bytes, the two
/// mode fields.
fn block_header(x: u32, y: u32) -> Vec<u8> {
    let mut b = Vec::new();
    b.extend_from_slice(&le32(16));
    b.extend_from_slice(&le32(0));
    b.extend_from_slice(&le32(x));
    b.extend_from_slice(&le32(y));
    b
}

/// An uncompressed block: sentinel first field, payload length second.
fn raw_block(payload: &[u8]) -> Vec<u8> {
    let mut b = block_header(32000, payload.len() as u32);
    b.extend_from_slice(payload);
    b
}

/// A compressed block holding a raw-DEFLATE stream, declaring
/// `declared_len` output bytes.
fn deflate_block(payload: &[u8], declared_len: u32) -> Vec<u8> {
    let mut enc =
        flate2::write::DeflateEncoder::new(Vec::new(), flate2::Compression::default());
    enc.write_all(payload).unwrap();
    let compressed = enc.finish().unwrap();
    let mut b = block_header(compressed.len() as u32, declared_len);
    b.extend_from_slice(&compressed);
    b
}

/// A standard entry at offset 0 whose blocks sit one after another right
/// after the entry header.
fn standard_archive(blocks: &[Vec<u8>]) -> Vec<u8> {
    let header_size = 24 + 8 * blocks.len() as u32;
    let mut a = Vec::new();
    a.extend_from_slice(&le32(header_size));
    a.extend_from_slice(&le32(2)); // kind: standard
    a.extend_from_slice(&le32(0)); // declared size, unused
    a.extend_from_slice(&[0u8; 8]);
    a.extend_from_slice(&le32(blocks.len() as u32));
    let mut rel = 0u32;
    for b in blocks {
        a.extend_from_slice(&le32(rel));
        a.extend_from_slice(&le16(b.len() as u16));
        a.extend_from_slice(&le16(0));
        rel += b.len() as u32;
    }
    for b in blocks {
        a.extend_from_slice(b);
    }
    a
}

#[test]
fn standard_uncompressed_entry() {
    // One-block entry: header size 32, one table row at relative offset 0,
    // an uncompressed 8-byte block at the entry base.
    let payload = [1u8, 2, 3, 4, 5, 6, 7, 8];
    let archive = standard_archive(&[raw_block(&payload)]);
    assert_eq!(archive.len(), 32 + 16 + 8);
    let mut dat = DatFile::new(archive).unwrap();
    assert_eq!(dat.read_file(0), Ok(payload.to_vec()));
}

#[test]
fn read_file_deterministic() {
    let payload = [9u8, 8, 7];
    let archive = standard_archive(&[raw_block(&payload)]);
    let mut dat = DatFile::new(archive).unwrap();
    let first = dat.read_file(0);
    let second = dat.read_file(0);
    assert_eq!(first, second);
    assert_eq!(first, Ok(payload.to_vec()));
}

#[test]
fn standard_concat_order() {
    let archive = standard_archive(&[
        raw_block(&[1, 2]),
        raw_block(&[3]),
        raw_block(&[4, 5, 6]),
    ]);
    let mut dat = DatFile::new(archive).unwrap();
    assert_eq!(dat.read_file(0), Ok(vec![1, 2, 3, 4, 5, 6]));
}

#[test]
fn compressed_block_roundtrip() {
    let payload: Vec<u8> = (0u8..64).map(|i| i.wrapping_mul(37)).collect();
    let archive = standard_archive(&[deflate_block(&payload, payload.len() as u32)]);
    let mut dat = DatFile::new(archive).unwrap();
    assert_eq!(dat.read_file(0), Ok(payload));
}

#[test]
fn compressed_block_truncated_output() {
    // The block declares 100 output bytes but the stream only yields 4: the
    // output is exactly the 4 reported bytes, not padded to 100.
    let payload = [10u8, 20, 30, 40];
    let archive = standard_archive(&[deflate_block(&payload, 100)]);
    let mut dat = DatFile::new(archive).unwrap();
    let out = dat.read_file(0).unwrap();
    assert_eq!(out.len(), 4);
    assert_eq!(out, payload.to_vec());
}

#[test]
fn empty_kind_fails() {
    let mut a = Vec::new();
    a.extend_from_slice(&le32(16));
    a.extend_from_slice(&le32(1)); // kind: empty
    a.extend_from_slice(&le32(0));
    a.extend_from_slice(&[0u8; 64]);
    let mut dat = DatFile::new(a).unwrap();
    assert_eq!(dat.read_file(0), Err(DatError::InvalidEntryKind));
}

#[test]
fn unknown_kind_fails() {
    let mut a = Vec::new();
    a.extend_from_slice(&le32(16));
    a.extend_from_slice(&le32(9)); // no such kind
    a.extend_from_slice(&le32(0));
    a.extend_from_slice(&[0u8; 64]);
    let mut dat = DatFile::new(a).unwrap();
    assert_eq!(dat.read_file(0), Err(DatError::InvalidEntryKind));
}

#[test]
fn truncated_entry_header_fails() {
    let mut dat = DatFile::new(vec![1, 2, 3, 4]).unwrap();
    assert_eq!(dat.read_file(0), Err(DatError::MalformedHeader));
}

#[test]
fn truncated_block_table_fails() {
    // Announces four table rows but holds none.
    let mut a = Vec::new();
    a.extend_from_slice(&le32(56));
    a.extend_from_slice(&le32(2));
    a.extend_from_slice(&le32(0));
    a.extend_from_slice(&[0u8; 8]);
    a.extend_from_slice(&le32(4));
    let mut dat = DatFile::new(a).unwrap();
    assert_eq!(dat.read_file(0), Err(DatError::MalformedHeader));
}

#[test]
fn block_payload_out_of_bounds_fails() {
    // The block header declares 200 payload bytes; only 8 exist.
    let mut block = block_header(32000, 200);
    block.extend_from_slice(&[1, 2, 3, 4, 5, 6, 7, 8]);
    let archive = standard_archive(&[block]);
    let mut dat = DatFile::new(archive).unwrap();
    assert_eq!(dat.read_file(0), Err(DatError::BoundsFailure));
}

#[test]
fn bad_deflate_stream_fails() {
    // 0x06 starts a DEFLATE block of the reserved type: the decompressor
    // reports an error.
    let mut block = block_header(4, 16);
    block.extend_from_slice(&[0x06, 0, 0, 0]);
    let archive = standard_archive(&[block]);
    let mut dat = DatFile::new(archive).unwrap();
    assert_eq!(dat.read_file(0), Err(DatError::DecompressionFailure));
}

#[test]
fn block_header_reads_in_place() {
    let mut bytes = block_header(31999, 64);
    bytes.extend_from_slice(&[0u8; 4]);
    let dat = DatFile::new(bytes).unwrap();
    assert_eq!(
        dat.block_header(0),
        Ok(DatBlockHeader {
            size: 16,
            compression: CompressionMode::Compressed {
                compressed_length: 31999,
                decompressed_length: 64,
            },
        })
    );
    assert_eq!(dat.block_header(8), Err(DatError::MalformedHeader));
}

#[test]
fn read_data_block_positions() {
    // An uncompressed block decoded directly, with and without restoring the
    // stream position.
    let block = raw_block(&[5, 6, 7]);
    let mut dat = DatFile::new(block).unwrap();
    assert_eq!(read_data_block(&mut dat, 0, true), Ok(vec![5, 6, 7]));
    assert_eq!(read_data_block(&mut dat, 0, false), Ok(vec![5, 6, 7]));
}

/// A texture entry at offset 0 with the given LOD rows, delta stream and
/// block area. The entry's declared header size places the entry base right
/// after the delta stream.
fn texture_archive(lods: &[[u32; 5]], deltas: &[i16], tail: &[u8]) -> Vec<u8> {
    let mut a = Vec::new();
    let header_size = 24 + 20 * lods.len() as u32 + 2 * deltas.len() as u32;
    a.extend_from_slice(&le32(header_size));
    a.extend_from_slice(&le32(4)); // kind: texture
    a.extend_from_slice(&le32(0));
    a.extend_from_slice(&[0u8; 8]);
    a.extend_from_slice(&le32(lods.len() as u32));
    for lod in lods {
        for field in lod {
            a.extend_from_slice(&le32(*field));
        }
    }
    for d in deltas {
        a.extend_from_slice(&d.to_le_bytes());
    }
    a.extend_from_slice(tail);
    a
}

#[test]
fn texture_chain_three_blocks() {
    // One LOD level, three chained blocks of two bytes each, linked by two
    // 18-byte jumps, one trailing delta. Exactly the three blocks' bytes
    // come out, in chain order.
    let mut tail = Vec::new();
    tail.extend_from_slice(&raw_block(&[0xA0, 0xA1]));
    tail.extend_from_slice(&raw_block(&[0xB0, 0xB1]));
    tail.extend_from_slice(&raw_block(&[0xC0, 0xC1]));
    let archive = texture_archive(&[[0, 0, 0, 0, 3]], &[18, 18, 0], &tail);
    let mut dat = DatFile::new(archive).unwrap();
    assert_eq!(
        dat.read_file(0),
        Ok(vec![0xA0, 0xA1, 0xB0, 0xB1, 0xC0, 0xC1])
    );
}

#[test]
fn texture_backward_delta() {
    // The second block sits before the first in the archive: a negative
    // delta reaches it.
    let mut tail = Vec::new();
    tail.extend_from_slice(&raw_block(&[0xB0])); // at base
    tail.extend_from_slice(&raw_block(&[0xA0])); // at base + 17
    let archive = texture_archive(&[[17, 0, 0, 0, 2]], &[-17, 0], &tail);
    let mut dat = DatFile::new(archive).unwrap();
    // A non-zero first offset also copies that many raw bytes first.
    let mut want = tail[..17].to_vec();
    want.extend_from_slice(&[0xA0, 0xB0]);
    assert_eq!(dat.read_file(0), Ok(want));
}

#[test]
fn texture_leading_header_copy() {
    // The first LOD's offset is non-zero: that many bytes are copied
    // verbatim from the entry base before any chain.
    let mut tail = Vec::new();
    tail.extend_from_slice(&[0xEE; 8]);
    tail.extend_from_slice(&raw_block(&[1, 2, 3]));
    let archive = texture_archive(&[[8, 0, 0, 0, 1]], &[0], &tail);
    let mut dat = DatFile::new(archive).unwrap();
    assert_eq!(
        dat.read_file(0),
        Ok(vec![0xEE, 0xEE, 0xEE, 0xEE, 0xEE, 0xEE, 0xEE, 0xEE, 1, 2, 3])
    );
}

#[test]
fn texture_without_levels_is_empty() {
    let archive = texture_archive(&[], &[], &[]);
    let mut dat = DatFile::new(archive).unwrap();
    assert_eq!(dat.read_file(0), Ok(Vec::new()));
}

/// The fields of a model entry header that the tests vary.
struct ModelLayout {
    declared_blocks: u32,
    version: u32,
    offsets: [u32; 11],
    counts: [u16; 11],
    vertex_dec_num: u16,
    material_num: u16,
    num_lods: u8,
    streaming: u8,
    edge_geometry: u8,
}

/// A model entry at offset 0: the 208-byte header, then the stride table,
/// then the block area.
fn model_archive(layout: &ModelLayout, strides: &[u16], tail: &[u8]) -> Vec<u8> {
    let mut a = Vec::new();
    a.extend_from_slice(&le32(208));
    a.extend_from_slice(&le32(3)); // kind: model
    a.extend_from_slice(&le32(0));
    a.extend_from_slice(&le32(layout.declared_blocks));
    a.extend_from_slice(&le32(0)); // used blocks, not read back
    a.extend_from_slice(&le32(layout.version));
    a.extend_from_slice(&[0u8; 44]); // uncompressed sizes, not read back
    a.extend_from_slice(&[0u8; 44]); // compressed sizes, not read back
    for off in &layout.offsets {
        a.extend_from_slice(&le32(*off));
    }
    a.extend_from_slice(&[0u8; 22]); // first block indexes, not read back
    for c in &layout.counts {
        a.extend_from_slice(&le16(*c));
    }
    a.extend_from_slice(&le16(layout.vertex_dec_num));
    a.extend_from_slice(&le16(layout.material_num));
    a.push(layout.num_lods);
    a.push(layout.streaming);
    a.push(layout.edge_geometry);
    a.push(0);
    assert_eq!(a.len(), 208);
    for s in strides {
        a.extend_from_slice(&le16(*s));
    }
    a.extend_from_slice(tail);
    a
}

/// The expected 68-byte synthesized model header.
fn expect_model_header(
    version: u32,
    stack_size: i32,
    runtime_size: i32,
    vertex_dec_num: u16,
    material_num: u16,
    vdo: [i32; 3],
    ido: [i32; 3],
    vbs: [i32; 3],
    ibs: [i32; 3],
    num_lods: u8,
    streaming: u8,
    edge_geometry: u8,
) -> Vec<u8> {
    let mut h = Vec::new();
    h.extend_from_slice(&version.to_le_bytes());
    h.extend_from_slice(&stack_size.to_le_bytes());
    h.extend_from_slice(&runtime_size.to_le_bytes());
    h.extend_from_slice(&vertex_dec_num.to_le_bytes());
    h.extend_from_slice(&material_num.to_le_bytes());
    for v in vdo.iter().chain(ido.iter()).chain(vbs.iter()).chain(ibs.iter()) {
        h.extend_from_slice(&v.to_le_bytes());
    }
    h.push(num_lods);
    h.push(streaming);
    h.push(edge_geometry);
    h.push(0);
    assert_eq!(h.len(), 68);
    h
}

#[test]
fn model_entry_synthesized_header() {
    // Stack, runtime, vertex and index sections of one two-byte block each.
    // The rebuilt header carries the decoded byte lengths — two bytes for
    // stack and runtime — not the on-disk declared sizes, which are all
    // left zero here.
    let layout = ModelLayout {
        declared_blocks: 1, // 1 + runtime 1 + vertex 1 + index 1 = 4 slots
        version: 7,
        // section offsets relative to the entry base (which is the stride
        // table's start): stack at 8, runtime at 26, vertex at 44; the
        // index section continues from the stream with no seek.
        offsets: [8, 26, 44, 0, 0, 0, 0, 0, 62, 0, 0],
        counts: [1, 1, 1, 0, 0, 0, 0, 0, 1, 0, 0],
        vertex_dec_num: 2,
        material_num: 3,
        num_lods: 1,
        streaming: 1,
        edge_geometry: 0,
    };
    let mut tail = Vec::new();
    tail.extend_from_slice(&raw_block(&[1, 2])); // stack
    tail.extend_from_slice(&raw_block(&[3, 4])); // runtime
    tail.extend_from_slice(&raw_block(&[5, 6])); // vertex, LOD 0
    tail.extend_from_slice(&raw_block(&[7, 8])); // index, LOD 0
    let archive = model_archive(&layout, &[18, 18, 18, 18], &tail);
    let mut dat = DatFile::new(archive).unwrap();
    let out = dat.read_file(0).unwrap();
    let mut want = expect_model_header(
        7,
        2, // stack bytes actually decoded
        2, // runtime bytes actually decoded
        2,
        3,
        [72, 0, 0], // vertex data starts at 68 + 4
        [74, 0, 0], // index data starts at 68 + 6
        [2, 0, 0],
        [2, 0, 0],
        1,
        1,
        0,
    );
    want.extend_from_slice(&[1, 2, 3, 4, 5, 6, 7, 8]);
    assert_eq!(out, want);
}

#[test]
fn model_same_buffer_collapse() {
    // Vertex LOD 0 decodes to zero bytes, so vertex LOD 1 starts at the very
    // offset LOD 0 recorded: LOD 1's offset is recorded as zero, not
    // repeated.
    let layout = ModelLayout {
        declared_blocks: 0, // 0 + vertex 1 + vertex 1 = 2 slots
        version: 1,
        offsets: [0, 0, 4, 20, 0, 0, 0, 0, 0, 0, 0],
        counts: [0, 0, 1, 1, 0, 0, 0, 0, 0, 0, 0],
        vertex_dec_num: 0,
        material_num: 0,
        num_lods: 2,
        streaming: 0,
        edge_geometry: 0,
    };
    let mut tail = Vec::new();
    tail.extend_from_slice(&raw_block(&[])); // vertex LOD 0, empty
    tail.extend_from_slice(&raw_block(&[])); // vertex LOD 1, empty
    let archive = model_archive(&layout, &[16, 16], &tail);
    let mut dat = DatFile::new(archive).unwrap();
    let out = dat.read_file(0).unwrap();
    let want = expect_model_header(
        1,
        0,
        0,
        0,
        0,
        [68, 0, 0], // LOD 0 records its offset; LOD 1 collapses to zero
        [0, 0, 0],
        [0, 0, 0],
        [0, 0, 0],
        2,
        0,
        0,
    );
    assert_eq!(out, want);
}

#[test]
fn model_short_stride_table_fails() {
    // The declared totals announce two stride slots, but three sections hold
    // blocks: the run past the table's end is malformed.
    let layout = ModelLayout {
        declared_blocks: 0,
        version: 1,
        offsets: [2, 36, 0, 0, 0, 0, 0, 0, 0, 0, 0],
        counts: [2, 1, 0, 0, 0, 0, 0, 0, 0, 0, 0],
        vertex_dec_num: 0,
        material_num: 0,
        num_lods: 0,
        streaming: 0,
        edge_geometry: 0,
    };
    // total = declared 0 + runtime 1 = 1 stride slot, but stack alone needs
    // two.
    let mut tail = Vec::new();
    tail.extend_from_slice(&raw_block(&[1]));
    tail.extend_from_slice(&raw_block(&[2]));
    tail.extend_from_slice(&raw_block(&[3]));
    let archive = model_archive(&layout, &[17], &tail);
    let mut dat = DatFile::new(archive).unwrap();
    assert_eq!(dat.read_file(0), Err(DatError::MalformedHeader));
}
