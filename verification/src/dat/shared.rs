//! Shared pieces of the archive format: the entry kind, the 16-byte block
//! header with its sentinel-discriminated compression mode, the decode error
//! taxonomy, and the specification of what decoding one block yields.

use vstd::prelude::*;
use crate::bytes::{le_u32_at};
use crate::dat::inflate::inflate_raw;

verus! {

/// First header field value that marks a block as stored uncompressed.
pub const UNCOMPRESSED_SENTINEL: u32 = 32000;

/// The kind of a stored entry.
#[derive(Debug, Clone, Copy, PartialEq, Eq, Structural)]
pub enum FileType {
    /// Empty entry, usually invalid; decoding one is an error.
    Empty,
    /// Every file that is not a model or a texture.
    Standard,
    /// Model files.
    Model,
    /// Texture files.
    Texture,
}

impl FileType {
    /// The entry kind denoted by an on-disk kind code, if any.
    pub open spec fn spec_from_code(code: u32) -> Option<FileType> {
        if code == 1 {
            Some(FileType::Empty)
        } else if code == 2 {
            Some(FileType::Standard)
        } else if code == 3 {
            Some(FileType::Model)
        } else if code == 4 {
            Some(FileType::Texture)
        } else {
            None
        }
    }

    /// Decodes an on-disk kind code.
    pub fn from_code(code: u32) -> (r: Option<FileType>)
        ensures
            r == Self::spec_from_code(code),
    {
        if code == 1 {
            Some(FileType::Empty)
        } else if code == 2 {
            Some(FileType::Standard)
        } else if code == 3 {
            Some(FileType::Model)
        } else if code == 4 {
            Some(FileType::Texture)
        } else {
            None
        }
    }

    /// The on-disk kind code of this entry kind.
    pub fn code(self) -> (r: u32)
        ensures
            Self::spec_from_code(r) == Some(self),
    {
        match self {
            FileType::Empty => 1,
            FileType::Standard => 2,
            FileType::Model => 3,
            FileType::Texture => 4,
        }
    }
}

/// How one block's payload is stored. The two on-disk header fields carry no
/// explicit tag; the first field doubles as the discriminant by comparing it
/// to `UNCOMPRESSED_SENTINEL`.
#[derive(Debug, Clone, Copy, PartialEq, Eq, Structural)]
pub enum CompressionMode {
    /// DEFLATE-compressed payload of `compressed_length` bytes that declares
    /// `decompressed_length` bytes of output.
    Compressed { compressed_length: u32, decompressed_length: u32 },
    /// Raw payload of `file_size` bytes.
    Uncompressed { file_size: u32 },
}

impl CompressionMode {
    /// Classification of the two raw header fields: the sentinel in the first
    /// field marks an uncompressed block, anything else a compressed one.
    pub open spec fn spec_classify(x: u32, y: u32) -> CompressionMode {
        if x == UNCOMPRESSED_SENTINEL {
            CompressionMode::Uncompressed { file_size: y }
        } else {
            CompressionMode::Compressed { compressed_length: x, decompressed_length: y }
        }
    }

    /// Classifies the two raw 32-bit header fields, exactly once, at
    /// construction time. A first field equal to `UNCOMPRESSED_SENTINEL` is
    /// always uncompressed, whatever the second field holds; any other first
    /// field is always compressed.
    pub fn classify(x: u32, y: u32) -> (r: CompressionMode)
        ensures
            r == Self::spec_classify(x, y),
            x == UNCOMPRESSED_SENTINEL ==> r == (CompressionMode::Uncompressed { file_size: y }),
            x != UNCOMPRESSED_SENTINEL ==> r == (CompressionMode::Compressed {
                compressed_length: x,
                decompressed_length: y,
            }),
    {
        if x == UNCOMPRESSED_SENTINEL {
            CompressionMode::Uncompressed { file_size: y }
        } else {
            CompressionMode::Compressed { compressed_length: x, decompressed_length: y }
        }
    }
}

/// The fixed 16-byte header in front of every block: a declared header size,
/// four ignored bytes, and the two fields that encode the compression mode.
/// The payload starts 16 bytes after the header's own position in either mode.
#[derive(Debug, Clone, Copy, PartialEq, Eq, Structural)]
pub struct DatBlockHeader {
    pub size: u32,
    pub compression: CompressionMode,
}

/// The block header stored at position `p` of `d`.
pub open spec fn block_header_at(d: Seq<u8>, p: int) -> DatBlockHeader {
    DatBlockHeader {
        size: le_u32_at(d, p),
        compression: CompressionMode::spec_classify(le_u32_at(d, p + 8), le_u32_at(d, p + 12)),
    }
}

/// Why a decode failed.
#[derive(Debug, Clone, Copy, PartialEq, Eq, Structural)]
pub enum DatError {
    /// An entry or block header cannot be parsed at the expected position.
    MalformedHeader,
    /// The entry kind is `Empty` or an unrecognized value.
    InvalidEntryKind,
    /// The inflate step reported an error for a compressed block.
    DecompressionFailure,
    /// A seek or read target lies outside the backing buffer.
    BoundsFailure,
}

/// How many payload bytes the block at `p` occupies in the archive.
pub open spec fn block_payload_len(d: Seq<u8>, p: int) -> int {
    match block_header_at(d, p).compression {
        CompressionMode::Compressed { compressed_length, .. } => compressed_length as int,
        CompressionMode::Uncompressed { file_size } => file_size as int,
    }
}

/// The stream position just past the block at `p`: its 16-byte header plus
/// its stored payload.
pub open spec fn block_end(d: Seq<u8>, p: int) -> int {
    p + 16 + block_payload_len(d, p)
}

/// A decode result with the returned bytes abstracted to a sequence.
pub open spec fn result_view(r: Result<Vec<u8>, DatError>) -> Result<Seq<u8>, DatError> {
    match r {
        Ok(v) => Ok(v@),
        Err(e) => Err(e),
    }
}

/// What decoding the block at position `p` of archive `d` yields.
///
/// A header that does not fit in the buffer cannot be parsed; a payload that
/// runs past the buffer is a bounds failure. An uncompressed payload is
/// returned verbatim. A compressed payload is handed to the raw-DEFLATE
/// decompressor with an output buffer of the declared decompressed length;
/// whatever length the decompressor reports is the block's output, even when
/// it is shorter than declared.
pub open spec fn decoded_block(d: Seq<u8>, p: int) -> Result<Seq<u8>, DatError> {
    if p < 0 || p + 16 > d.len() {
        Err(DatError::MalformedHeader)
    } else {
        match block_header_at(d, p).compression {
            CompressionMode::Uncompressed { file_size } => {
                if p + 16 + file_size <= d.len() {
                    Ok(d.subrange(p + 16, p + 16 + file_size))
                } else {
                    Err(DatError::BoundsFailure)
                }
            }
            CompressionMode::Compressed { compressed_length, decompressed_length } => {
                if p + 16 + compressed_length <= d.len() {
                    match inflate_raw(
                        d.subrange(p + 16, p + 16 + compressed_length),
                        decompressed_length as nat,
                    ) {
                        Some(s) => Ok(s),
                        None => Err(DatError::DecompressionFailure),
                    }
                } else {
                    Err(DatError::BoundsFailure)
                }
            }
        }
    }
}


/// Compression-mode discrimination: a block whose first header field equals
/// the sentinel is always treated as uncompressed, whatever its second field
/// holds, and its payload is returned verbatim; any other first field is
/// always treated as compressed and decoded through the decompressor.
pub proof fn lemma_block_mode_discrimination(d: Seq<u8>, p: int)
    requires
        0 <= p,
        p + 16 <= d.len(),
    ensures
        le_u32_at(d, p + 8) == UNCOMPRESSED_SENTINEL ==> block_header_at(d, p).compression
            == (CompressionMode::Uncompressed { file_size: le_u32_at(d, p + 12) }),
        le_u32_at(d, p + 8) != UNCOMPRESSED_SENTINEL ==> block_header_at(d, p).compression
            == (CompressionMode::Compressed {
            compressed_length: le_u32_at(d, p + 8),
            decompressed_length: le_u32_at(d, p + 12),
        }),
        le_u32_at(d, p + 8) == UNCOMPRESSED_SENTINEL && p + 16 + le_u32_at(d, p + 12) <= d.len()
            ==> decoded_block(d, p) == Ok::<Seq<u8>, DatError>(
            d.subrange(p + 16, p + 16 + le_u32_at(d, p + 12)),
        ),
{
}

/// Truncation correctness: a compressed block whose decompressor reports
/// fewer output bytes than the declared decompressed length yields exactly
/// the reported bytes; the declared length sizes the buffer but never pads
/// the output.
pub proof fn lemma_compressed_block_truncation(d: Seq<u8>, p: int, s: Seq<u8>)
    requires
        0 <= p,
        p + 16 <= d.len(),
        le_u32_at(d, p + 8) != UNCOMPRESSED_SENTINEL,
        p + 16 + le_u32_at(d, p + 8) <= d.len(),
        inflate_raw(
            d.subrange(p + 16, p + 16 + le_u32_at(d, p + 8)),
            le_u32_at(d, p + 12) as nat,
        ) == Some(s),
    ensures
        decoded_block(d, p) == Ok::<Seq<u8>, DatError>(s),
        decoded_block(d, p)->Ok_0.len() == s.len(),
{
}

} // verus!
