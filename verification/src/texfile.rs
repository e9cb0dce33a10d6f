//! The texture container: its 80-byte header, its per-mip payloads, and the
//! bookkeeping that places each mip's bytes in the written file. Pixel-level
//! decompression of the block-compressed formats is outside the library.

use vstd::prelude::*;
use crate::bytes::{le_u16_at, le_u32_at, push_u16_le, push_u32_le, u16_le_bytes, u32_le_bytes};

verus! {

/// Attribute bit marking a two-dimensional texture.
pub const TEXTURE_TYPE_2D: u32 = 0x800000;

/// How many LOD slots a texture header carries.
pub const MAX_LODS: usize = 3;

/// How many mip-level offset slots a texture header carries.
pub const MAX_MIPMAPS: usize = 13;

/// Offset of the first mip's payload in a written texture file: right after
/// the 80-byte header.
pub const FIRST_MIP_OFFSET: u32 = 80;

/// The pixel format of a texture's payload.
#[derive(Debug, Clone, Copy, PartialEq, Eq, Structural)]
pub enum TextureFormat {
    B8G8R8A8,
    BC1,
    BC3,
    BC5,
    BC7,
    X8R8G8B8,
}

impl TextureFormat {
    /// The on-disk code of each format.
    pub open spec fn spec_code(self) -> u32 {
        match self {
            TextureFormat::B8G8R8A8 => 0x1450,
            TextureFormat::BC1 => 0x3420,
            TextureFormat::BC3 => 0x3431,
            TextureFormat::BC5 => 0x6230,
            TextureFormat::BC7 => 0x6432,
            TextureFormat::X8R8G8B8 => 0x1451,
        }
    }

    /// The format an on-disk code denotes, if any.
    pub open spec fn spec_from_code(code: u32) -> Option<TextureFormat> {
        if code == 0x1450 {
            Some(TextureFormat::B8G8R8A8)
        } else if code == 0x3420 {
            Some(TextureFormat::BC1)
        } else if code == 0x3431 {
            Some(TextureFormat::BC3)
        } else if code == 0x6230 {
            Some(TextureFormat::BC5)
        } else if code == 0x6432 {
            Some(TextureFormat::BC7)
        } else if code == 0x1451 {
            Some(TextureFormat::X8R8G8B8)
        } else {
            None
        }
    }

    /// The on-disk code of this format.
    pub fn code(self) -> (r: u32)
        ensures
            r == self.spec_code(),
            Self::spec_from_code(r) == Some(self),
    {
        match self {
            TextureFormat::B8G8R8A8 => 0x1450,
            TextureFormat::BC1 => 0x3420,
            TextureFormat::BC3 => 0x3431,
            TextureFormat::BC5 => 0x6230,
            TextureFormat::BC7 => 0x6432,
            TextureFormat::X8R8G8B8 => 0x1451,
        }
    }

    /// Decodes an on-disk format code.
    pub fn from_code(code: u32) -> (r: Option<TextureFormat>)
        ensures
            r == Self::spec_from_code(code),
    {
        if code == 0x1450 {
            Some(TextureFormat::B8G8R8A8)
        } else if code == 0x3420 {
            Some(TextureFormat::BC1)
        } else if code == 0x3431 {
            Some(TextureFormat::BC3)
        } else if code == 0x6230 {
            Some(TextureFormat::BC5)
        } else if code == 0x6432 {
            Some(TextureFormat::BC7)
        } else if code == 0x1451 {
            Some(TextureFormat::X8R8G8B8)
        } else {
            None
        }
    }
}

/// The fixed 80-byte header of a texture file.
#[derive(Debug, Clone, Copy, PartialEq, Eq)]
pub struct TexHeader {
    pub attribute: u32,
    pub format: TextureFormat,
    pub width: u16,
    pub height: u16,
    pub depth: u16,
    pub mip_levels: u16,
    pub lod_offsets: [u32; MAX_LODS],
    pub offset_to_surface: [u32; MAX_MIPMAPS],
}

/// The serialized form of a texture header: every field little-endian, the
/// three LOD offsets and thirteen mip offsets in slot order.
pub open spec fn tex_header_bytes(h: TexHeader) -> Seq<u8> {
    u32_le_bytes(h.attribute) + u32_le_bytes(h.format.spec_code()) + u16_le_bytes(h.width)
        + u16_le_bytes(h.height) + u16_le_bytes(h.depth) + u16_le_bytes(h.mip_levels)
        + u32_le_bytes(h.lod_offsets[0]) + u32_le_bytes(h.lod_offsets[1]) + u32_le_bytes(
        h.lod_offsets[2],
    ) + surface_offsets_prefix(h, 13)
}

/// The serialized length of the first `n` mip-offset slots.
pub proof fn lemma_surface_offsets_prefix_len(h: TexHeader, n: int)
    requires
        n >= 0,
    ensures
        surface_offsets_prefix(h, n).len() == 4 * n,
    decreases n,
{
    if n > 0 {
        lemma_surface_offsets_prefix_len(h, n - 1);
    }
}

impl TexHeader {
    /// Serializes the header to its 80 little-endian bytes.
    #[verifier::rlimit(100)]
    pub fn to_bytes(&self) -> (r: Vec<u8>)
        ensures
            r@ == tex_header_bytes(*self),
            r@.len() == 80,
    {
        let mut b: Vec<u8> = Vec::new();
        push_u32_le(&mut b, self.attribute);
        push_u32_le(&mut b, self.format.code());
        push_u16_le(&mut b, self.width);
        push_u16_le(&mut b, self.height);
        push_u16_le(&mut b, self.depth);
        push_u16_le(&mut b, self.mip_levels);
        push_u32_le(&mut b, self.lod_offsets[0]);
        push_u32_le(&mut b, self.lod_offsets[1]);
        push_u32_le(&mut b, self.lod_offsets[2]);
        let mut i: usize = 0;
        while i < 13
            invariant
                i <= 13,
                b@ == u32_le_bytes(self.attribute) + u32_le_bytes(self.format.spec_code())
                    + u16_le_bytes(self.width) + u16_le_bytes(self.height) + u16_le_bytes(
                    self.depth,
                ) + u16_le_bytes(self.mip_levels) + u32_le_bytes(self.lod_offsets[0])
                    + u32_le_bytes(self.lod_offsets[1]) + u32_le_bytes(self.lod_offsets[2])
                    + surface_offsets_prefix(*self, i as int),
            decreases 13 - i,
        {
            push_u32_le(&mut b, self.offset_to_surface[i]);
            assert(surface_offsets_prefix(*self, i + 1) == surface_offsets_prefix(*self, i as int)
                + u32_le_bytes(self.offset_to_surface[i as int]));
            i = i + 1;
        }
        proof {
            lemma_surface_offsets_prefix_len(*self, 13);
        }
        assert(b@ == tex_header_bytes(*self));
        b
    }

    /// Whether the stored mip offsets allow the per-level byte lengths to be
    /// derived: each offset at most the next, and the last at most the file
    /// length.
    pub open spec fn spec_mip_sizes_ok(self, stream_len: u32) -> bool {
        let levels = if self.mip_levels < 13 { self.mip_levels as int } else { 13int };
        &&& forall|i: int|
            0 <= i < levels - 1 ==> #[trigger] self.offset_to_surface[i]
                <= self.offset_to_surface[i + 1]
        &&& (levels > 0 ==> self.offset_to_surface[levels - 1] <= stream_len)
    }

    /// The stored byte length of each mip level in a file of `stream_len`
    /// bytes: the gap between successive mip offsets, the last level running
    /// to the end of the file. Fails when the offsets decrease somewhere or
    /// the last one lies past the end.
    pub fn mip_data_sizes(&self, stream_len: u32) -> (r: Option<Vec<u32>>)
        ensures
            (r is Some) == self.spec_mip_sizes_ok(stream_len),
            r matches Some(v) ==> {
                let levels = if self.mip_levels < 13 { self.mip_levels as int } else { 13int };
                &&& v@.len() == levels
                &&& forall|i: int|
                    0 <= i < levels - 1 ==> #[trigger] v@[i] == self.offset_to_surface[i + 1]
                        - self.offset_to_surface[i]
                &&& (levels > 0 ==> v@[levels - 1] == stream_len - self.offset_to_surface[levels
                    - 1])
            },
    {
        let levels: usize = if self.mip_levels < 13 {
            self.mip_levels as usize
        } else {
            13
        };
        let mut v: Vec<u32> = Vec::new();
        if levels == 0 {
            return Some(v);
        }
        let mut i: usize = 0;
        while i < levels - 1
            invariant
                1 <= levels <= 13,
                levels as int == if self.mip_levels < 13 { self.mip_levels as int } else { 13int },
                i <= levels - 1,
                v@.len() == i,
                forall|j: int|
                    0 <= j < i ==> #[trigger] self.offset_to_surface[j] <= self.offset_to_surface[
                        j + 1
                    ],
                forall|j: int|
                    0 <= j < i ==> #[trigger] v@[j] == self.offset_to_surface[j + 1]
                        - self.offset_to_surface[j],
            decreases levels - i,
        {
            if self.offset_to_surface[i + 1] < self.offset_to_surface[i] {
                proof {
                    assert(!(self.offset_to_surface[i as int] <= self.offset_to_surface[
                        i as int + 1
                    ]));
                    assert(!self.spec_mip_sizes_ok(stream_len));
                }
                return None;
            }
            v.push(self.offset_to_surface[i + 1] - self.offset_to_surface[i]);
            i = i + 1;
        }
        if stream_len < self.offset_to_surface[levels - 1] {
            assert(!self.spec_mip_sizes_ok(stream_len));
            return None;
        }
        v.push(stream_len - self.offset_to_surface[levels - 1]);
        assert(self.spec_mip_sizes_ok(stream_len));
        Some(v)
    }

    /// Parses a header from the first 80 bytes of `b`. Fails when fewer than
    /// 80 bytes are given or the format code is unknown.
    pub fn from_bytes(b: &[u8]) -> (r: Option<TexHeader>)
        ensures
            match r {
                Some(h) => b@.len() >= 80 && h.attribute == le_u32_at(b@, 0)
                    && Some(h.format) == TextureFormat::spec_from_code(le_u32_at(b@, 4))
                    && h.width == le_u16_at(b@, 8) && h.height == le_u16_at(b@, 10) && h.depth
                    == le_u16_at(b@, 12) && h.mip_levels == le_u16_at(b@, 14) && (forall|i: int|
                    0 <= i < 3 ==> h.lod_offsets[i] == le_u32_at(b@, 16 + 4 * i)) && (forall|
                    i: int,
                |
                    0 <= i < 13 ==> h.offset_to_surface[i] == le_u32_at(b@, 28 + 4 * i)),
                None => b@.len() < 80 || TextureFormat::spec_from_code(le_u32_at(b@, 4)) is None,
            },
    {
        if b.len() < 80 {
            return None;
        }
        let format = match TextureFormat::from_code(slice_u32_at(b, 4)) {
            Some(f) => f,
            None => {
                return None;
            }
        };
        let lod_offsets: [u32; 3] = [slice_u32_at(b, 16), slice_u32_at(b, 20), slice_u32_at(b, 24)];
        let offset_to_surface: [u32; 13] = [
            slice_u32_at(b, 28),
            slice_u32_at(b, 32),
            slice_u32_at(b, 36),
            slice_u32_at(b, 40),
            slice_u32_at(b, 44),
            slice_u32_at(b, 48),
            slice_u32_at(b, 52),
            slice_u32_at(b, 56),
            slice_u32_at(b, 60),
            slice_u32_at(b, 64),
            slice_u32_at(b, 68),
            slice_u32_at(b, 72),
            slice_u32_at(b, 76),
        ];
        Some(
            TexHeader {
                attribute: slice_u32_at(b, 0),
                format,
                width: slice_u16_at(b, 8),
                height: slice_u16_at(b, 10),
                depth: slice_u16_at(b, 12),
                mip_levels: slice_u16_at(b, 14),
                lod_offsets,
                offset_to_surface,
            },
        )
    }
}

/// The serialized mip-offset slots of `h` before slot `n`.
pub open spec fn surface_offsets_prefix(h: TexHeader, n: int) -> Seq<u8>
    decreases n,
{
    if n <= 0 {
        Seq::empty()
    } else {
        surface_offsets_prefix(h, n - 1) + u32_le_bytes(h.offset_to_surface[n - 1])
    }
}

/// The 32-bit little-endian value at position `p` of a byte slice.
fn slice_u32_at(b: &[u8], p: usize) -> (r: u32)
    requires
        p + 4 <= b@.len(),
    ensures
        r == le_u32_at(b@, p as int),
{
    let b0 = b[p] as u32;
    let b1 = b[p + 1] as u32;
    let b2 = b[p + 2] as u32;
    let b3 = b[p + 3] as u32;
    b0 + b1 * 0x100 + b2 * 0x10000 + b3 * 0x1000000
}

/// The 16-bit little-endian value at position `p` of a byte slice.
fn slice_u16_at(b: &[u8], p: usize) -> (r: u16)
    requires
        p + 2 <= b@.len(),
    ensures
        r == le_u16_at(b@, p as int),
{
    let b0 = b[p] as u16;
    let b1 = b[p + 1] as u16;
    b0 + b1 * 0x100
}

/// One mip level's pixel payload.
#[derive(Debug, Clone, PartialEq, Eq)]
pub struct Texture {
    pub rgba: Vec<u8>,
}

/// Bookkeeping carried beside a texture: how many bytes one pixel occupies.
#[derive(Debug, Clone, Copy, PartialEq, Eq, Structural)]
pub struct Meta {
    pub colorbytes: u32,
}

/// A texture file: its header, its mip payloads in level order, and the
/// pixel bookkeeping.
#[derive(Debug, Clone, PartialEq, Eq)]
pub struct TexFile {
    pub header: TexHeader,
    pub textures: Vec<Texture>,
    pub meta: Meta,
}

/// Four to the power `n`: the pixel-count scale between one mip level and
/// the next.
pub open spec fn pow4(n: nat) -> nat
    decreases n,
{
    if n == 0 {
        1nat
    } else {
        4 * pow4((n - 1) as nat)
    }
}

/// Four to the power `n`, executable for every mip level a texture can hold.
fn pow4_exec(n: usize) -> (r: u32)
    requires
        n <= 15,
    ensures
        r == pow4(n as nat),
        r >= 1,
{
    proof {
        reveal_with_fuel(pow4, 17);
    }
    match n {
        0 => 1,
        1 => 4,
        2 => 0x10,
        3 => 0x40,
        4 => 0x100,
        5 => 0x400,
        6 => 0x1000,
        7 => 0x4000,
        8 => 0x10000,
        9 => 0x40000,
        10 => 0x100000,
        11 => 0x400000,
        12 => 0x1000000,
        13 => 0x4000000,
        14 => 0x10000000,
        _ => 0x40000000,
    }
}

impl TexFile {
    /// How many payload bytes mip level `level` of this texture holds: the
    /// full-size pixel byte count scaled down four-fold per level.
    pub open spec fn spec_mip_len(self, level: nat) -> int {
        (self.header.width * self.header.height * self.meta.colorbytes) as int / pow4(level) as int
    }

    /// An empty two-dimensional texture of the given size, holding no mip
    /// payloads yet, with four bytes per pixel and the standard LOD slots.
    pub fn new(width: u16, height: u16, mips: u16) -> (r: TexFile)
        ensures
            r.header.attribute == TEXTURE_TYPE_2D,
            r.header.format == TextureFormat::B8G8R8A8,
            r.header.width == width,
            r.header.height == height,
            r.header.depth == 1,
            r.header.mip_levels == if mips < 13 { mips as int } else { 13int },
            r.header.lod_offsets[0] == 0 && r.header.lod_offsets[1] == 1 && r.header.lod_offsets[2]
                == 2,
            forall|i: int| 0 <= i < 13 ==> r.header.offset_to_surface[i] == 0,
            r.textures@.len() == 0,
            r.meta.colorbytes == 4,
    {
        let mip_levels: u16 = if mips < 13 {
            mips
        } else {
            13
        };
        TexFile {
            header: TexHeader {
                attribute: TEXTURE_TYPE_2D,
                format: TextureFormat::B8G8R8A8,
                width,
                height,
                depth: 1,
                mip_levels,
                lod_offsets: [0, 1, 2],
                offset_to_surface: [0, 0, 0, 0, 0, 0, 0, 0, 0, 0, 0, 0, 0],
            },
            textures: Vec::new(),
            meta: Meta { colorbytes: 4 },
        }
    }

    /// Appends one mip level's payload, which must be exactly the level's
    /// byte count, and records where its bytes will sit in the written file:
    /// the first level right after the header, each further level right
    /// after the previous one.
    pub fn push_tex(&mut self, rgba: &[u8])
        requires
            old(self).textures@.len() < 13,
            old(self).header.width * old(self).header.height <= u32::MAX,
            old(self).header.width * old(self).header.height * old(self).meta.colorbytes
                <= u32::MAX,
            rgba@.len() == old(self).spec_mip_len(old(self).textures@.len()),
            old(self).textures@.len() > 0 ==> old(self).header.offset_to_surface[
                old(self).textures@.len() - 1
            ] + old(self).textures@[old(self).textures@.len() - 1].rgba@.len() <= u32::MAX,
        ensures
            final(self).header.offset_to_surface@ == old(self).header.offset_to_surface@.update(
                old(self).textures@.len() as int,
                if old(self).textures@.len() == 0 {
                    FIRST_MIP_OFFSET
                } else {
                    (old(self).header.offset_to_surface[old(self).textures@.len() - 1] + old(
                        self,
                    ).textures@[old(self).textures@.len() - 1].rgba@.len()) as u32
                },
            ),
            final(self).textures@.len() == old(self).textures@.len() + 1,
            final(self).textures@[old(self).textures@.len() as int].rgba@ == rgba@,
            forall|i: int|
                0 <= i < old(self).textures@.len() ==> final(self).textures@[i] == old(
                    self,
                ).textures@[i],
            final(self).header.attribute == old(self).header.attribute,
            final(self).header.format == old(self).header.format,
            final(self).header.width == old(self).header.width,
            final(self).header.height == old(self).header.height,
            final(self).header.depth == old(self).header.depth,
            final(self).header.mip_levels == old(self).header.mip_levels,
            final(self).header.lod_offsets == old(self).header.lod_offsets,
            final(self).meta == old(self).meta,
    {
        let levels = self.textures.len();
        let scale = pow4_exec(levels);
        let pixel_bytes = self.header.width as u32 * self.header.height as u32
            * self.meta.colorbytes;
        let want = pixel_bytes / scale;
        assert(want == self.spec_mip_len(levels as nat));
        let dst = vstd::slice::slice_to_vec(rgba);
        let off: u32 = if levels == 0 {
            FIRST_MIP_OFFSET
        } else {
            self.header.offset_to_surface[levels - 1] + self.textures[levels - 1].rgba.len() as u32
        };
        let mut offs = self.header.offset_to_surface;
        offs[levels] = off;
        self.header.offset_to_surface = offs;
        self.textures.push(Texture { rgba: dst });
    }
}

/// Whether the four-byte pixel group `g` of `u` equals the group at the same
/// position of `l`.
pub open spec fn pixel_group_matches(u: Seq<u8>, l: Seq<u8>, g: int) -> bool {
    u[4 * g] == l[4 * g] && u[4 * g + 1] == l[4 * g + 1] && u[4 * g + 2] == l[4 * g + 2] && u[4 * g
        + 3] == l[4 * g + 3]
}

/// Blanks every aligned four-byte pixel group of `upper` that is identical
/// to the group at the same position of `lower`, and leaves every other
/// group untouched. Used to extract an overlay: pixels equal to the base
/// layer become zero.
pub fn blank_matching_pixels(upper: &mut Vec<u8>, lower: &Vec<u8>)
    requires
        old(upper)@.len() % 4 == 0,
        lower@.len() >= old(upper)@.len(),
    ensures
        final(upper)@.len() == old(upper)@.len(),
        forall|g: int|
            #![trigger pixel_group_matches(old(upper)@, lower@, g)]
            0 <= g < old(upper)@.len() / 4 ==> if pixel_group_matches(old(upper)@, lower@, g) {
                final(upper)@[4 * g] == 0 && final(upper)@[4 * g + 1] == 0 && final(upper)@[4 * g
                    + 2] == 0 && final(upper)@[4 * g + 3] == 0
            } else {
                final(upper)@[4 * g] == old(upper)@[4 * g]
                    && final(upper)@[4 * g + 1] == old(upper)@[4 * g + 1]
                    && final(upper)@[4 * g + 2] == old(upper)@[4 * g + 2]
                    && final(upper)@[4 * g + 3] == old(upper)@[4 * g + 3]
            },
{
    let ghost u0 = upper@;
    let n = upper.len();
    let groups = n / 4;
    let mut g: usize = 0;
    while g < groups
        invariant
            n == u0.len(),
            u0.len() % 4 == 0,
            groups == u0.len() / 4,
            lower@.len() >= u0.len(),
            upper@.len() == u0.len(),
            g <= groups,
            forall|h: int|
                #![trigger pixel_group_matches(u0, lower@, h)]
                0 <= h < g ==> if pixel_group_matches(u0, lower@, h) {
                    upper@[4 * h] == 0 && upper@[4 * h + 1] == 0 && upper@[4 * h + 2] == 0
                        && upper@[4 * h + 3] == 0
                } else {
                    upper@[4 * h] == u0[4 * h] && upper@[4 * h + 1] == u0[4 * h + 1] && upper@[4
                        * h + 2] == u0[4 * h + 2] && upper@[4 * h + 3] == u0[4 * h + 3]
                },
            forall|k: int| 4 * g <= k < n ==> upper@[k] == u0[k],
        decreases groups - g,
    {
        let i = 4 * g;
        let same = upper[i] == lower[i] && upper[i + 1] == lower[i + 1] && upper[i + 2] == lower[i
            + 2] && upper[i + 3] == lower[i + 3];
        if same {
            upper[i] = 0;
            upper[i + 1] = 0;
            upper[i + 2] = 0;
            upper[i + 3] = 0;
        }
        g = g + 1;
    }
}

} // verus!
