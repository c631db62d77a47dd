//! Integer bookkeeping of the drawing surface: the scene's viewport, the
//! size of the depth target, and where one depth texel lands when the depth
//! target is copied into a buffer for reading back.
use vstd::prelude::*;

verus! {

/// Bytes per texel of the 32-bit depth target.
pub const DEPTH_TEXEL_BYTES: u32 = 4;

/// The scene's viewport in physical pixels: the resolution written to the
/// frame metadata, and the camera's aspect ratio `width / height`.
pub struct Viewport {
    width: u32,
    height: u32,
}

impl Viewport {
    pub closed spec fn width_spec(&self) -> u32 {
        self.width
    }

    pub closed spec fn height_spec(&self) -> u32 {
        self.height
    }

    pub fn new(width: u32, height: u32) -> (r: Self)
        ensures
            r.width_spec() == width,
            r.height_spec() == height,
    {
        Viewport { width, height }
    }

    pub fn width(&self) -> (r: u32)
        ensures
            r == self.width_spec(),
    {
        self.width
    }

    pub fn height(&self) -> (r: u32)
        ensures
            r == self.height_spec(),
    {
        self.height
    }

    /// Takes the new size unless `height` is zero, which would make the
    /// aspect ratio undefined; returns whether the size was taken.
    pub fn resize(&mut self, width: u32, height: u32) -> (applied: bool)
        ensures
            applied == (height != 0),
            applied ==> final(self).width_spec() == width && final(self).height_spec() == height,
            !applied ==> *final(self) == *old(self),
    {
        if height == 0 {
            return false;
        }
        self.width = width;
        self.height = height;
        true
    }
}

/// The size of the depth target for a surface of `width` by `height`:
/// never zero in either direction.
pub fn depth_texture_size(width: u32, height: u32) -> (r: (u32, u32))
    ensures
        r.0 == if width == 0 {
            1
        } else {
            width
        },
        r.1 == if height == 0 {
            1
        } else {
            height
        },
{
    (if width == 0 {
        1
    } else {
        width
    }, if height == 0 {
        1
    } else {
        height
    })
}

/// `n` rounded up to a multiple of `align`.
pub open spec fn round_up(n: nat, align: nat) -> nat
    recommends
        align > 0,
{
    if n % align == 0 {
        n
    } else {
        (n / align + 1) * align
    }
}

/// Bytes per row of a copy of a depth target `width` texels wide.
pub open spec fn padded_row_bytes(width: nat) -> nat {
    round_up(width * DEPTH_TEXEL_BYTES as nat, 256)
}

/// The widest depth target whose padded rows fit in a `u32`.
pub const MAX_READBACK_WIDTH: u32 = 1073741760;

/// Where to find one texel in a buffer that holds a copy of the whole depth
/// target.
#[derive(Debug, Clone, Copy, PartialEq, Eq, Structural)]
pub struct DepthReadback {
    /// Bytes per row in the buffer.
    pub padded_row_bytes: u32,
    /// Size of the buffer in bytes.
    pub buffer_size: u64,
    /// Offset of the texel's four bytes in the buffer.
    pub byte_offset: u64,
}

/// The copy layout for reading texel (`x`, `y`) of a `width` by `height`
/// depth target, or `None` when the target is empty or the texel lies
/// outside it.
pub fn depth_readback(width: u32, height: u32, x: u32, y: u32) -> (r: Option<DepthReadback>)
    requires
        width <= MAX_READBACK_WIDTH,
    ensures
        r is None <==> (width == 0 || height == 0 || x >= width || y >= height),
        r matches Some(l) ==> {
            &&& l.padded_row_bytes == padded_row_bytes(width as nat)
            &&& l.buffer_size == l.padded_row_bytes * height
            &&& l.byte_offset == y * l.padded_row_bytes + x * DEPTH_TEXEL_BYTES
            &&& l.byte_offset + DEPTH_TEXEL_BYTES <= l.buffer_size
        },
{
    if width == 0 || height == 0 {
        return None;
    }
    if x >= width || y >= height {
        return None;
    }
    let align = copy_row_alignment();
    let unpadded = width * DEPTH_TEXEL_BYTES;
    let padded = if unpadded % align == 0 {
        unpadded
    } else {
        (unpadded / align + 1) * align
    };
    proof {
        lemma_word_product_fits(padded as int, height as int);
        lemma_word_product_fits(y as int, padded as int);
    }
    let buffer_size = padded as u64 * height as u64;
    let byte_offset = y as u64 * padded as u64 + x as u64 * DEPTH_TEXEL_BYTES as u64;
    proof {
        lemma_texel_in_buffer(width as int, height as int, x as int, y as int, padded as int);
    }
    Some(DepthReadback { padded_row_bytes: padded, buffer_size, byte_offset })
}

proof fn lemma_texel_in_buffer(width: int, height: int, x: int, y: int, padded: int)
    requires
        0 <= x < width,
        0 <= y < height,
        4 * width <= padded,
    ensures
        y * padded + x * 4 + 4 <= padded * height,
{
    assert(y * padded <= (height - 1) * padded) by (nonlinear_arith)
        requires
            0 <= y <= height - 1,
            0 <= padded,
    ;
    assert((height - 1) * padded + padded == padded * height) by (nonlinear_arith);
}

proof fn lemma_word_product_fits(a: int, b: int)
    requires
        0 <= a <= u32::MAX,
        0 <= b <= u32::MAX,
    ensures
        a * b <= u32::MAX * u32::MAX,
{
    assert(a * b <= u32::MAX * u32::MAX) by (nonlinear_arith)
        requires
            0 <= a <= u32::MAX,
            0 <= b <= u32::MAX,
    ;
}

/// The four bytes at `offset` of `data`, read as a little-endian word.
pub fn read_texel_bits(data: &[u8], offset: u64) -> (r: u32)
    requires
        offset + 4 <= data@.len(),
    ensures
        r == data@[offset as int] + data@[offset + 1] * 0x100 + data@[offset + 2] * 0x1_0000
            + data@[offset + 3] * 0x100_0000,
{
    let i = offset as usize;
    data[i] as u32 + data[i + 1] as u32 * 0x100 + data[i + 2] as u32 * 0x1_0000 + data[i + 3] as u32
        * 0x100_0000
}

/// Relies on `wgpu::COPY_BYTES_PER_ROW_ALIGNMENT`, which wgpu-types defines
/// as 256: rows of a texture-to-buffer copy start at multiples of it.
#[verifier::external_body]
fn copy_row_alignment() -> (r: u32)
    ensures
        r == 256,
{
    wgpu::COPY_BYTES_PER_ROW_ALIGNMENT
}

} // verus!
