use vstd::prelude::*;

verus! {

/// Rows of a texture-to-buffer copy must start at a multiple of this many
/// bytes; row widths are padded up to it before the copy is encoded.
pub const COPY_BYTES_PER_ROW_ALIGNMENT: u64 = 256;

/// The texel formats a readback target may use. Copies of block-compressed
/// formats move whole blocks, so their row pitch is computed on block
/// boundaries rather than on single texels.
#[derive(Clone, Copy, PartialEq, Eq, Structural, Debug)]
pub enum PixelFormat {
    R8Unorm,
    Rg8Unorm,
    Rgba8UnormSrgb,
    Bgra8UnormSrgb,
    Bc1RgbaUnorm,
    Bc3RgbaUnorm,
}

/// Width in texels of one compression block (1 for uncompressed formats).
pub open spec fn spec_block_width(f: PixelFormat) -> int {
    match f {
        PixelFormat::Bc1RgbaUnorm => 4,
        PixelFormat::Bc3RgbaUnorm => 4,
        _ => 1,
    }
}

/// Height in texels of one compression block (1 for uncompressed formats).
pub open spec fn spec_block_height(f: PixelFormat) -> int {
    match f {
        PixelFormat::Bc1RgbaUnorm => 4,
        PixelFormat::Bc3RgbaUnorm => 4,
        _ => 1,
    }
}

/// Bytes one block occupies in a buffer copy; for uncompressed formats this
/// is the size of a single texel.
pub open spec fn spec_block_size(f: PixelFormat) -> int {
    match f {
        PixelFormat::R8Unorm => 1,
        PixelFormat::Rg8Unorm => 2,
        PixelFormat::Rgba8UnormSrgb => 4,
        PixelFormat::Bgra8UnormSrgb => 4,
        PixelFormat::Bc1RgbaUnorm => 8,
        PixelFormat::Bc3RgbaUnorm => 16,
    }
}

pub open spec fn spec_is_block_compressed(f: PixelFormat) -> bool {
    spec_block_width(f) != 1 || spec_block_height(f) != 1
}

/// Bytes per texel of an uncompressed format.
pub open spec fn spec_bytes_per_pixel(f: PixelFormat) -> int {
    spec_block_size(f)
}

/// Unpadded bytes in one row of a copy: whole blocks per row times block size.
pub open spec fn spec_row_bytes(width: int, f: PixelFormat) -> int {
    (width / spec_block_width(f)) * spec_block_size(f)
}

/// The smallest multiple of `align` that is at least `n`.
pub open spec fn round_up(n: int, align: int) -> int
    recommends
        align > 0,
{
    ((n + align - 1) / align) * align
}

/// Row pitch the hardware demands: the unpadded row length rounded up to the
/// copy alignment.
pub open spec fn spec_padded_bytes_per_row(width: int, f: PixelFormat) -> int {
    round_up(spec_row_bytes(width, f), COPY_BYTES_PER_ROW_ALIGNMENT as int)
}

pub fn block_dimensions(f: PixelFormat) -> (d: (u32, u32))
    ensures
        d.0 == spec_block_width(f),
        d.1 == spec_block_height(f),
{
    match f {
        PixelFormat::Bc1RgbaUnorm => (4, 4),
        PixelFormat::Bc3RgbaUnorm => (4, 4),
        _ => (1, 1),
    }
}

pub fn block_copy_size(f: PixelFormat) -> (s: u32)
    ensures
        s == spec_block_size(f),
{
    match f {
        PixelFormat::R8Unorm => 1,
        PixelFormat::Rg8Unorm => 2,
        PixelFormat::Rgba8UnormSrgb => 4,
        PixelFormat::Bgra8UnormSrgb => 4,
        PixelFormat::Bc1RgbaUnorm => 8,
        PixelFormat::Bc3RgbaUnorm => 16,
    }
}

pub fn is_block_compressed(f: PixelFormat) -> (b: bool)
    ensures
        b == spec_is_block_compressed(f),
{
    match f {
        PixelFormat::Bc1RgbaUnorm => true,
        PixelFormat::Bc3RgbaUnorm => true,
        _ => false,
    }
}

/// Bytes per texel; meaningful only for uncompressed formats.
pub fn bytes_per_pixel(f: PixelFormat) -> (s: u32)
    requires
        !spec_is_block_compressed(f),
    ensures
        s == spec_bytes_per_pixel(f),
{
    block_copy_size(f)
}

/// Pads a row byte count up to the hardware copy alignment.
pub fn align_copy_bytes_per_row(row_bytes: u64) -> (r: u64)
    requires
        row_bytes + COPY_BYTES_PER_ROW_ALIGNMENT <= u64::MAX,
    ensures
        r == round_up(row_bytes as int, COPY_BYTES_PER_ROW_ALIGNMENT as int),
        row_bytes <= r < row_bytes + COPY_BYTES_PER_ROW_ALIGNMENT,
        r % COPY_BYTES_PER_ROW_ALIGNMENT == 0,
{
    let q = (row_bytes + COPY_BYTES_PER_ROW_ALIGNMENT - 1) / COPY_BYTES_PER_ROW_ALIGNMENT;
    assert(q * 256 <= row_bytes + 255 < u64::MAX) by (nonlinear_arith)
        requires
            q == (row_bytes + 255) as u64 / 256,
            row_bytes + 256 <= u64::MAX,
    ;
    let r = q * COPY_BYTES_PER_ROW_ALIGNMENT;
    assert(r >= row_bytes && r % 256 == 0 && r < row_bytes + 256) by (nonlinear_arith)
        requires
            q == (row_bytes + 255) as u64 / 256,
            r == q * 256,
            row_bytes + 256 <= u64::MAX,
    ;
    r
}

/// Row pitch for copying one row of a `width`-texel-wide texture in format
/// `f`; block-compressed widths must cover whole blocks.
pub fn padded_bytes_per_row(width: u32, f: PixelFormat) -> (r: u64)
    requires
        width as int % spec_block_width(f) == 0,
    ensures
        r == spec_padded_bytes_per_row(width as int, f),
        r >= spec_row_bytes(width as int, f),
        r % COPY_BYTES_PER_ROW_ALIGNMENT == 0,
{
    let (bw, _bh) = block_dimensions(f);
    let bs = block_copy_size(f);
    let blocks: u64 = width as u64 / bw as u64;
    assert(blocks <= u32::MAX && blocks * bs as u64 <= 0x10_0000_0000u64) by (nonlinear_arith)
        requires
            blocks == width as u64 / bw as u64,
            1 <= bw,
            bs <= 16,
            width <= u32::MAX,
    ;
    let row_bytes: u64 = blocks * bs as u64;
    assert(row_bytes == spec_row_bytes(width as int, f));
    align_copy_bytes_per_row(row_bytes)
}

/// For every extent and format, the padded row pitch covers the unpadded row
/// and is a multiple of the copy alignment; for uncompressed formats the
/// unpadded row is exactly `width * bytes_per_pixel`.
pub proof fn lemma_padded_bytes_per_row_bounds(width: int, f: PixelFormat)
    requires
        width >= 0,
    ensures
        spec_padded_bytes_per_row(width, f) >= spec_row_bytes(width, f),
        spec_padded_bytes_per_row(width, f) % (COPY_BYTES_PER_ROW_ALIGNMENT as int) == 0,
        !spec_is_block_compressed(f) ==> spec_row_bytes(width, f) == width * spec_bytes_per_pixel(
            f,
        ),
{
    let n = spec_row_bytes(width, f);
    assert(n >= 0) by (nonlinear_arith)
        requires
            n == (width / spec_block_width(f)) * spec_block_size(f),
            width >= 0,
            1 <= spec_block_width(f),
            1 <= spec_block_size(f),
    ;
    assert(round_up(n, 256) >= n && round_up(n, 256) % 256 == 0) by (nonlinear_arith)
        requires
            n >= 0,
    ;
    if !spec_is_block_compressed(f) {
        assert(n == width * spec_bytes_per_pixel(f));
    }
}

} // verus!
