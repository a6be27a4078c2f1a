use vstd::arithmetic::div_mod::{
    lemma_fundamental_div_mod, lemma_fundamental_div_mod_converse,
};
use vstd::arithmetic::mul::{lemma_mul_inequality, lemma_mul_nonnegative};
use vstd::prelude::*;

use crate::layout::{
    bytes_per_pixel, padded_bytes_per_row, spec_is_block_compressed, spec_padded_bytes_per_row,
    spec_row_bytes, PixelFormat,
};

verus! {

/// The tightly packed image inside a row-aligned buffer: for each of `height`
/// rows of `aligned` bytes, the first `row_bytes` bytes, concatenated.
pub open spec fn spec_unpad(data: Seq<u8>, height: int, row_bytes: int, aligned: int) -> Seq<u8>
    recommends
        0 < row_bytes <= aligned,
        data.len() == height * aligned,
{
    Seq::new(
        (height * row_bytes) as nat,
        |i: int| data[(i / row_bytes) * aligned + (i % row_bytes)],
    )
}

/// A packed image laid out with each row padded to `aligned` bytes, the
/// padding bytes zero.
pub open spec fn spec_pad(packed: Seq<u8>, height: int, row_bytes: int, aligned: int) -> Seq<u8>
    recommends
        0 < row_bytes <= aligned,
        packed.len() == height * row_bytes,
{
    Seq::new(
        (height * aligned) as nat,
        |i: int|
            if i % aligned < row_bytes {
                packed[(i / aligned) * row_bytes + (i % aligned)]
            } else {
                0u8
            },
    )
}

/// A packed four-channel image with its fourth channel dropped: of every four
/// bytes the first three are kept.
pub open spec fn spec_drop_alpha(data: Seq<u8>) -> Seq<u8>
    recommends
        data.len() % 4 == 0,
{
    Seq::new((data.len() / 4 * 3) as nat, |i: int| data[(i / 3) * 4 + (i % 3)])
}

/// Strips the per-row alignment padding out of `data`: keeps the first
/// `row_bytes` bytes of each `aligned_row_bytes`-byte row, in row order;
/// anything beyond `height` rows is ignored.
pub fn unpad_rows(data: &Vec<u8>, height: usize, row_bytes: usize, aligned_row_bytes: usize) -> (out:
    Vec<u8>)
    requires
        0 < row_bytes <= aligned_row_bytes,
        data@.len() >= height * aligned_row_bytes,
    ensures
        out@ == spec_unpad(data@, height as int, row_bytes as int, aligned_row_bytes as int),
        out@.len() == height * row_bytes,
{
    let ghost rb = row_bytes as int;
    let ghost al = aligned_row_bytes as int;
    let n = data.len();
    let mut out: Vec<u8> = Vec::new();
    let mut r: usize = 0;
    while r < height
        invariant
            r <= height,
            0 < row_bytes <= aligned_row_bytes,
            rb == row_bytes as int,
            al == aligned_row_bytes as int,
            n == data@.len(),
            data@.len() >= height * aligned_row_bytes,
            out@.len() == r * row_bytes,
            forall|i: int|
                0 <= i < out@.len() ==> out@[i] == data@[(i / rb) * al + (i % rb)],
        decreases height - r,
    {
        let mut c: usize = 0;
        while c < row_bytes
            invariant
                r < height,
                c <= row_bytes,
                0 < row_bytes <= aligned_row_bytes,
                rb == row_bytes as int,
                al == aligned_row_bytes as int,
                n == data@.len(),
                data@.len() >= height * aligned_row_bytes,
                out@.len() == r * row_bytes + c,
                forall|i: int|
                    0 <= i < out@.len() ==> out@[i] == data@[(i / rb) * al + (i % rb)],
            decreases row_bytes - c,
        {
            proof {
                assert((r as int) * al + (c as int) < (height as int) * al && (r as int) * rb + (
                c as int) < (height as int) * rb) by (nonlinear_arith)
                    requires
                        (r as int) < (height as int),
                        0 <= (c as int) < rb,
                        0 < rb <= al,
                ;
            }
            let b = data[r * aligned_row_bytes + c];
            let ghost prev = out@;
            out.push(b);
            proof {
                let k = (r as int) * rb + (c as int);
                lemma_fundamental_div_mod_converse(k, rb, r as int, c as int);
                assert(out@ == prev.push(b));
                assert forall|i: int|
                    0 <= i < out@.len() implies out@[i] == data@[(i / rb) * al + (i % rb)] by {
                    if i < k {
                        assert(out@[i] == prev[i]);
                    } else {
                        assert(i == k);
                        assert(out@[k] == b);
                        assert(k / rb == r as int && k % rb == c as int);
                    }
                }
            }
            c = c + 1;
        }
        proof {
            assert((r as int + 1) * rb == (r as int) * rb + rb) by (nonlinear_arith);
        }
        r = r + 1;
    }
    proof {
        assert(out@ =~= spec_unpad(data@, height as int, rb, al));
    }
    out
}

/// Reconstructs the tightly packed image out of a staging buffer whose rows
/// the hardware padded to the copy alignment. When no padding was needed the
/// buffer already is the packed image and is copied through unchanged.
pub fn reconstruct_image(width: u32, height: u32, format: PixelFormat, data: &Vec<u8>) -> (out:
    Vec<u8>)
    requires
        width >= 1,
        !spec_is_block_compressed(format),
        data@.len() == height * spec_padded_bytes_per_row(width as int, format),
    ensures
        out@ == spec_unpad(
            data@,
            height as int,
            spec_row_bytes(width as int, format),
            spec_padded_bytes_per_row(width as int, format),
        ),
        out@.len() == height * spec_row_bytes(width as int, format),
        spec_row_bytes(width as int, format) == spec_padded_bytes_per_row(width as int, format)
            ==> out@ == data@,
{
    let ghost rb = spec_row_bytes(width as int, format);
    let ghost al = spec_padded_bytes_per_row(width as int, format);
    proof {
        crate::layout::lemma_padded_bytes_per_row_bounds(width as int, format);
        lemma_mul_nonnegative(height as int, al);
    }
    if height == 0 {
        let out: Vec<u8> = Vec::new();
        proof {
            assert(out@ =~= spec_unpad(data@, 0, rb, al));
        }
        return out;
    }
    let aligned64 = padded_bytes_per_row(width, format);
    let n = data.len();
    proof {
        lemma_mul_inequality(1, height as int, al);
        assert(1 * al == al);
        assert(aligned64 <= n <= usize::MAX);
    }
    let aligned_row_bytes = aligned64 as usize;
    let bpp = bytes_per_pixel(format);
    proof {
        assert((width as int) * (bpp as int) == rb && 1 <= (width as int) * (bpp as int))
            by (nonlinear_arith)
            requires
                rb == (width as int) * (bpp as int),
                width >= 1,
                bpp >= 1,
        ;
    }
    let row_bytes = (width as usize) * (bpp as usize);
    if row_bytes == aligned_row_bytes {
        // no padding was introduced: the buffer is already the packed image
        let mut out: Vec<u8> = Vec::new();
        let mut i: usize = 0;
        while i < n
            invariant
                i <= n,
                n == data@.len(),
                out@ =~= data@.take(i as int),
            decreases n - i,
        {
            let b = data[i];
            out.push(b);
            i = i + 1;
        }
        proof {
            assert(out@ =~= data@);
            lemma_unpad_no_padding(data@, height as int, rb);
        }
        out
    } else {
        unpad_rows(data, height as usize, row_bytes, aligned_row_bytes)
    }
}

/// When the aligned row width equals the packed row width, stripping the
/// padding changes nothing.
pub proof fn lemma_unpad_no_padding(data: Seq<u8>, height: int, row_bytes: int)
    requires
        0 < row_bytes,
        0 <= height,
        data.len() == height * row_bytes,
    ensures
        spec_unpad(data, height, row_bytes, row_bytes) == data,
{
    let u = spec_unpad(data, height, row_bytes, row_bytes);
    assert forall|i: int| 0 <= i < data.len() implies u[i] == data[i] by {
        lemma_fundamental_div_mod(i, row_bytes);
        assert((i / row_bytes) * row_bytes == row_bytes * (i / row_bytes)) by (nonlinear_arith);
        assert((i / row_bytes) * row_bytes + (i % row_bytes) == i);
    }
    assert(u =~= data);
}

/// Stripping the padding back out of a padded packed image yields the packed
/// image again, whatever alignment the rows were padded to.
pub proof fn lemma_unpad_inverts_pad(packed: Seq<u8>, height: int, row_bytes: int, aligned: int)
    requires
        0 < row_bytes <= aligned,
        0 <= height,
        packed.len() == height * row_bytes,
    ensures
        spec_unpad(spec_pad(packed, height, row_bytes, aligned), height, row_bytes, aligned)
            == packed,
{
    let padded = spec_pad(packed, height, row_bytes, aligned);
    let u = spec_unpad(padded, height, row_bytes, aligned);
    lemma_mul_nonnegative(height, aligned);
    assert forall|i: int| 0 <= i < height * row_bytes implies u[i] == packed[i] by {
        let q = i / row_bytes;
        let rem = i % row_bytes;
        lemma_fundamental_div_mod(i, row_bytes);
        assert(0 <= rem < row_bytes);
        assert(0 <= q) by (nonlinear_arith)
            requires
                i >= 0,
                row_bytes > 0,
                q == i / row_bytes,
        ;
        assert(q < height) by (nonlinear_arith)
            requires
                i < height * row_bytes,
                row_bytes > 0,
                i == q * row_bytes + rem,
                0 <= rem < row_bytes,
        ;
        let j = q * aligned + rem;
        lemma_fundamental_div_mod_converse(j, aligned, q, rem);
        assert(j < height * aligned) by (nonlinear_arith)
            requires
                q < height,
                0 <= rem < aligned,
                j == q * aligned + rem,
        ;
        assert(0 <= j) by (nonlinear_arith)
            requires
                q >= 0,
                rem >= 0,
                aligned > 0,
                j == q * aligned + rem,
        ;
        assert(u[i] == padded[j]);
        assert(padded[j] == packed[q * row_bytes + rem]);
        assert(packed[q * row_bytes + rem] == packed[i]);
    }
    assert(u =~= packed);
}

/// Drops the fourth channel of a packed four-byte-per-texel image, keeping
/// the first three bytes of every texel.
pub fn rgba_to_rgb(data: &Vec<u8>) -> (out: Vec<u8>)
    requires
        data@.len() % 4 == 0,
    ensures
        out@ == spec_drop_alpha(data@),
        out@.len() == data@.len() / 4 * 3,
{
    let mut out: Vec<u8> = Vec::new();
    let n = data.len();
    let pixels = n / 4;
    let mut p: usize = 0;
    while p < pixels
        invariant
            p <= pixels,
            pixels == n / 4,
            n == data@.len(),
            n % 4 == 0,
            out@.len() == 3 * p,
            forall|i: int| 0 <= i < out@.len() ==> out@[i] == data@[(i / 3) * 4 + (i % 3)],
        decreases pixels - p,
    {
        assert(4 * p + 3 < n && 3 * p + 3 <= 3 * pixels) by (nonlinear_arith)
            requires
                p < pixels,
                pixels == n / 4,
                n % 4 == 0,
        ;
        let mut j: usize = 0;
        while j < 3
            invariant
                j <= 3,
                p < pixels,
                pixels == n / 4,
                n == data@.len(),
                4 * p + 3 < n,
                3 * p + 3 <= 3 * pixels,
                out@.len() == 3 * p + j,
                forall|i: int| 0 <= i < out@.len() ==> out@[i] == data@[(i / 3) * 4 + (i % 3)],
            decreases 3 - j,
        {
            let b = data[4 * p + j];
            out.push(b);
            proof {
                let k = 3 * (p as int) + j;
                lemma_fundamental_div_mod_converse(k, 3, p as int, j as int);
                assert(out@[k] == data@[(k / 3) * 4 + (k % 3)]);
            }
            j = j + 1;
        }
        p = p + 1;
    }
    proof {
        assert(out@ =~= spec_drop_alpha(data@));
    }
    out
}

/// Turns one delivered staging-buffer payload for a `width` by `height`
/// four-channel image into tightly packed three-channel bytes: strips the
/// per-row alignment padding, then drops the fourth channel of every texel.
pub fn parse_image_data(width: u32, height: u32, data: &Vec<u8>) -> (out: Vec<u8>)
    requires
        width >= 1,
        data@.len() == height * spec_padded_bytes_per_row(
            width as int,
            PixelFormat::Rgba8UnormSrgb,
        ),
    ensures
        out@ == spec_drop_alpha(
            spec_unpad(
                data@,
                height as int,
                4 * width,
                spec_padded_bytes_per_row(width as int, PixelFormat::Rgba8UnormSrgb),
            ),
        ),
        out@.len() == 3 * width * height,
{
    let packed = reconstruct_image(width, height, PixelFormat::Rgba8UnormSrgb, data);
    proof {
        crate::layout::lemma_padded_bytes_per_row_bounds(
            width as int,
            PixelFormat::Rgba8UnormSrgb,
        );
        let n = packed@.len() as int;
        assert(n == ((height as int) * (width as int)) * 4) by (nonlinear_arith)
            requires
                n == (height as int) * ((width as int) * 4),
        ;
        lemma_mul_nonnegative(height as int, width as int);
        vstd::arithmetic::div_mod::lemma_mod_multiples_basic((height as int) * (width as int), 4);
        vstd::arithmetic::div_mod::lemma_div_by_multiple((height as int) * (width as int), 4);
        assert(n % 4 == 0 && n / 4 == (height as int) * (width as int));
        assert(n / 4 * 3 == 3 * (width as int) * (height as int)) by (nonlinear_arith)
            requires
                n / 4 == (height as int) * (width as int),
        ;
    }
    rgba_to_rgb(&packed)
}

} // verus!
