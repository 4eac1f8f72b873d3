//! The pixel copy engine.
//!
//! A mapped staging texture presents `height` rows whose starts are
//! `pitch` bytes apart, while only the first `row_bytes` bytes of each row
//! carry pixels; the rest is driver alignment padding. Copying extracts
//! the pixel rows into a packed destination: `row_bytes` bytes per row, no
//! padding. When the pitch already equals `row_bytes` the whole region is
//! one contiguous block and is copied as such.

use vstd::arithmetic::div_mod::{
    lemma_fundamental_div_mod, lemma_fundamental_div_mod_converse_div,
    lemma_fundamental_div_mod_converse_mod,
};
use vstd::arithmetic::mul::{lemma_mul_inequality, lemma_mul_is_commutative};
use vstd::prelude::*;
use vstd::slice::{slice_index_get, SliceAdditionalExecFns};

verus! {

/// The packed image carried by a mapped region: `height` rows of
/// `row_bytes` bytes each, where row `r` starts at byte `r * pitch` of the
/// region.
pub open spec fn frame_bytes(src: Seq<u8>, pitch: int, row_bytes: int, height: int) -> Seq<u8>
    recommends
        0 < row_bytes <= pitch,
        0 <= height,
        pitch * height <= src.len(),
{
    Seq::new((row_bytes * height) as nat, |i: int| src[(i / row_bytes) * pitch + (i % row_bytes)])
}

/// Each byte of the packed image comes from the row of the region that
/// contains it: byte `c` of packed row `r` is byte `r * pitch + c` of the
/// region.
pub proof fn lemma_frame_bytes_index(
    src: Seq<u8>,
    pitch: int,
    row_bytes: int,
    height: int,
    r: int,
    c: int,
)
    requires
        0 < row_bytes,
        0 <= r < height,
        0 <= c < row_bytes,
    ensures
        0 <= r * row_bytes + c < frame_bytes(src, pitch, row_bytes, height).len(),
        frame_bytes(src, pitch, row_bytes, height)[r * row_bytes + c] == src[r * pitch + c],
{
    let i = r * row_bytes + c;
    lemma_mul_inequality(r + 1, height, row_bytes);
    assert((r + 1) * row_bytes == r * row_bytes + row_bytes) by (nonlinear_arith);
    assert(r * row_bytes >= 0) by (nonlinear_arith)
        requires
            r >= 0,
            row_bytes > 0,
    ;
    lemma_mul_is_commutative(row_bytes, height);
    lemma_fundamental_div_mod_converse_div(i, row_bytes, r, c);
    lemma_fundamental_div_mod_converse_mod(i, row_bytes, r, c);
}

/// Two mapped regions that carry the same logical rows yield the same
/// packed image, whatever their pitches. In particular a region whose
/// pitch already equals `row_bytes` and a padded region with the same
/// pixel rows copy to identical output.
pub proof fn lemma_frame_bytes_pitch_independent(
    src1: Seq<u8>,
    pitch1: int,
    src2: Seq<u8>,
    pitch2: int,
    row_bytes: int,
    height: int,
)
    requires
        0 < row_bytes,
        0 <= height,
        forall|r: int, c: int|
            0 <= r < height && 0 <= c < row_bytes ==> src1[#[trigger] (r * pitch1 + c)] == src2[r
                * pitch2 + c],
    ensures
        frame_bytes(src1, pitch1, row_bytes, height) == frame_bytes(
            src2,
            pitch2,
            row_bytes,
            height,
        ),
{
    let a = frame_bytes(src1, pitch1, row_bytes, height);
    let b = frame_bytes(src2, pitch2, row_bytes, height);
    assert forall|i: int| 0 <= i < a.len() implies a[i] == b[i] by {
        let r = i / row_bytes;
        let c = i % row_bytes;
        lemma_fundamental_div_mod(i, row_bytes);
        assert(0 <= c < row_bytes);
        assert(r < height) by {
            if r >= height {
                lemma_mul_inequality(height, r, row_bytes);
                lemma_mul_is_commutative(height, row_bytes);
                lemma_mul_is_commutative(r, row_bytes);
                assert(i >= r * row_bytes + c);
            }
        }
        assert(r >= 0) by {
            if r < 0 {
                assert(r * row_bytes + c < 0) by (nonlinear_arith)
                    requires
                        r <= -1,
                        0 <= c < row_bytes,
                ;
            }
        }
        assert(src1[r * pitch1 + c] == src2[r * pitch2 + c]);
    }
    assert(a =~= b);
}

/// Copy `len` bytes from `src` starting at `src_off` into `dest` starting
/// at `dest_off`; all other bytes of `dest` keep their values.
fn copy_row(dest: &mut [u8], dest_off: usize, src: &[u8], src_off: usize, len: usize)
    requires
        dest_off + len <= old(dest)@.len(),
        src_off + len <= src@.len(),
    ensures
        final(dest)@.len() == old(dest)@.len(),
        forall|i: int|
            dest_off <= i < dest_off + len ==> #[trigger] final(dest)@[i] == src@[src_off + i
                - dest_off],
        forall|i: int|
            0 <= i < old(dest)@.len() && !(dest_off <= i < dest_off + len)
                ==> #[trigger] final(dest)@[i] == old(dest)@[i],
{
    let dest_len: usize = dest.len();
    let src_len: usize = src.len();
    let mut j: usize = 0;
    while j < len
        invariant
            j <= len,
            dest_len == dest@.len(),
            src_len == src@.len(),
            dest_off + len <= dest@.len(),
            src_off + len <= src@.len(),
            dest@.len() == old(dest)@.len(),
            forall|i: int|
                dest_off <= i < dest_off + j ==> #[trigger] dest@[i] == src@[src_off + i
                    - dest_off],
            forall|i: int|
                0 <= i < old(dest)@.len() && !(dest_off <= i < dest_off + j)
                    ==> #[trigger] dest@[i] == old(dest)@[i],
        decreases len - j,
    {
        let b = *slice_index_get(src, src_off + j);
        dest[dest_off + j] = b;
        j = j + 1;
    }
}

/// Copy the packed image out of a mapped region: `height` rows of
/// `width * 4` bytes each, row starts `pitch` bytes apart in the source.
/// The image fills the front of `dest`; bytes of `dest` beyond it keep
/// their values.
///
/// When `pitch` equals `width * 4` the region is copied as one contiguous
/// block; otherwise row by row. Both paths yield `frame_bytes`.
pub fn copy_pixels(src: &[u8], pitch: usize, width: u32, height: u32, dest: &mut [u8])
    requires
        0 < width,
        4 * width <= pitch,
        pitch * height <= src@.len(),
        4 * width * height <= old(dest)@.len(),
    ensures
        final(dest)@.len() == old(dest)@.len(),
        final(dest)@.subrange(0, 4 * width * height) == frame_bytes(
            src@,
            pitch as int,
            4 * width as int,
            height as int,
        ),
        forall|i: int|
            4 * width * height <= i < old(dest)@.len() ==> final(dest)@[i] == old(dest)@[i],
{
    let ghost fb = frame_bytes(src@, pitch as int, 4 * width as int, height as int);
    let src_len: usize = src.len();
    let dest_len: usize = dest.len();
    proof {
        assert((4 * width) * height >= 0) by (nonlinear_arith)
            requires
                width >= 0,
                height >= 0,
        ;
        assert(fb.len() == 4 * width * height);
    }
    let row_bytes: usize = (width as usize) * 4;
    if row_bytes == pitch {
        // The rows sit back to back: the packed image is the first
        // `row_bytes * height` bytes of the region itself.
        let total: usize = row_bytes * (height as usize);
        copy_row(dest, 0, src, 0, total);
        proof {
            assert forall|i: int| 0 <= i < total implies fb[i] == src@[i] by {
                let rb = 4 * width as int;
                lemma_fundamental_div_mod(i, rb);
                assert(rb * (i / rb) == (i / rb) * pitch) by (nonlinear_arith)
                    requires
                        rb == pitch,
                ;
                assert((i / rb) * pitch + i % rb == i);
                assert(fb[i] == src@[(i / rb) * pitch + i % rb]);
            }
            assert(final(dest)@.subrange(0, 4 * width * height) =~= fb);
        }
    } else {
        let mut r: usize = 0;
        let mut src_off: usize = 0;
        let mut dest_off: usize = 0;
        while r < height as usize
            invariant
                r <= height,
                0 < width,
                row_bytes == 4 * width,
                row_bytes <= pitch,
                src_len == src@.len(),
                dest_len == dest@.len(),
                pitch * height <= src@.len(),
                4 * width * height <= dest@.len(),
                dest@.len() == old(dest)@.len(),
                src_off == r * pitch,
                dest_off == r * row_bytes,
                fb == frame_bytes(src@, pitch as int, 4 * width as int, height as int),
                fb.len() == 4 * width * height,
                forall|i: int| 0 <= i < dest_off ==> dest@[i] == fb[i],
                forall|i: int| dest_off <= i < dest@.len() ==> dest@[i] == old(dest)@[i],
            decreases height - r,
        {
            proof {
                assert((r + 1) * pitch == r * pitch + pitch) by (nonlinear_arith);
                lemma_mul_inequality(r + 1 as int, height as int, pitch as int);
                lemma_mul_is_commutative(height as int, pitch as int);
                assert((r + 1) * row_bytes == r * row_bytes + row_bytes) by (nonlinear_arith);
                lemma_mul_inequality(r + 1 as int, height as int, row_bytes as int);
                lemma_mul_is_commutative(height as int, row_bytes as int);
            }
            copy_row(dest, dest_off, src, src_off, row_bytes);
            proof {
                assert forall|i: int| 0 <= i < dest_off + row_bytes implies dest@[i] == fb[i] by {
                    if i >= dest_off {
                        let c = i - dest_off;
                        lemma_frame_bytes_index(
                            src@,
                            pitch as int,
                            row_bytes as int,
                            height as int,
                            r as int,
                            c,
                        );
                        assert(dest@[i] == src@[src_off + c]);
                    }
                }
            }
            r = r + 1;
            src_off = src_off + pitch;
            dest_off = dest_off + row_bytes;
        }
        proof {
            lemma_mul_is_commutative(height as int, row_bytes as int);
            assert(dest_off == 4 * width * height);
            assert(final(dest)@.subrange(0, 4 * width * height) =~= fb);
        }
    }
}

} // verus!
