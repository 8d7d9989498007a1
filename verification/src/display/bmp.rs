//! Decoding of the 24-bit bitmaps that a Stream Deck Mini receives as key
//! images into RGBA pixels, turned to the orientation of the screen.

use vstd::prelude::*;
use crate::bytes::{zeroed, zeros};
use crate::display::canvas::{lemma_index_in_bounds, lemma_index_injective, pixel_index};
use crate::display::layout::trunc_div;

verus! {

/// Size of the bitmap file header and info header.
pub const BMP_HEADER_SIZE: usize = 54;

/// Little-endian u16 at `at`.
pub open spec fn le_u16_at(d: Seq<u8>, at: int) -> int {
    d[at] + d[at + 1] * 256
}

/// Little-endian u32 at `at`.
pub open spec fn le_u32_at(d: Seq<u8>, at: int) -> int {
    d[at] + d[at + 1] * 256 + d[at + 2] * 65536 + d[at + 3] * 16777216
}

/// Little-endian i32 (two's complement) at `at`.
pub open spec fn le_i32_at(d: Seq<u8>, at: int) -> int {
    let u = le_u32_at(d, at);
    if u >= 0x8000_0000 { u - 0x1_0000_0000 } else { u }
}

/// Offset of the pixel data (header bytes 10-13).
pub open spec fn bmp_pixel_offset(d: Seq<u8>) -> int {
    le_u32_at(d, 10)
}

/// Width in pixels (bytes 18-21).
pub open spec fn bmp_width(d: Seq<u8>) -> int {
    le_i32_at(d, 18)
}

/// Height in pixels (bytes 22-25); positive when the rows are stored bottom-up.
pub open spec fn bmp_height(d: Seq<u8>) -> int {
    le_i32_at(d, 22)
}

/// Bits per pixel (bytes 28-29).
pub open spec fn bmp_bits_per_pixel(d: Seq<u8>) -> int {
    le_u16_at(d, 28)
}

/// Number of rows.
pub open spec fn bmp_rows(d: Seq<u8>) -> int {
    let h = bmp_height(d);
    if h < 0 { -h } else { h }
}

/// Bytes per stored row: 3 per pixel, padded to a multiple of 4.
pub open spec fn bmp_row_size(d: Seq<u8>) -> int {
    trunc_div(bmp_width(d) * 3 + 3, 4) * 4
}

/// Stored row of the `row`-th row from the top.
pub open spec fn bmp_source_row(d: Seq<u8>, row: int) -> int {
    if bmp_height(d) > 0 { bmp_rows(d) - 1 - row } else { row }
}

/// Position of the blue byte of pixel `col` of the `row`-th row from the top.
pub open spec fn bmp_source_index(d: Seq<u8>, row: int, col: int) -> int {
    bmp_pixel_offset(d) + bmp_source_row(d, row) * bmp_row_size(d) + col * 3
}

/// Whether the three bytes of that pixel lie in the data (pixels past the
/// end of the data stay black and transparent).
pub open spec fn bmp_has_pixel(d: Seq<u8>, row: int, col: int) -> bool {
    bmp_source_index(d, row, col) + 2 < d.len()
}

/// Byte `k` (red, green, blue, alpha) of the RGBA value of a stored BGR pixel.
pub open spec fn bmp_rgba(d: Seq<u8>, row: int, col: int, k: int) -> u8 {
    let s = bmp_source_index(d, row, col);
    if k == 0 {
        d[s + 2]
    } else if k == 1 {
        d[s + 1]
    } else if k == 2 {
        d[s]
    } else {
        255u8
    }
}

/// Whether the header is refused: too short for a header, or not 24 bits per pixel.
pub open spec fn bmp_refused(d: Seq<u8>) -> bool {
    d.len() < BMP_HEADER_SIZE || bmp_bits_per_pixel(d) != 24
}

/// The pixel of row `row`, column `col` of the bitmap lands at column `row`,
/// row `col` of the result (turned a quarter and mirrored, as the Mini's
/// images arrive); every pixel that exists in the data lands inside a result
/// `width` x `rows` pixels large.
pub open spec fn bmp_writes_fit(d: Seq<u8>) -> bool {
    forall|row: int, col: int|
        0 <= row < bmp_rows(d) && 0 <= col < bmp_width(d) && #[trigger] bmp_has_pixel(d, row, col) ==> col * bmp_width(d)
            + row < bmp_width(d) * bmp_rows(d)
}

/// Whether a bitmap that is not refused can be decoded: its sizes keep the
/// arithmetic within `i32` and the result within memory, its width is not
/// negative (unless it has no rows), and every pixel fits the result.
pub open spec fn bmp_decodable(d: Seq<u8>) -> bool {
    &&& i32::MIN <= bmp_width(d) * 3 + 3 <= i32::MAX
    &&& bmp_height(d) != i32::MIN
    &&& (bmp_width(d) >= 0 || bmp_rows(d) == 0)
    &&& (bmp_width(d) >= 0 ==> bmp_width(d) * bmp_rows(d) * 4 <= usize::MAX)
    &&& bmp_writes_fit(d)
}

/// RGBA buffer after decoding pixel (row, col) into `buf`.
pub open spec fn decode_pixel(d: Seq<u8>, buf: Seq<u8>, row: int, col: int) -> Seq<u8> {
    if bmp_has_pixel(d, row, col) {
        let q = pixel_index(bmp_width(d), row, col, 0);
        buf.update(q, bmp_rgba(d, row, col, 0)).update(q + 1, bmp_rgba(d, row, col, 1)).update(
            q + 2,
            bmp_rgba(d, row, col, 2),
        ).update(q + 3, 255u8)
    } else {
        buf
    }
}

/// RGBA buffer after decoding the first `cols` pixels of row `row`.
pub open spec fn decode_row(d: Seq<u8>, buf: Seq<u8>, row: int, cols: nat) -> Seq<u8>
    decreases cols,
{
    if cols == 0 {
        buf
    } else {
        decode_pixel(d, decode_row(d, buf, row, (cols - 1) as nat), row, cols - 1)
    }
}

/// RGBA buffer after decoding the first `rows` rows, from black and transparent.
pub open spec fn decode_rows(d: Seq<u8>, rows: nat) -> Seq<u8>
    decreases rows,
{
    if rows == 0 {
        zeros((bmp_width(d) * bmp_rows(d) * 4) as nat)
    } else {
        decode_row(d, decode_rows(d, (rows - 1) as nat), rows - 1, bmp_width(d) as nat)
    }
}

/// A decoded key image.
#[derive(Debug)]
pub struct BmpImage {
    /// Width in pixels.
    pub width: i32,
    /// Height in pixels.
    pub height: i32,
    /// RGBA pixels, row by row.
    pub rgba: Vec<u8>,
}

fn read_u16_le(d: &[u8], at: usize) -> (r: u16)
    requires
        at + 1 < d@.len(),
    ensures
        r == le_u16_at(d@, at as int),
{
    d[at] as u16 + (d[at + 1] as u16) * 256
}

fn read_u32_le(d: &[u8], at: usize) -> (r: u32)
    requires
        at + 3 < d@.len(),
    ensures
        r == le_u32_at(d@, at as int),
{
    d[at] as u32 + (d[at + 1] as u32) * 256 + (d[at + 2] as u32) * 65536 + (d[at + 3] as u32) * 16777216
}

fn read_i32_le(d: &[u8], at: usize) -> (r: i32)
    requires
        at + 3 < d@.len(),
    ensures
        r == le_i32_at(d@, at as int),
{
    let u = read_u32_le(d, at);
    if u >= 0x8000_0000 {
        (u as i64 - 0x1_0000_0000i64) as i32
    } else {
        u as i32
    }
}

/// Whether `decode_bmp` takes these bytes: a refused header, or a header
/// whose sizes and pixels it can decode.
pub fn bmp_decodable_check(bmp: &[u8]) -> (r: bool)
    ensures
        r == (!bmp_refused(bmp@) ==> bmp_decodable(bmp@)),
{
    if bmp.len() < BMP_HEADER_SIZE {
        return true;
    }
    let pixel_offset = read_u32_le(bmp, 10);
    let width = read_i32_le(bmp, 18);
    let height = read_i32_le(bmp, 22);
    if read_u16_le(bmp, 28) != 24 {
        return true;
    }
    let ghost d = bmp@;
    let w3: i64 = width as i64 * 3 + 3;
    if w3 > i32::MAX as i64 || w3 < i32::MIN as i64 || height == i32::MIN {
        return false;
    }
    let rows: i64 = if height < 0 { -(height as i64) } else { height as i64 };
    assert(rows == bmp_rows(d));
    if width < 0 {
        return rows == 0;
    }
    let w: i64 = width as i64;
    assert(0 <= w * rows <= 0x8000_0000 * 0x8000_0000) by (nonlinear_arith)
        requires
            0 <= w < 0x8000_0000,
            0 <= rows <= 0x8000_0000,
    ;
    if (w as u128) * (rows as u128) * 4 > usize::MAX as u128 {
        return false;
    }
    let row_size: i64 = (w * 3 + 3) / 4 * 4;
    assert(row_size == bmp_row_size(d));
    let len: i128 = bmp.len() as i128;
    let mut row: i64 = 0;
    while row < rows
        invariant
            d == bmp@,
            !bmp_refused(d),
            i32::MIN <= bmp_width(d) * 3 + 3 <= i32::MAX,
            bmp_height(d) != i32::MIN,
            height == bmp_height(d),
            w == bmp_width(d),
            rows == bmp_rows(d),
            0 <= w < 0x8000_0000,
            0 <= rows <= 0x8000_0000,
            0 <= row_size == bmp_row_size(d),
            row_size <= 0x8000_0000,
            pixel_offset == bmp_pixel_offset(d),
            len == d.len(),
            w * rows * 4 <= usize::MAX,
            0 <= row <= rows,
            forall|r2: int, c2: int|
                0 <= r2 < row && 0 <= c2 < w && #[trigger] bmp_has_pixel(d, r2, c2) ==> c2 * w + r2 < w * rows,
        decreases rows - row,
    {
        let src_row: i64 = if height > 0 { rows - 1 - row } else { row };
        assert(src_row == bmp_source_row(d, row as int));
        assert(0 <= src_row * row_size <= 0x8000_0000 * 0x8000_0000) by (nonlinear_arith)
            requires
                0 <= src_row < 0x8000_0000,
                0 <= row_size <= 0x8000_0000,
        ;
        let base: i128 = pixel_offset as i128 + (src_row as i128) * (row_size as i128);
        let mut col: i64 = 0;
        let mut past_end = false;
        while col < w && !past_end
            invariant
                d == bmp@,
                !bmp_refused(d),
                w == bmp_width(d),
                rows == bmp_rows(d),
                0 <= w < 0x8000_0000,
                0 <= rows <= 0x8000_0000,
                w * rows * 4 <= usize::MAX,
                0 <= row < rows,
                0 <= col <= w,
                base == bmp_pixel_offset(d) + bmp_source_row(d, row as int) * bmp_row_size(d),
                0 <= base <= 0x1_0000_0000 + 0x8000_0000 * 0x8000_0000,
                len == d.len(),
                forall|r2: int, c2: int|
                    0 <= r2 < row && 0 <= c2 < w && #[trigger] bmp_has_pixel(d, r2, c2) ==> c2 * w + r2 < w * rows,
                forall|c2: int| 0 <= c2 < col && #[trigger] bmp_has_pixel(d, row as int, c2) ==> c2 * w + row < w * rows,
                past_end ==> forall|c2: int| col <= c2 < w ==> !#[trigger] bmp_has_pixel(d, row as int, c2),
            decreases w - col + (if past_end { 0int } else { 1int }),
        {
            let idx: i128 = base + (col as i128) * 3;
            assert(idx == bmp_source_index(d, row as int, col as int));
            if idx + 2 >= len {
                assert forall|c2: int| col <= c2 < w implies !#[trigger] bmp_has_pixel(d, row as int, c2) by {
                    assert(bmp_source_index(d, row as int, c2) == base + c2 * 3);
                }
                past_end = true;
            } else {
                assert(bmp_has_pixel(d, row as int, col as int));
                assert(0 <= col * w <= 0x8000_0000 * 0x8000_0000) by (nonlinear_arith)
                    requires
                        0 <= col < 0x8000_0000,
                        0 <= w < 0x8000_0000,
                ;
                if (col as i128) * (w as i128) + (row as i128) >= (w as i128) * (rows as i128) {
                    assert(!bmp_writes_fit(d));
                    return false;
                }
                col = col + 1;
            }
        }
        row = row + 1;
    }
    true
}

/// Decodes a 24-bit bitmap into RGBA pixels. The stored rows are read
/// bottom-up when the height is positive, top-down otherwise; pixel (row,
/// col) from the top becomes pixel (x = row, y = col) of the result, and
/// blue-green-red becomes red-green-blue with an opaque alpha. `None` when
/// the data is too short for a header or not 24 bits per pixel.
pub fn decode_bmp(bmp: &[u8]) -> (r: Option<BmpImage>)
    requires
        !bmp_refused(bmp@) ==> bmp_decodable(bmp@),
    ensures
        bmp_refused(bmp@) <==> r is None,
        r matches Some(img) ==> {
            &&& img.width == bmp_width(bmp@)
            &&& img.height == bmp_rows(bmp@)
            &&& img.rgba@ == decode_rows(bmp@, bmp_rows(bmp@) as nat)
        },
        r matches Some(img) ==> bmp_rows(bmp@) <= bmp_width(bmp@) ==> forall|x: int, y: int, k: int|
            0 <= x < bmp_width(bmp@) && 0 <= y < bmp_rows(bmp@) && 0 <= k < 4 ==> #[trigger] img.rgba@[pixel_index(
                bmp_width(bmp@),
                x,
                y,
                k,
            )] == if x < bmp_rows(bmp@) && bmp_has_pixel(bmp@, x, y) {
                bmp_rgba(bmp@, x, y, k)
            } else {
                0u8
            },
{
    if bmp.len() < BMP_HEADER_SIZE {
        return None;
    }
    let pixel_offset = read_u32_le(bmp, 10);
    let width = read_i32_le(bmp, 18);
    let height = read_i32_le(bmp, 22);
    let bits_per_pixel = read_u16_le(bmp, 28);
    if bits_per_pixel != 24 {
        return None;
    }
    let ghost d = bmp@;
    let abs_height: i32 = if height < 0 { -height } else { height };
    if abs_height == 0 {
        assert(decode_rows(d, 0) =~= Seq::<u8>::empty()) by {
            assert(bmp_rows(d) == 0);
            assert(bmp_width(d) * bmp_rows(d) * 4 == 0) by (nonlinear_arith)
                requires
                    bmp_rows(d) == 0,
            ;
        }
        return Some(BmpImage { width, height: 0, rgba: Vec::new() });
    }
    let row_size: i32 = (width * 3 + 3) / 4 * 4;
    assert(row_size == bmp_row_size(d));
    let w = width as usize;
    let h = abs_height as usize;
    let bottom_up = height > 0;
    let len = bmp.len() as u64;
    assert(0 <= w * h) by (nonlinear_arith);
    let n = w * h * 4;
    let mut rgba = zeroed(n);
    assert forall|x: int, y: int, k: int|
        0 <= x < w && 0 <= y < h && 0 <= k < 4 implies #[trigger] rgba@[pixel_index(w as int, x, y, k)] == 0u8 by {
        lemma_index_in_bounds(w as int, h as int, x, y, k);
    }
    let mut row: usize = 0;
    while row < h
        invariant
            d == bmp@,
            !bmp_refused(d),
            bmp_decodable(d),
            w == bmp_width(d),
            h == bmp_rows(d),
            h > 0,
            0 <= row_size == bmp_row_size(d),
            bottom_up == (bmp_height(d) > 0),
            pixel_offset == bmp_pixel_offset(d),
            len == d.len(),
            n == w * h * 4,
            row <= h,
            rgba@ == decode_rows(d, row as nat),
            rgba@.len() == n,
            h <= w ==> forall|x: int, y: int, k: int|
                0 <= x < w && 0 <= y < h && 0 <= k < 4 ==> #[trigger] rgba@[pixel_index(w as int, x, y, k)] == if x < row
                    && bmp_has_pixel(d, x, y) {
                    bmp_rgba(d, x, y, k)
                } else {
                    0u8
                },
        decreases h - row,
    {
        let src_row = if bottom_up { h - 1 - row } else { row };
        assert(src_row == bmp_source_row(d, row as int));
        assert(src_row * row_size <= 0x8000_0000u64 * 0x8000_0000u64) by (nonlinear_arith)
            requires
                src_row < 0x8000_0000,
                0 <= row_size < 0x8000_0000,
        ;
        let src_offset: u64 = pixel_offset as u64 + (src_row as u64) * (row_size as u64);
        let ghost at_row_start = rgba@;
        let mut col: usize = 0;
        while col < w
            invariant
                d == bmp@,
                !bmp_refused(d),
                bmp_decodable(d),
                w == bmp_width(d),
                h == bmp_rows(d),
                0 <= row_size == bmp_row_size(d),
                src_offset == pixel_offset + bmp_source_row(d, row as int) * row_size,
                pixel_offset == bmp_pixel_offset(d),
                src_offset <= 0x1_0000_0000u64 + 0x8000_0000u64 * 0x8000_0000u64,
                len == d.len(),
                n == w * h * 4,
                row < h,
                col <= w,
                at_row_start == decode_rows(d, row as nat),
                rgba@ == decode_row(d, at_row_start, row as int, col as nat),
                rgba@.len() == n,
                h <= w ==> forall|x: int, y: int, k: int|
                    0 <= x < w && 0 <= y < h && 0 <= k < 4 ==> #[trigger] rgba@[pixel_index(w as int, x, y, k)] == if (x
                        < row || (x == row && y < col)) && bmp_has_pixel(d, x, y) {
                        bmp_rgba(d, x, y, k)
                    } else {
                        0u8
                    },
            decreases w - col,
        {
            let src_idx: u64 = src_offset + (col as u64) * 3;
            assert(src_idx == bmp_source_index(d, row as int, col as int));
            if src_idx + 2 < len {
                let s = src_idx as usize;
                let b = bmp[s];
                let g = bmp[s + 1];
                let r = bmp[s + 2];
                assert(bmp_has_pixel(d, row as int, col as int));
                assert(col * w + row < w * h);
                let dst = (col * w + row) * 4;
                assert(dst == pixel_index(w as int, row as int, col as int, 0));
                let ghost before = rgba@;
                rgba.set(dst, r);
                rgba.set(dst + 1, g);
                rgba.set(dst + 2, b);
                rgba.set(dst + 3, 255);
                proof {
                    assert(rgba@ == decode_pixel(d, before, row as int, col as int));
                    if h <= w {
                        assert forall|x: int, y: int, k: int|
                            0 <= x < w && 0 <= y < h && 0 <= k < 4 implies #[trigger] rgba@[pixel_index(w as int, x, y, k)]
                                == if (x < row || (x == row && y < col + 1)) && bmp_has_pixel(d, x, y) {
                                bmp_rgba(d, x, y, k)
                            } else {
                                0u8
                            } by {
                            lemma_index_in_bounds(w as int, h as int, x, y, k);
                            let i2 = pixel_index(w as int, x, y, k);
                            if x == row && y == col {
                                assert(i2 == dst + k);
                            } else if dst <= i2 < dst + 4 {
                                lemma_index_injective(w as int, x, y, k, row as int, col as int, i2 - dst);
                            }
                        }
                    }
                }
            } else {
                assert(!bmp_has_pixel(d, row as int, col as int));
            }
            col = col + 1;
        }
        row = row + 1;
    }
    Some(BmpImage { width, height: abs_height, rgba })
}

} // verus!
