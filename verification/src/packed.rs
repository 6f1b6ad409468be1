//! Unpacking of 12-bit samples stored big-endian with control bytes.
//!
//! Two samples share three bytes: the first byte holds the upper eight
//! bits of the first sample, the second byte its lower four bits and the
//! upper four of the second sample, the third byte the lower eight bits of
//! the second sample. After every ten samples of a row one control byte
//! follows, which carries no pixel data. Every row starts on a byte of its
//! own, `bytes_per_row` after the start of the row before.

use vstd::prelude::*;
use crate::error::DecodeError;

verus! {

/// The number of bytes from the start of one row to the start of the
/// next: the packed samples, rounded up to whole bytes, and the control
/// bytes of the row.
pub open spec fn bytes_per_row(width: int) -> int {
    (width * 12 + 7) / 8 + (width + 2) / 10
}

/// The number of bytes that a stream of `height` rows takes.
pub open spec fn stream_len(width: int, height: int) -> int {
    height * bytes_per_row(width)
}

/// The offset, from the start of its row, of the first of the three bytes
/// that hold the sample in column `col` and its neighbour.
pub open spec fn pair_offset(col: int) -> int {
    (col / 2) * 3 + col / 10
}

/// The sample in row `row` and column `col` of a stream of rows of
/// `width` samples.
pub open spec fn sample_at(buf: Seq<u8>, width: int, row: int, col: int) -> int {
    let at = row * bytes_per_row(width) + pair_offset(col);
    if col % 2 == 0 {
        buf[at] * 16 + buf[at + 1] / 16
    } else {
        (buf[at + 1] % 16) * 256 + buf[at + 2]
    }
}

/// The bytes of a sample and its neighbour lie inside the sample's row.
pub proof fn lemma_pair_inside_row(width: int, col: int)
    requires
        0 <= col < width,
    ensures
        0 <= pair_offset(col),
        col % 2 == 0 ==> pair_offset(col) + 2 <= bytes_per_row(width),
        col % 2 == 1 ==> pair_offset(col) + 3 <= bytes_per_row(width),
        width <= bytes_per_row(width),
{
}

/// A stream takes at least the bytes of its samples alone, twelve bits
/// each.
pub proof fn lemma_stream_holds_samples(width: int, height: int)
    requires
        0 <= width,
        0 <= height,
    ensures
        width * height * 12 / 8 <= stream_len(width, height),
        width * height <= stream_len(width, height),
{
    let b = bytes_per_row(width);
    assert(2 * b >= 3 * width);
    assert(height * (2 * b) >= height * (3 * width)) by (nonlinear_arith)
        requires
            2 * b >= 3 * width,
            height >= 0,
    ;
    assert(height * (2 * b) == 2 * (height * b)) by (nonlinear_arith);
    assert(height * (3 * width) == 3 * (width * height)) by (nonlinear_arith);
    assert(width * height * 12 == 12 * (width * height)) by (nonlinear_arith);
    assert(0 <= width * height) by (nonlinear_arith)
        requires
            0 <= width,
            0 <= height,
    ;
}

/// What unpacking gives for the sample in row `row` and column `col`: the
/// sample of the stream, or zero in probe mode.
pub open spec fn unpacked_at(buf: Seq<u8>, width: int, row: int, col: int, dummy: bool) -> int {
    if dummy {
        0
    } else {
        sample_at(buf, width, row, col)
    }
}

/// Whether `out` holds the samples of the first `out.len()` places of the
/// stream, row by row.
pub open spec fn samples_in_order(out: Seq<u16>, buf: Seq<u8>, width: int) -> bool {
    forall|k: int|
        0 <= k < out.len() ==> (#[trigger] out[k]) as int == sample_at(
            buf,
            width,
            k / width,
            k % width,
        )
}

/// The number of bytes from the start of one row to the start of the next.
fn row_bytes(width: usize) -> (out: u128)
    ensures
        out == bytes_per_row(width as int),
{
    (width as u128 * 12 + 7) / 8 + (width as u128 + 2) / 10
}

/// Unpacks a stream of `height` rows of `width` samples.
///
/// In probe mode (`dummy`) the stream is checked for its length only and
/// the samples come out as zeros.
pub fn decode_12be_wcontrol(buf: &[u8], width: usize, height: usize, dummy: bool) -> (out: Result<
    Vec<u16>,
    DecodeError,
>)
    ensures
        out is Err <==> buf.len() < stream_len(width as int, height as int),
        buf.len() < width * height * 12 / 8 ==> out is Err,
        out matches Err(e) ==> e == DecodeError::BufferBounds,
        out matches Ok(v) ==> {
            &&& v.len() == width * height
            &&& forall|row: int, col: int|
                0 <= row < height && 0 <= col < width ==> v[row * width + col] as int
                    == #[trigger] unpacked_at(buf@, width as int, row, col, dummy)
        },
{
    proof {
        lemma_stream_holds_samples(width as int, height as int);
    }
    let stride128 = row_bytes(width);
    let len128 = buf.len() as u128;
    if height > 0 && stride128 > len128 {
        assert(stream_len(width as int, height as int) >= bytes_per_row(width as int))
            by (nonlinear_arith)
            requires
                stream_len(width as int, height as int) == height * bytes_per_row(width as int),
                height >= 1,
                bytes_per_row(width as int) >= 0,
        ;
        return Err(DecodeError::BufferBounds);
    }
    if height == 0 || width == 0 {
        assert(width * height == 0) by (nonlinear_arith)
            requires
                width == 0 || height == 0,
        ;
        assert(stream_len(width as int, height as int) == 0) by (nonlinear_arith)
            requires
                stream_len(width as int, height as int) == height * bytes_per_row(width as int),
                height == 0 || bytes_per_row(width as int) == 0,
        ;
        return Ok(Vec::new());
    }
    assert(height as u128 * stride128 <= 0xffff_ffff_ffff_ffff * 0xffff_ffff_ffff_ffff)
        by (nonlinear_arith)
        requires
            height as u128 <= 0xffff_ffff_ffff_ffff,
            stride128 <= 0xffff_ffff_ffff_ffff,
    ;
    if height as u128 * stride128 > len128 {
        return Err(DecodeError::BufferBounds);
    }
    let stride: usize = stride128 as usize;
    assert(width * height <= buf.len());
    let count: usize = width * height;
    let mut out: Vec<u16> = Vec::with_capacity(count);
    if dummy {
        let mut k: usize = 0;
        while k < count
            invariant
                k <= count,
                out.len() == k,
                forall|i: int| 0 <= i < k ==> out[i] == 0,
            decreases count - k,
        {
            out.push(0);
            k = k + 1;
        }
    } else {
        let mut row: usize = 0;
        while row < height
            invariant
                0 < width,
                stride == bytes_per_row(width as int),
                height * stride <= buf.len(),
                count == width * height,
                row <= height,
                out.len() == row * width,
                samples_in_order(out@, buf@, width as int),
            decreases height - row,
        {
            proof {
                assert((row + 1) * stride <= height * stride) by (nonlinear_arith)
                    requires
                        row + 1 <= height,
                        0 <= stride,
                ;
                assert((row + 1) * stride == row * stride + stride) by (nonlinear_arith);
                assert((row + 1) * width == row * width + width) by (nonlinear_arith);
                assert((row + 1) * width <= height * width) by (nonlinear_arith)
                    requires
                        row + 1 <= height,
                        0 <= width,
                ;
                assert(height * width == width * height) by (nonlinear_arith);
                assert(0 <= row * stride) by (nonlinear_arith)
                    requires
                        0 <= row,
                        0 <= stride,
                ;
            }
            let start: usize = row * stride;
            let mut col: usize = 0;
            while col < width
                invariant
                    0 < width,
                    stride == bytes_per_row(width as int),
                    start == row * stride,
                    start + stride <= buf.len(),
                    row * width + width <= usize::MAX,
                    col <= width,
                    out.len() == row * width + col,
                    samples_in_order(out@, buf@, width as int),
                decreases width - col,
            {
                proof {
                    lemma_pair_inside_row(width as int, col as int);
                    vstd::arithmetic::div_mod::lemma_fundamental_div_mod_converse(
                        row * width + col,
                        width as int,
                        row as int,
                        col as int,
                    );
                    assert(width * row == row * width) by (nonlinear_arith);
                }
                let at: usize = start + (col / 2) * 3 + col / 10;
                let g1: u16 = buf[at] as u16;
                let g2: u16 = buf[at + 1] as u16;
                let sample: u16 = if col % 2 == 0 {
                    g1 * 16 + g2 / 16
                } else {
                    let g3: u16 = buf[at + 2] as u16;
                    (g2 % 16) * 256 + g3
                };
                out.push(sample);
                col = col + 1;
            }
            row = row + 1;
        }
        assert(row * width == width * height) by (nonlinear_arith)
            requires
                row == height,
        ;
    }
    proof {
        assert forall|row: int, col: int| 0 <= row < height && 0 <= col < width implies out[row
            * width + col] as int == #[trigger] unpacked_at(buf@, width as int, row, col, dummy) by {
            let k = row * width + col;
            vstd::arithmetic::div_mod::lemma_fundamental_div_mod_converse(
                k,
                width as int,
                row,
                col,
            );
            assert(width * row == row * width) by (nonlinear_arith);
            assert(0 <= k < width * height) by (nonlinear_arith)
                requires
                    k == row * width + col,
                    0 <= row < height,
                    0 <= col < width,
            ;
            if !dummy {
                assert(out@[k] as int == sample_at(buf@, width as int, k / (width as int), k % (
                width as int)));
            }
        }
    }
    Ok(out)
}

/// The lower twelve bits of the sample in row `row` and column `col` of a
/// grid held row by row; zero beyond the end of the row.
pub open spec fn grid_sample(pixels: Seq<u16>, width: int, row: int, col: int) -> int {
    if col < width {
        pixels[row * width + col] as int % 4096
    } else {
        0
    }
}

/// The byte at offset `off` of row `row` in the packed form of a grid.
/// Control bytes, and bits that belong to no sample, are zero.
pub open spec fn packed_byte(pixels: Seq<u16>, width: int, row: int, off: int) -> int {
    let part = off % 16;
    let col = 10 * (off / 16) + 2 * (part / 3);
    let first = grid_sample(pixels, width, row, col);
    let second = grid_sample(pixels, width, row, col + 1);
    if part == 15 {
        0
    } else if part % 3 == 0 {
        first / 16
    } else if part % 3 == 1 {
        (first % 16) * 16 + second / 256
    } else {
        second % 256
    }
}

/// Whether `stream` is the packed form of a grid of `height` rows of
/// `width` samples.
pub open spec fn is_packed(stream: Seq<u8>, pixels: Seq<u16>, width: int, height: int) -> bool {
    &&& stream.len() == stream_len(width, height)
    &&& forall|row: int, off: int|
        0 <= row < height && 0 <= off < bytes_per_row(width) ==> stream[row * bytes_per_row(width)
            + off] as int == #[trigger] packed_byte(pixels, width, row, off)
}

/// Unpacking what was packed gives the samples back: every sample of
/// twelve bits is found again at its place.
pub proof fn lemma_unpack_packed(
    stream: Seq<u8>,
    pixels: Seq<u16>,
    width: int,
    height: int,
    row: int,
    col: int,
)
    requires
        is_packed(stream, pixels, width, height),
        0 <= row < height,
        0 <= col < width,
        pixels[row * width + col] < 4096,
    ensures
        sample_at(stream, width, row, col) == pixels[row * width + col],
{
    lemma_pair_inside_row(width, col);
    let stride = bytes_per_row(width);
    let off = pair_offset(col);
    let pair = col / 2;
    assert(off == 16 * (pair / 5) + 3 * (pair % 5));
    assert(off / 16 == pair / 5);
    assert(off % 16 == 3 * (pair % 5));
    let first = grid_sample(pixels, width, row, 2 * pair);
    let second = grid_sample(pixels, width, row, 2 * pair + 1);
    assert(0 <= first < 4096 && 0 <= second < 4096);
    assert(stream[row * stride + off] as int == packed_byte(pixels, width, row, off));
    assert(stream[row * stride + (off + 1)] as int == packed_byte(pixels, width, row, off + 1));
    assert(packed_byte(pixels, width, row, off) == first / 16);
    assert(packed_byte(pixels, width, row, off + 1) == (first % 16) * 16 + second / 256);
    if col % 2 == 1 {
        assert(stream[row * stride + (off + 2)] as int == packed_byte(
            pixels,
            width,
            row,
            off + 2,
        ));
        assert(packed_byte(pixels, width, row, off + 2) == second % 256);
    }
}

/// The lower twelve bits of a sample of the grid; zero beyond the end of
/// its row.
fn sample_or_zero(pixels: &[u16], width: usize, height: usize, row: usize, col: usize) -> (out: u16)
    requires
        pixels.len() == width * height,
        row < height,
    ensures
        out == grid_sample(pixels@, width as int, row as int, col as int),
{
    if col < width {
        proof {
            assert(row * width + width <= width * height) by (nonlinear_arith)
                requires
                    row + 1 <= height,
                    0 <= width,
            ;
            assert(0 <= row * width) by (nonlinear_arith)
                requires
                    0 <= row,
                    0 <= width,
            ;
        }
        pixels[row * width + col] % 4096
    } else {
        0
    }
}

/// Packs a grid of `height` rows of `width` samples, the inverse of
/// `decode_12be_wcontrol`. Of every sample the lower twelve bits are
/// stored.
pub fn encode_12be_wcontrol(pixels: &[u16], width: usize, height: usize) -> (out: Vec<u8>)
    requires
        pixels.len() == width * height,
        stream_len(width as int, height as int) <= usize::MAX,
    ensures
        is_packed(out@, pixels@, width as int, height as int),
{
    let mut out: Vec<u8> = Vec::new();
    if height == 0 || width == 0 {
        assert(stream_len(width as int, height as int) == 0) by (nonlinear_arith)
            requires
                stream_len(width as int, height as int) == height * bytes_per_row(width as int),
                height == 0 || bytes_per_row(width as int) == 0,
        ;
        return out;
    }
    let stride128 = row_bytes(width);
    assert(stride128 <= stream_len(width as int, height as int)) by (nonlinear_arith)
        requires
            stream_len(width as int, height as int) == height * stride128,
            height >= 1,
            stride128 >= 0,
    ;
    let stride: usize = stride128 as usize;
    let mut row: usize = 0;
    while row < height
        invariant
            pixels.len() == width * height,
            stride == bytes_per_row(width as int),
            0 < stride,
            height * stride <= usize::MAX,
            row <= height,
            out.len() == row * stride,
            forall|k: int|
                0 <= k < out.len() ==> (#[trigger] out[k]) as int == packed_byte(
                    pixels@,
                    width as int,
                    k / (stride as int),
                    k % (stride as int),
                ),
        decreases height - row,
    {
        proof {
            assert((row + 1) * stride <= height * stride) by (nonlinear_arith)
                requires
                    row + 1 <= height,
                    0 <= stride,
            ;
            assert((row + 1) * stride == row * stride + stride) by (nonlinear_arith);
        }
        let mut off: usize = 0;
        while off < stride
            invariant
                pixels.len() == width * height,
                0 < stride,
                row < height,
                row * stride + stride <= usize::MAX,
                off <= stride,
                out.len() == row * stride + off,
                forall|k: int|
                    0 <= k < out.len() ==> (#[trigger] out[k]) as int == packed_byte(
                        pixels@,
                        width as int,
                        k / (stride as int),
                        k % (stride as int),
                    ),
            decreases stride - off,
        {
            proof {
                vstd::arithmetic::div_mod::lemma_fundamental_div_mod_converse(
                    row * stride + off,
                    stride as int,
                    row as int,
                    off as int,
                );
                assert(stride * row == row * stride) by (nonlinear_arith);
            }
            let part: usize = off % 16;
            let col: usize = 10 * (off / 16) + 2 * (part / 3);
            let first = sample_or_zero(pixels, width, height, row, col);
            let second = sample_or_zero(pixels, width, height, row, col + 1);
            let byte: u16 = if part == 15 {
                0
            } else if part % 3 == 0 {
                first / 16
            } else if part % 3 == 1 {
                (first % 16) * 16 + second / 256
            } else {
                second % 256
            };
            out.push(byte as u8);
            off = off + 1;
        }
        row = row + 1;
    }
    proof {
        let stride_i = stride as int;
        assert(out.len() == stream_len(width as int, height as int));
        assert forall|r: int, off: int| 0 <= r < height && 0 <= off < stride_i implies out@[r
            * stride_i + off] as int == #[trigger] packed_byte(pixels@, width as int, r, off) by {
            let k = r * stride_i + off;
            vstd::arithmetic::div_mod::lemma_fundamental_div_mod_converse(k, stride_i, r, off);
            assert(stride_i * r == r * stride_i) by (nonlinear_arith);
            assert(0 <= k < height * stride_i) by (nonlinear_arith)
                requires
                    k == r * stride_i + off,
                    0 <= r < height,
                    0 <= off < stride_i,
            ;
            assert(out@[k] as int == packed_byte(pixels@, width as int, k / stride_i, k % stride_i));
        }
    }
    out
}

} // verus!
