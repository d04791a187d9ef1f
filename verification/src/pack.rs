//! The bit packer: marshals a logical pixel region into the panel's
//! byte-aligned wire format.
//!
//! The source is a row-major sequence of `w * h` bits.  Each destination row
//! starts on a byte boundary of the panel, so the region is shifted right by
//! `x % 8` padding bits and widened to a whole number of bytes; padding bits
//! are white (clear).

use vstd::prelude::*;

use crate::geometry::Rect;
use crate::error::PackError;
use crate::bytes::{zeros_vec, byte_bit, lemma_or_bit, lemma_zero_byte_bits};

verus! {

/// Bit `p` of packed row `row`, where rows are `lb` bytes wide and bits are
/// MSB-first within each byte.
pub open spec fn row_bit(out: Seq<u8>, lb: int, row: int, p: int) -> bool
    recommends
        lb >= 1,
        0 <= row,
        0 <= p < lb * 8,
        (row + 1) * lb <= out.len(),
{
    byte_bit(out[row * lb + p / 8], p % 8)
}

/// The packed row width in bytes for origin column `x` and width `w`.
pub open spec fn packed_line_bytes(x: usize, w: usize) -> int {
    (w + (x % 8) + 7) / 8
}

/// `out` is the correct packing of `bits` for origin column `x`: each source
/// bit `k` of row `row` lands at row bit `x % 8 + k`, and every padding bit
/// is clear.
pub open spec fn packed_correct(out: Seq<u8>, bits: Seq<bool>, x: usize, w: usize, h: usize) -> bool {
    let sh = x % 8;
    let lb = packed_line_bytes(x, w);
    &&& out.len() == lb * h
    &&& forall|row: int, k: int|
        0 <= row < h && 0 <= k < w ==> #[trigger] row_bit(out, lb, row, sh + k) == bits[row * w + k]
    &&& forall|row: int, p: int|
        0 <= row < h && 0 <= p < lb * 8 && !(sh <= p < sh + w) ==> !#[trigger] row_bit(
            out,
            lb,
            row,
            p,
        )
}

/// Whether packing `bits` as a `w` by `h` region at column `x` succeeds:
/// empty regions always do; otherwise the bit count must be exactly `w * h`
/// and no size computation may overflow.
pub open spec fn pack_ok(bits: Seq<bool>, x: usize, w: usize, h: usize) -> bool {
    ||| w == 0
    ||| h == 0
    ||| {
        &&& w * h <= usize::MAX
        &&& bits.len() == w * h
        &&& w + (x % 8) + 7 <= usize::MAX
        &&& packed_line_bytes(x, w) * h <= usize::MAX
    }
}

/// The rectangle a successful packing covers is byte-aligned: its origin
/// column is rounded down to a multiple of 8 and its width is rounded up to
/// one, whatever the requested origin and width were.
pub proof fn lemma_packed_rect_aligned(x: usize, w: usize)
    ensures
        ((x - x % 8) as int) % 8 == 0,
        (packed_line_bytes(x, w) * 8) % 8 == 0,
{
}

/// Pack a row-major `w` by `h` bit region destined for origin `(x, y)` into
/// the panel's byte-aligned format.
///
/// On success the returned rectangle is the region actually covered: its
/// `x` and `w` are the multiples of 8 that enclose the request, and the
/// returned buffer holds exactly `line_bytes * h` bytes with every source
/// bit at row position `x % 8 + k` and padding bits clear.  An empty region
/// yields an empty buffer and a degenerate rectangle, never an error.
pub fn pack_bitmap(bits: &Vec<bool>, x: usize, y: usize, w: usize, h: usize) -> (r: Result<
    (Rect, Vec<u8>),
    PackError,
>)
    ensures
        r is Ok <==> pack_ok(bits@, x, w, h),
        (w == 0 || h == 0) ==> (r matches Ok(t) && t.0 == (Rect {
            x: (x - (x % 8)) as usize,
            y,
            w: 0,
            h: 0,
        }) && t.1@ == Seq::<u8>::empty()),
        (w > 0 && h > 0 && w * h > usize::MAX) ==> r == Err::<(Rect, Vec<u8>), PackError>(
            PackError::Overflow,
        ),
        (w > 0 && h > 0 && w * h <= usize::MAX && bits@.len() != w * h) ==> r == Err::<
            (Rect, Vec<u8>),
            PackError,
        >(PackError::BadInputLen { expected: (w * h) as usize, got: bits@.len() as usize }),
        (w > 0 && h > 0 && w * h <= usize::MAX && bits@.len() == w * h && !pack_ok(bits@, x, w, h))
            ==> r == Err::<(Rect, Vec<u8>), PackError>(PackError::Overflow),
        (w > 0 && h > 0 && r is Ok) ==> (r matches Ok(t) && {
            let sh = x % 8;
            let lb = packed_line_bytes(x, w);
            &&& t.0 == (Rect { x: (x - sh) as usize, y, w: (lb * 8) as usize, h })
            &&& packed_correct(t.1@, bits@, x, w, h)
        }),
{
    if w == 0 || h == 0 {
        let rect = Rect { x: x - (x % 8), y, w: 0, h: 0 };
        return Ok((rect, Vec::new()));
    }
    let expected_bits = match w.checked_mul(h) {
        Some(v) => v,
        None => {
            return Err(PackError::Overflow);
        },
    };
    if bits.len() != expected_bits {
        return Err(PackError::BadInputLen { expected: expected_bits, got: bits.len() });
    }

    let shift = x % 8;
    let x_aligned = x - shift;
    let w_plus = match w.checked_add(shift + 7) {
        Some(v) => v,
        None => {
            return Err(PackError::Overflow);
        },
    };
    let line_bytes = w_plus / 8;
    proof {
        assert(line_bytes * 8 <= w_plus && w_plus < (line_bytes + 1) * 8) by (nonlinear_arith)
            requires
                line_bytes == w_plus / 8,
                w_plus >= 0,
        ;
    }
    let w_aligned = line_bytes * 8;

    let total_bytes = match line_bytes.checked_mul(h) {
        Some(v) => v,
        None => {
            return Err(PackError::Overflow);
        },
    };
    let mut buf: Vec<u8> = zeros_vec(total_bytes);

    let ghost lb = line_bytes as int;
    let mut row: usize = 0;
    let mut row_base: usize = 0;
    let mut src_base: usize = 0;
    while row < h
        invariant
            0 < w <= usize::MAX,
            0 < h,
            w * h <= usize::MAX,
            w + shift + 7 <= usize::MAX,
            row <= h,
            shift == x % 8,
            line_bytes == packed_line_bytes(x, w),
            lb == line_bytes as int,
            1 <= line_bytes,
            w + shift <= lb * 8,
            total_bytes == lb * h,
            row_base == row * lb,
            src_base == row * w,
            bits@.len() == w * h,
            buf@.len() == total_bytes,
            forall|r2: int, k: int|
                0 <= r2 < row && 0 <= k < w ==> #[trigger] row_bit(buf@, lb, r2, shift + k)
                    == bits@[r2 * w + k],
            forall|r2: int, p: int|
                0 <= r2 < row && 0 <= p < lb * 8 && !(shift <= p < shift + w)
                    ==> !#[trigger] row_bit(buf@, lb, r2, p),
            forall|i: int| row * lb <= i < total_bytes ==> buf@[i] == 0,
        decreases h - row,
    {
        proof {
            assert((row + 1) * lb <= total_bytes && row * lb + lb == (row + 1) * lb)
                by (nonlinear_arith)
                requires
                    0 <= row < h,
                    lb >= 1,
                    total_bytes == lb * h,
            ;
            assert(row * w + w <= w * h && (row + 1) * w == row * w + w) by (nonlinear_arith)
                requires
                    0 <= row < h,
                    w >= 1,
            ;
        }
        proof {
            lemma_zero_byte_bits();
            assert forall|p: int| 0 <= p < lb * 8 implies !row_bit(buf@, lb, row as int, p) by {
                assert(0 <= p / 8 < lb) by (nonlinear_arith)
                    requires
                        0 <= p < lb * 8,
                        lb >= 1,
                ;
                assert(buf@[row as int * lb + p / 8] == 0);
            };
        }
        let mut k: usize = 0;
        while k < w
            invariant
                0 < w <= usize::MAX,
                0 < h,
                w * h <= usize::MAX,
                w + shift + 7 <= usize::MAX,
                row < h,
                k <= w,
                shift == x % 8,
                line_bytes == packed_line_bytes(x, w),
                lb == line_bytes as int,
                1 <= line_bytes,
                w + shift <= lb * 8,
                total_bytes == lb * h,
                row_base == row * lb,
                src_base == row * w,
                (row + 1) * lb == row_base + line_bytes,
                row_base + line_bytes <= total_bytes,
                src_base + w <= w * h,
                bits@.len() == w * h,
                buf@.len() == total_bytes,
                forall|r2: int, k2: int|
                    0 <= r2 < row && 0 <= k2 < w ==> #[trigger] row_bit(buf@, lb, r2, shift + k2)
                        == bits@[r2 * w + k2],
                forall|r2: int, p: int|
                    0 <= r2 < row && 0 <= p < lb * 8 && !(shift <= p < shift + w)
                        ==> !#[trigger] row_bit(buf@, lb, r2, p),
                forall|k2: int|
                    0 <= k2 < k ==> #[trigger] row_bit(buf@, lb, row as int, shift + k2)
                        == bits@[row * w + k2],
                forall|p: int|
                    0 <= p < lb * 8 && !(shift <= p < shift + k) ==> !#[trigger] row_bit(
                        buf@,
                        lb,
                        row as int,
                        p,
                    ),
                forall|i: int| (row + 1) * lb <= i < total_bytes ==> buf@[i] == 0,
            decreases w - k,
        {
            let src_bit = bits[src_base + k];
            if src_bit {
                let pos = shift + k;
                let byte_ix = row_base + pos / 8;
                let t: u8 = (7 - (pos % 8)) as u8;
                proof {
                    assert(pos / 8 < line_bytes && 0 <= pos / 8) by (nonlinear_arith)
                        requires
                            0 <= pos,
                            pos < lb * 8,
                            lb == line_bytes as int,
                    ;
                }
                let ghost buf0 = buf@;
                let old_b = buf[byte_ix];
                let new_b = old_b | (1u8 << t);
                buf[byte_ix] = new_b;
                proof {
                    lemma_or_bit(old_b, t);
                    assert(7 - t == pos % 8);
                    assert(buf@ == buf0.update(byte_ix as int, new_b));
                    assert(row as int * lb + pos as int / 8 == byte_ix as int);
                    assert(row_bit(buf@, lb, row as int, pos as int));
                    assert forall|r2: int, p: int|
                        0 <= r2 <= row && 0 <= p < lb * 8 && !(r2 == row as int && p == pos as int)
                            implies #[trigger] row_bit(buf@, lb, r2, p) == row_bit(buf0, lb, r2, p) by {
                        assert(0 <= p / 8 < lb && 0 <= pos as int / 8 < lb) by (nonlinear_arith)
                            requires
                                0 <= p < lb * 8,
                                0 <= pos < lb * 8,
                                lb >= 1,
                        ;
                        let bi = r2 * lb + p / 8;
                        if bi == byte_ix as int {
                            assert(r2 == row as int) by (nonlinear_arith)
                                requires
                                    0 <= r2 <= row,
                                    lb >= 1,
                                    r2 * lb + p / 8 == row as int * lb + pos as int / 8,
                                    0 <= p / 8 < lb,
                                    0 <= pos as int / 8 < lb,
                            ;
                            assert(p / 8 == pos as int / 8);
                            assert(p != pos as int);
                            assert(p % 8 != pos as int % 8);
                            assert(byte_bit(new_b, p % 8) == byte_bit(old_b, p % 8));
                        } else {
                            assert(0 <= bi < total_bytes) by (nonlinear_arith)
                                requires
                                    0 <= r2 <= row,
                                    row < h,
                                    0 <= p / 8 < lb,
                                    total_bytes == lb * h,
                                    lb >= 1,
                                    bi == r2 * lb + p / 8,
                            ;
                            assert(buf@[bi] == buf0[bi]);
                        }
                    }
                }
            }
            k = k + 1;
        }
        row = row + 1;
        row_base = row_base + line_bytes;
        src_base = src_base + w;
    }

    let rect = Rect { x: x_aligned, y, w: w_aligned, h };
    Ok((rect, buf))
}

} // verus!
