use epd_console::pack_bitmap;
use epd_console::PackError;

/// Read back bit `pos` of packed row `row` (MSB-first, `lb` bytes per row).
fn packed_bit(buf: &[u8], lb: usize, row: usize, pos: usize) -> bool {
    (buf[row * lb + pos / 8] >> (7 - (pos % 8))) & 1 == 1
}

fn line_bytes(x: usize, w: usize) -> usize {
    (w + (x % 8) + 7) / 8
}

#[test]
fn pack_all_zero_and_all_one_lengths() {
    for x in 0..8usize {
        let w = 10usize;
        let h = 3usize;
        let zeros = vec![false; w * h];
        let ones = vec![true; w * h];
        for bits in [&zeros, &ones] {
            let (rect, buf) = pack_bitmap(bits, x, 7, w, h).unwrap();
            assert_eq!(buf.len(), line_bytes(x, w) * h);
            assert_eq!(rect.x % 8, 0);
            assert_eq!(rect.w % 8, 0);
            assert_eq!(rect.h, h);
            assert_eq!(rect.y, 7);
        }
    }
}

#[test]
fn pack_round_trip_every_shift() {
    let w = 13usize;
    let h = 4usize;
    // A pattern with structure in both dimensions.
    let bits: Vec<bool> = (0..w * h).map(|i| (i * 7 + i / w) % 3 == 0).collect();
    for xoff in 0..8usize {
        let x = 160 + xoff;
        let shift = x % 8;
        let (rect, buf) = pack_bitmap(&bits, x, 0, w, h).unwrap();
        let lb = line_bytes(x, w);
        assert_eq!(rect.w, lb * 8);
        assert_eq!(rect.x, x - shift);
        for row in 0..h {
            for k in 0..w {
                assert_eq!(
                    packed_bit(&buf, lb, row, shift + k),
                    bits[row * w + k],
                    "mismatch at x={} row={} k={}",
                    x,
                    row,
                    k
                );
            }
            // Padding bits are white.
            for p in 0..shift {
                assert!(!packed_bit(&buf, lb, row, p));
            }
            for p in (shift + w)..lb * 8 {
                assert!(!packed_bit(&buf, lb, row, p));
            }
        }
    }
}

#[test]
fn pack_exact_bytes_aligned() {
    // One row of 8 pixels at a byte-aligned origin packs to one exact byte.
    let bits = vec![true, false, true, false, false, true, true, true];
    let (rect, buf) = pack_bitmap(&bits, 0, 0, 8, 1).unwrap();
    assert_eq!(rect.x, 0);
    assert_eq!(rect.w, 8);
    assert_eq!(buf.as_slice(), &[0b1010_0111]);
}

#[test]
fn pack_exact_bytes_shifted() {
    // The same row at x % 8 == 3 spreads over two bytes.
    let bits = vec![true, false, true, false, false, true, true, true];
    let (rect, buf) = pack_bitmap(&bits, 3, 0, 8, 1).unwrap();
    assert_eq!(rect.x, 0);
    assert_eq!(rect.w, 16);
    assert_eq!(buf.as_slice(), &[0b0001_0100, 0b1110_0000]);
}

#[test]
fn pack_empty_region_never_fails() {
    let bits: Vec<bool> = Vec::new();
    let (rect, buf) = pack_bitmap(&bits, 13, 4, 0, 5).unwrap();
    assert_eq!(buf.len(), 0);
    assert_eq!(rect.x, 8);
    assert_eq!(rect.y, 4);
    assert_eq!(rect.w, 0);
    assert_eq!(rect.h, 0);

    let some = vec![true, false];
    let (rect2, buf2) = pack_bitmap(&some, 0, 0, 3, 0).unwrap();
    assert_eq!(buf2.len(), 0);
    assert_eq!(rect2.w, 0);
    assert_eq!(rect2.h, 0);
}

#[test]
fn pack_bad_input_len_reports_both_counts() {
    let bits = vec![true; 5];
    let err = pack_bitmap(&bits, 0, 0, 3, 2).unwrap_err();
    assert_eq!(err, PackError::BadInputLen { expected: 6, got: 5 });
}

#[test]
fn pack_dimension_overflow() {
    let bits = vec![true; 4];
    let err = pack_bitmap(&bits, 0, 0, usize::MAX, 2).unwrap_err();
    assert_eq!(err, PackError::Overflow);
}
