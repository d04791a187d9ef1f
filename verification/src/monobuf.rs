//! A 1-bit-per-pixel framebuffer, MSB-first within each byte.

use vstd::prelude::*;

use crate::bytes::{byte_bit, lemma_or_bit, lemma_andnot_bit};

verus! {

/// Pixel `i` of a flat MSB-first 1-bit framebuffer.
pub open spec fn fb_bit(fb: Seq<u8>, i: int) -> bool
    recommends
        0 <= i < fb.len() * 8,
{
    byte_bit(fb[i / 8], i % 8)
}

/// A monochrome framebuffer over an owned byte buffer.  Pixel `(x, y)` is
/// bit `y * w + x`, counted row-major and MSB-first within each byte.
pub struct MonoBuf {
    pub buf: Vec<u8>,
    pub w: u32,
    pub h: u32,
}

impl MonoBuf {
    /// The dimensions describe the buffer exactly: one bit per pixel, whole
    /// bytes, and a pixel count a `u32` can address.
    pub open spec fn well_formed(&self) -> bool {
        &&& self.buf@.len() * 8 == (self.w as int) * (self.h as int)
        &&& (self.w as int) * (self.h as int) <= u32::MAX
    }

    /// Wrap a byte buffer whose size matches the dimensions.
    pub fn new(buf: Vec<u8>, w: u32, h: u32) -> (r: Self)
        requires
            buf@.len() * 8 == (w as int) * (h as int),
            (w as int) * (h as int) <= u32::MAX,
        ensures
            r.well_formed(),
            r.buf@ == buf@,
            r.w == w,
            r.h == h,
    {
        Self { buf, w, h }
    }

    /// Set or clear one pixel; coordinates outside the buffer are ignored.
    pub fn set_pixel(&mut self, x: u32, y: u32, on: bool)
        requires
            old(self).well_formed(),
        ensures
            final(self).well_formed(),
            final(self).w == old(self).w,
            final(self).h == old(self).h,
            final(self).buf@.len() == old(self).buf@.len(),
            (x >= old(self).w || y >= old(self).h) ==> final(self).buf@ == old(self).buf@,
            (x < old(self).w && y < old(self).h) ==> {
                let idx = (y as int) * (old(self).w as int) + (x as int);
                &&& fb_bit(final(self).buf@, idx) == on
                &&& forall|j: int|
                    0 <= j < old(self).buf@.len() * 8 && j != idx ==> fb_bit(final(self).buf@, j)
                        == fb_bit(old(self).buf@, j)
            },
    {
        if x >= self.w || y >= self.h {
            return ;
        }
        proof {
            assert((y as int) * (self.w as int) + (x as int) < (self.w as int) * (self.h as int))
                by (nonlinear_arith)
                requires
                    0 <= x < self.w,
                    0 <= y < self.h,
            ;
        }
        let idx = (y * self.w + x) as usize;
        proof {
            assert(idx >> 3 == idx / 8 && (idx & 7) == idx % 8) by (bit_vector);
        }
        let byte = idx >> 3;
        let bit = 7 - (idx & 7);
        let ghost buf0 = self.buf@;
        let b = self.buf[byte];
        let t: u8 = bit as u8;
        if on {
            self.buf[byte] = b | (1u8 << t);
            proof {
                lemma_or_bit(b, t);
            }
        } else {
            self.buf[byte] = b & !(1u8 << t);
            proof {
                lemma_andnot_bit(b, t);
            }
        }
        proof {
            assert(7 - t == idx as int % 8);
            assert(fb_bit(self.buf@, idx as int) == on);
            assert forall|j: int|
                0 <= j < buf0.len() * 8 && j != idx as int implies fb_bit(self.buf@, j) == fb_bit(
                buf0,
                j,
            ) by {
                if j / 8 == idx as int / 8 {
                    assert(j % 8 != idx as int % 8);
                } else {
                    assert(self.buf@[j / 8] == buf0[j / 8]);
                }
            }
        }
    }

    /// Overwrite every byte of the buffer.
    pub(crate) fn fill(&mut self, v: u8)
        ensures
            final(self).w == old(self).w,
            final(self).h == old(self).h,
            final(self).buf@ == Seq::new(old(self).buf@.len(), |i: int| v),
            old(self).well_formed() ==> final(self).well_formed(),
    {
        let n = self.buf.len();
        let mut i: usize = 0;
        while i < n
            invariant
                n == self.buf@.len(),
                i <= n,
                self.w == old(self).w,
                self.h == old(self).h,
                forall|j: int| 0 <= j < i ==> self.buf@[j] == v,
            decreases n - i,
        {
            self.buf[i] = v;
            i = i + 1;
        }
        proof {
            assert(self.buf@ =~= Seq::new(old(self).buf@.len(), |i: int| v));
        }
    }

    /// The raw bytes, row-major.
    pub fn buffer(&self) -> (r: &[u8])
        ensures
            r@ == self.buf@,
    {
        self.buf.as_slice()
    }
}

} // verus!
