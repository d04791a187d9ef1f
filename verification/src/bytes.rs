//! Byte-buffer helpers shared by the driver and the bit packer.

use vstd::prelude::*;

verus! {

/// A run of `n` zero bytes.
pub open spec fn zeros(n: nat) -> Seq<u8> {
    Seq::new(n, |i: int| 0u8)
}

/// A vector of `n` zero bytes.
pub fn zeros_vec(n: usize) -> (r: Vec<u8>)
    ensures
        r@ == zeros(n as nat),
{
    let mut v: Vec<u8> = Vec::new();
    let mut i: usize = 0;
    while i < n
        invariant
            i <= n,
            v@ =~= zeros(i as nat),
        decreases n - i,
    {
        v.push(0u8);
        i = i + 1;
        proof {
            assert(v@ =~= zeros(i as nat));
        }
    }
    proof {
        assert(v@ =~= zeros(n as nat));
    }
    v
}

/// Bit `j` of a byte, counted from the most significant bit down, as the
/// panel orders pixels within a byte.
pub open spec fn byte_bit(b: u8, j: int) -> bool
    recommends
        0 <= j < 8,
{
    ((b >> ((7 - j) as u8)) & 1u8) == 1u8
}

/// Setting one bit leaves every other bit of the byte as it was.
pub proof fn lemma_or_bit(b: u8, t: u8)
    requires
        t < 8,
    ensures
        byte_bit(b | (1u8 << t), 7 - t),
        forall|j: int| 0 <= j < 8 && j != 7 - t ==> byte_bit(b | (1u8 << t), j) == byte_bit(b, j),
{
    assert(t < 8 ==> (((b | (1u8 << t)) >> t) & 1u8) == 1u8) by (bit_vector);
    assert(forall|u: u8| t < 8 && u < 8 && u != t ==> (((b | (1u8 << t)) >> u) & 1u8) == ((b >> u)
        & 1u8)) by (bit_vector);
    assert forall|j: int| 0 <= j < 8 && j != 7 - t implies byte_bit(b | (1u8 << t), j) == byte_bit(
        b,
        j,
    ) by {
        let u = (7 - j) as u8;
        assert(u < 8 && u != t);
    }
}

/// Every bit of a zero byte is clear.
pub proof fn lemma_zero_byte_bits()
    ensures
        forall|j: int| 0 <= j < 8 ==> !byte_bit(0u8, j),
{
    assert(forall|u: u8| u < 8 ==> ((0u8 >> u) & 1u8) == 0u8) by (bit_vector);
    assert forall|j: int| 0 <= j < 8 implies !byte_bit(0u8, j) by {
        let u = (7 - j) as u8;
        assert(u < 8);
    }
}

/// Clearing one bit leaves every other bit of the byte as it was.
pub proof fn lemma_andnot_bit(b: u8, t: u8)
    requires
        t < 8,
    ensures
        !byte_bit(b & !(1u8 << t), 7 - t),
        forall|j: int| 0 <= j < 8 && j != 7 - t ==> byte_bit(b & !(1u8 << t), j) == byte_bit(b, j),
{
    assert(t < 8 ==> (((b & !(1u8 << t)) >> t) & 1u8) == 0u8) by (bit_vector);
    assert(forall|u: u8| t < 8 && u < 8 && u != t ==> (((b & !(1u8 << t)) >> u) & 1u8) == ((b >> u)
        & 1u8)) by (bit_vector);
    assert forall|j: int| 0 <= j < 8 && j != 7 - t implies byte_bit(b & !(1u8 << t), j) == byte_bit(
        b,
        j,
    ) by {
        let u = (7 - j) as u8;
        assert(u < 8 && u != t);
    }
}

} // verus!

