//! Facts about single-bit masks, shared by every bitfield in the crate.
use vstd::prelude::*;

verus! {

/// Bit `i` of `x` is set.
pub open spec fn bit64(x: u64, i: u64) -> bool {
    x & (1u64 << i) != 0
}

/// Bit `i` of `x` is set.
pub open spec fn bit8(x: u8, i: u8) -> bool {
    x & (1u8 << i) != 0
}

/// Setting bit `k` sets exactly that bit and keeps the others.
pub proof fn lemma_bit64_or(x: u64, k: u64, j: u64)
    requires
        k < 64,
        j < 64,
    ensures
        bit64(x | (1u64 << k), j) == (j == k || bit64(x, j)),
{
    assert((x | (1u64 << k)) & (1u64 << j) != 0 <==> (j == k || x & (1u64 << j) != 0))
        by (bit_vector)
        requires
            k < 64,
            j < 64,
    ;
}

/// Writing `v` into bit `k` gives bit `k` the value `v` and keeps the others.
pub proof fn lemma_bit64_write(x: u64, k: u64, v: bool, j: u64)
    requires
        k < 64,
        j < 64,
    ensures
        bit64(x & !(1u64 << k) | ((if v { 1u64 } else { 0u64 }) << k), j) == (if j == k {
            v
        } else {
            bit64(x, j)
        }),
{
    let b: u64 = if v { 1u64 } else { 0u64 };
    assert((x & !(1u64 << k) | (b << k)) & (1u64 << j) != 0 <==> (if j == k {
        b == 1
    } else {
        x & (1u64 << j) != 0
    })) by (bit_vector)
        requires
            k < 64,
            j < 64,
            b == 0 || b == 1,
    ;
}

/// Bit `i` of `x` is set.
pub open spec fn bit16(x: u16, i: u16) -> bool {
    x & (1u16 << i) != 0
}

/// Setting bit `k` sets exactly that bit and keeps the others.
pub proof fn lemma_bit16_or(x: u16, k: u16, j: u16)
    requires
        k < 16,
        j < 16,
    ensures
        bit16(x | (1u16 << k), j) == (j == k || bit16(x, j)),
{
    assert((x | (1u16 << k)) & (1u16 << j) != 0 <==> (j == k || x & (1u16 << j) != 0))
        by (bit_vector)
        requires
            k < 16,
            j < 16,
    ;
}

/// The empty mask has no bit set.
pub proof fn lemma_bit16_zero(j: u16)
    requires
        j < 16,
    ensures
        !bit16(0, j),
{
    assert(0u16 & (1u16 << j) == 0) by (bit_vector);
}

/// Setting bit `k` sets exactly that bit and keeps the others.
pub proof fn lemma_bit8_or(x: u8, k: u8, j: u8)
    requires
        k < 8,
        j < 8,
    ensures
        bit8(x | (1u8 << k), j) == (j == k || bit8(x, j)),
{
    assert((x | (1u8 << k)) & (1u8 << j) != 0 <==> (j == k || x & (1u8 << j) != 0))
        by (bit_vector)
        requires
            k < 8,
            j < 8,
    ;
}

/// Writing `v` into bit `k` gives bit `k` the value `v` and keeps the others.
pub proof fn lemma_bit8_write(x: u8, k: u8, v: bool, j: u8)
    requires
        k < 8,
        j < 8,
    ensures
        bit8(x & !(1u8 << k) | ((if v { 1u8 } else { 0u8 }) << k), j) == (if j == k {
            v
        } else {
            bit8(x, j)
        }),
{
    let b: u8 = if v { 1u8 } else { 0u8 };
    assert((x & !(1u8 << k) | (b << k)) & (1u8 << j) != 0 <==> (if j == k {
        b == 1
    } else {
        x & (1u8 << j) != 0
    })) by (bit_vector)
        requires
            k < 8,
            j < 8,
            b == 0 || b == 1,
    ;
}

/// The empty mask has no bit set.
pub proof fn lemma_bit64_zero(j: u64)
    requires
        j < 64,
    ensures
        !bit64(0, j),
{
    assert(0u64 & (1u64 << j) == 0) by (bit_vector);
}

/// A bit of a conjunction is set when it is set in both.
pub proof fn lemma_bit64_and(x: u64, y: u64, j: u64)
    requires
        j < 64,
    ensures
        bit64(x & y, j) == (bit64(x, j) && bit64(y, j)),
{
    assert((x & y) & (1u64 << j) != 0 <==> (x & (1u64 << j) != 0 && y & (1u64 << j) != 0)) by (bit_vector)
        requires
            j < 64,
    ;
}

/// A bit of a disjunction is set when it is set in either.
pub proof fn lemma_bit64_or_both(x: u64, y: u64, j: u64)
    requires
        j < 64,
    ensures
        bit64(x | y, j) == (bit64(x, j) || bit64(y, j)),
{
    assert((x | y) & (1u64 << j) != 0 <==> (x & (1u64 << j) != 0 || y & (1u64 << j) != 0)) by (bit_vector)
        requires
            j < 64,
    ;
}

/// The single-bit mask of `k` has only bit `k`.
pub proof fn lemma_bit64_single(k: u64, j: u64)
    requires
        k < 64,
        j < 64,
    ensures
        bit64(1u64 << k, j) == (j == k),
{
    assert((1u64 << k) & (1u64 << j) != 0 <==> j == k) by (bit_vector)
        requires
            k < 64,
            j < 64,
    ;
}

/// Packs sixteen flags into a 16-bit field, flag `k` into bit `k`.
pub fn pack16(flags: &[bool; 16]) -> (m: u16)
    ensures
        forall|k: u16| k < 16 ==> #[trigger] bit16(m, k) == flags@[k as int],
{
    let mut m: u16 = 0;
    let mut i: u16 = 0;
    proof {
        assert forall|k: u16| k < 16 implies !#[trigger] bit16(m, k) by {
            lemma_bit16_zero(k);
        }
    }
    while i < 16
        invariant
            i <= 16,
            forall|k: u16| k < 16 ==> #[trigger] bit16(m, k) == (k < i && flags@[k as int]),
        decreases 16 - i,
    {
        let ghost before = m;
        if flags[i as usize] {
            m = m | (1u16 << i);
        }
        proof {
            assert forall|k: u16| k < 16 implies #[trigger] bit16(m, k) == (k < i + 1 && flags@[k as int]) by {
                lemma_bit16_or(before, i, k);
            }
        }
        i = i + 1;
    }
    m
}

} // verus!
