use vstd::prelude::*;

verus! {

/// Bit `i` of `m`, as 0 or 1.
pub open spec fn bit_at(m: u32, i: u32) -> nat {
    if ((m >> i) & 1) == 1 {
        1
    } else {
        0
    }
}

/// Number of one bits among the `n` lowest bits of `m`.
pub open spec fn ones_below(m: u32, n: nat) -> nat
    decreases n,
{
    if n == 0 {
        0
    } else {
        ones_below(m, (n - 1) as nat) + bit_at(m, (n - 1) as u32)
    }
}

/// Number of one bits of `m`.
pub open spec fn bit_count(m: u32) -> nat {
    ones_below(m, 32)
}

/// The IPv4 subnet mask of prefix length `p` (0 to 32): `p` leading ones.
pub open spec fn prefix_mask(p: u32) -> u32 {
    if p == 0 {
        0
    } else {
        0xffff_ffffu32 << ((32 - p) as u32)
    }
}

/// The value whose `k` lowest bits are one and all others zero (`k` up to 32).
pub open spec fn low_ones(k: u32) -> u32 {
    if k >= 32 {
        0xffff_ffff
    } else {
        ((1u32 << k) - 1) as u32
    }
}

/// Adds one to `x`, wrapping around to zero.
pub open spec fn succ_wrap(x: u32) -> u32 {
    if x == 0xffff_ffff {
        0
    } else {
        (x + 1) as u32
    }
}

/// `mask` is a contiguous subnet mask, i.e. the mask of some prefix length.
pub open spec fn is_subnet_mask(mask: u32) -> bool {
    exists|p: u32| p <= 32 && mask == prefix_mask(p)
}

proof fn lemma_bit_at_prefix_mask(p: u32, i: u32)
    requires
        p <= 32,
        i < 32,
    ensures
        bit_at(prefix_mask(p), i) == (if i >= 32 - p { 1nat } else { 0nat }),
{
    let m = prefix_mask(p);
    assert(((m >> i) & 1) == 1 <==> i >= 32 - p) by (bit_vector)
        requires
            p <= 32,
            i < 32,
            m == (if p == 0 { 0u32 } else { 0xffff_ffffu32 << ((32 - p) as u32) }),
    ;
}

proof fn lemma_ones_below_prefix_mask(p: u32, n: nat)
    requires
        p <= 32,
        n <= 32,
    ensures
        ones_below(prefix_mask(p), n) == (if n <= 32 - p { 0 } else { n - (32 - p) }),
    decreases n,
{
    if n > 0 {
        lemma_ones_below_prefix_mask(p, (n - 1) as nat);
        lemma_bit_at_prefix_mask(p, (n - 1) as u32);
    }
}

/// The mask of prefix length `p` has exactly `p` one bits.
pub proof fn lemma_bit_count_prefix_mask(p: u32)
    requires
        p <= 32,
    ensures
        bit_count(prefix_mask(p)) == p,
{
    lemma_ones_below_prefix_mask(p, 32);
}

/// Distinct prefix lengths give distinct masks.
pub proof fn lemma_prefix_mask_injective(p: u32, q: u32)
    requires
        p <= 32,
        q <= 32,
        prefix_mask(p) == prefix_mask(q),
    ensures
        p == q,
{
    lemma_bit_count_prefix_mask(p);
    lemma_bit_count_prefix_mask(q);
}

/// A value that does not share a bit with its successor is a run of low ones.
proof fn lemma_low_ones_run(x: u32) -> (k: u32)
    requires
        (x & succ_wrap(x)) == 0,
    ensures
        k <= 32,
        x == low_ones(k),
    decreases x,
{
    if x == 0 {
        assert(low_ones(0) == 0) by (bit_vector);
        0
    } else {
        let y = x >> 1;
        assert((x & 1) == 1 && (y & succ_wrap(y)) == 0 && y < 0x8000_0000 && y < x) by (bit_vector)
            requires
                x != 0,
                (x & succ_wrap(x)) == 0,
                y == x >> 1,
        ;
        let j = lemma_low_ones_run(y);
        if j == 32 {
            assert(low_ones(32) == 0xffff_ffff);
            assert(false);
        }
        assert(x == low_ones((j + 1) as u32)) by (bit_vector)
            requires
                j < 32,
                y == low_ones(j),
                y == x >> 1,
                (x & 1) == 1,
        ;
        (j + 1) as u32
    }
}

/// The complement of `k` low one bits is the mask of prefix length `32 - k`.
pub proof fn lemma_complement_low_ones(k: u32)
    requires
        k <= 32,
    ensures
        !low_ones(k) == prefix_mask((32 - k) as u32),
{
    let a = low_ones(k);
    let b = prefix_mask((32 - k) as u32);
    assert(!a == b) by (bit_vector)
        requires
            k <= 32,
            a == (if k >= 32 { 0xffff_ffffu32 } else { ((1u32 << k) - 1) as u32 }),
            b == (if 32 - k == 0 { 0u32 } else { 0xffff_ffffu32 << ((32 - (32 - k)) as u32) }),
    ;
}

proof fn lemma_prefix_mask_passes_test(p: u32)
    requires
        p <= 32,
    ensures
        (!prefix_mask(p) & succ_wrap(!prefix_mask(p))) == 0,
{
    let m = prefix_mask(p);
    let x = !m;
    assert((x & succ_wrap(x)) == 0) by (bit_vector)
        requires
            p <= 32,
            m == (if p == 0 { 0u32 } else { 0xffff_ffffu32 << ((32 - p) as u32) }),
            x == !m,
    ;
}

proof fn lemma_ones_below_at_most(m: u32, n: nat)
    ensures
        ones_below(m, n) <= n,
    decreases n,
{
    if n > 0 {
        lemma_ones_below_at_most(m, (n - 1) as nat);
    }
}

/// A 32-bit value has at most 32 one bits.
pub proof fn lemma_bit_count_at_most_32(m: u32)
    ensures
        bit_count(m) <= 32,
{
    lemma_ones_below_at_most(m, 32);
}

/// Counts the one bits of `m`.
pub fn count_ones(m: u32) -> (count: u32)
    ensures
        count == bit_count(m),
        count <= 32,
{
    let mut count: u32 = 0;
    let mut i: u32 = 0;
    while i < 32
        invariant
            i <= 32,
            count == ones_below(m, i as nat),
            count <= i,
        decreases 32 - i,
    {
        let bit = (m >> i) & 1;
        assert(bit <= 1 && (bit == 1 <==> ((m >> i) & 1) == 1)) by (bit_vector)
            requires
                bit == (m >> i) & 1,
        ;
        count = count + bit;
        i = i + 1;
    }
    count
}

/// Prefix length of a contiguous subnet mask; `None` when `mask` is not the
/// mask of any prefix length.
pub fn prefix_from_netmask(mask: u32) -> (prefix: Option<u8>)
    ensures
        prefix matches Some(p) ==> p <= 32 && mask == prefix_mask(p as u32),
        prefix is None <==> !is_subnet_mask(mask),
{
    let inverted = !mask;
    let next = inverted.wrapping_add(1);
    assert(next == succ_wrap(inverted));
    if inverted & next != 0 {
        assert forall|p: u32| p <= 32 implies mask != prefix_mask(p) by {
            if mask == prefix_mask(p) {
                lemma_prefix_mask_passes_test(p);
            }
        }
        return None;
    }
    let ghost k = lemma_low_ones_run(inverted);
    proof {
        lemma_complement_low_ones(k);
        assert(mask == !inverted) by (bit_vector)
            requires
                inverted == !mask,
        ;
        lemma_bit_count_prefix_mask((32 - k) as u32);
    }
    let count = count_ones(mask);
    assert(mask == prefix_mask(count));
    Some(count as u8)
}

/// Subnet mask of a prefix length: `p` leading one bits.
pub fn mask_from_prefix(prefix: u8) -> (mask: u32)
    requires
        prefix <= 32,
    ensures
        mask == prefix_mask(prefix as u32),
{
    if prefix == 0 {
        0
    } else {
        u32::MAX << (32 - prefix as u32)
    }
}

/// Law: the mask of a prefix length is a subnet mask, and no other prefix
/// length has that mask, so the prefix length read back from it is `p`.
pub proof fn lemma_prefix_mask_roundtrip(p: u32)
    requires
        p <= 32,
    ensures
        is_subnet_mask(prefix_mask(p)),
        forall|q: u32| q <= 32 && prefix_mask(q) == prefix_mask(p) ==> q == p,
{
    assert(prefix_mask(p) == prefix_mask(p));
    assert forall|q: u32| q <= 32 && prefix_mask(q) == prefix_mask(p) implies q == p by {
        lemma_prefix_mask_injective(p, q);
    }
}

} // verus!
