//! Bit-level helpers: population count and the bounds of masked fields.
use vstd::prelude::*;

verus! {

/// Number of set bits of `x`.
pub open spec fn popcount(x: u32) -> nat
    decreases x,
{
    if x == 0 {
        0
    } else {
        (x % 2) as nat + popcount(x / 2)
    }
}

/// `a` holds every bit of `b` and at least one more.
pub open spec fn strict_superset(a: u32, b: u32) -> bool {
    a & b == b && a != b
}

proof fn lemma_low_bit_step(x: u32)
    by (bit_vector)
    ensures
        x & 1 == x % 2,
        x >> 1 == x / 2,
{
}

/// A value has at most as many set bits as its size.
pub proof fn lemma_popcount_bound(x: u32)
    ensures
        popcount(x) <= x,
    decreases x,
{
    if x != 0 {
        lemma_popcount_bound(x / 2);
    }
}

proof fn lemma_subset_bits(a: u32, b: u32)
    by (bit_vector)
    requires
        a & b == b,
    ensures
        (a / 2) & (b / 2) == (b / 2),
        (b % 2) <= (a % 2),
        a == 0 ==> b == 0,
        a != b ==> ((a % 2) != (b % 2) || (a / 2) != (b / 2)),
{
}

/// A mask that holds another one has at least as many set bits, and strictly more when it
/// holds a bit more.
pub proof fn lemma_popcount_superset(a: u32, b: u32)
    requires
        a & b == b,
    ensures
        popcount(b) <= popcount(a),
        a != b ==> popcount(b) < popcount(a),
    decreases a,
{
    lemma_subset_bits(a, b);
    if a != 0 {
        lemma_popcount_superset(a / 2, b / 2);
    }
}

/// Number of set bits of `x`.
pub fn count_ones(x: u32) -> (r: u32)
    ensures
        r == popcount(x),
{
    let mut v = x;
    let mut c: u32 = 0;
    proof {
        lemma_popcount_bound(x);
    }
    while v != 0
        invariant
            c + popcount(v) == popcount(x),
            popcount(x) <= x,
        decreases v,
    {
        proof {
            lemma_low_bit_step(v);
        }
        c = c + (v & 1);
        v = v >> 1;
    }
    c
}

/// Upper bounds of the masked fields that instruction decoding extracts.
pub proof fn lemma_mask_bounds()
    by (bit_vector)
    ensures
        forall|x: u32| #[trigger] (x & 1) <= 1,
        forall|x: u32| #[trigger] (x & 3) <= 3,
        forall|x: u32| #[trigger] (x & 7) <= 7,
        forall|x: u32| #[trigger] (x & 0xf) <= 0xf,
        forall|x: u32| #[trigger] (x & 0x1f) <= 0x1f,
        forall|x: u32| #[trigger] (x & 0x7f) <= 0x7f,
        forall|x: u32| #[trigger] (x & 0xff) <= 0xff,
        forall|x: u32| #[trigger] (x & 0x7ff) <= 0x7ff,
        forall|x: u32| #[trigger] (x & 0xfff) <= 0xfff,
        forall|x: u32| #[trigger] (x & 0xffffff) <= 0xffffff,
        forall|x: u32| #[trigger] (((x >> 4) & 0xf0) | (x & 0xf)) <= 0xff,
        forall|x: u32| #[trigger] ((x & 0x7ff) << 11) < 0x400000,
        forall|x: u32| #[trigger] ((((x >> 16) & 0x7ff) << 11) | (x & 0x7ff)) < 0x400000,
{
}

} // verus!
