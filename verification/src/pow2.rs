//! Rounding a size up to the next power of two, as the guest allocator does
//! when it reserves a block for an object.

use vstd::prelude::*;

verus! {

/// Whether `m` is a power of two.
pub open spec fn is_pow2(m: nat) -> bool
    decreases m,
{
    if m == 0 {
        false
    } else if m == 1 {
        true
    } else {
        m % 2 == 0 && is_pow2(m / 2)
    }
}

/// The smallest power of two that is at least `n` (and at least 1).
pub open spec fn next_pow2(n: nat) -> nat
    decreases n,
{
    if n <= 1 {
        1
    } else {
        2 * next_pow2(((n + 1) / 2) as nat)
    }
}

/// `next_pow2(n)` is a power of two, is at least `n`, and its half is
/// below `n`: it is the smallest power of two not below `n`.
pub proof fn lemma_next_pow2_props(n: nat)
    ensures
        is_pow2(next_pow2(n)),
        next_pow2(n) >= n,
        next_pow2(n) >= 1,
        next_pow2(n) == 1 || next_pow2(n) / 2 < n,
    decreases n,
{
    if n <= 1 {
    } else {
        let c = ((n + 1) / 2) as nat;
        lemma_next_pow2_props(c);
        assert(2 * c >= n);
        assert(next_pow2(n) == 2 * next_pow2(c));
        assert(is_pow2(2 * next_pow2(c))) by {
            assert((2 * next_pow2(c)) % 2 == 0);
            assert((2 * next_pow2(c)) / 2 == next_pow2(c));
        }
        if next_pow2(c) == 1 {
            assert(next_pow2(n) / 2 == 1);
            assert(c >= 1);
        } else {
            assert(next_pow2(c) / 2 < c);
            assert(next_pow2(n) / 2 == next_pow2(c));
            assert(next_pow2(c) < 2 * c) by {
                assert(next_pow2(c) % 2 == 0);
            }
            assert(2 * c <= n + 1);
            if next_pow2(n) / 2 >= n {
                assert(next_pow2(c) >= n);
                assert(next_pow2(c) <= 2 * c - 2 || next_pow2(c) == 2 * c - 1);
                assert(next_pow2(c) % 2 == 0 && 2 * c - 1 == 2 * (c - 1) + 1);
                assert(next_pow2(c) != 2 * c - 1);
                assert(n <= 2 * c - 2);
                assert(c <= (n + 1) / 2);
                assert(false);
            }
        }
    }
}

/// Any power of two that is at least `n` and whose half is below `n` is
/// exactly `next_pow2(n)`.
pub proof fn lemma_next_pow2_unique(n: nat, m: nat)
    requires
        is_pow2(m),
        m >= n,
        m == 1 || m / 2 < n,
    ensures
        m == next_pow2(n),
    decreases m,
{
    if m == 1 {
        assert(n <= 1);
    } else {
        assert(m % 2 == 0 && is_pow2(m / 2));
        if n <= 1 {
            assert(m / 2 < 1);
            assert(m < 2);
            assert(false);
        } else {
            let c = ((n + 1) / 2) as nat;
            let h = (m / 2) as nat;
            assert(2 * h == m);
            assert(h >= c) by {
                assert(2 * c <= n + 1);
                assert(2 * h == m >= n);
            }
            assert(h == 1 || h / 2 < c) by {
                if h != 1 && h / 2 >= c {
                    assert(h / 2 >= c >= n / 2 >= (h + 1) / 2);
                    assert(h < n);
                    assert(2 * (h / 2) <= h);
                    assert(2 * c >= n);
                    assert(false);
                }
            }
            lemma_next_pow2_unique(c, h);
            assert(next_pow2(n) == 2 * next_pow2(c));
        }
    }
}

/// Computes the smallest power of two that is at least `n`.
pub fn next_power_of_two_u64(n: u64) -> (r: u64)
    requires
        n <= 0x8000_0000_0000_0000,
    ensures
        r == next_pow2(n as nat),
{
    let mut p: u64 = 1;
    while p < n
        invariant
            n <= 0x8000_0000_0000_0000,
            1 <= p,
            is_pow2(p as nat),
            p == 1 || p / 2 < n,
        decreases 2 * n - p,
    {
        assert(is_pow2((2 * p) as nat)) by {
            assert(((2 * p) as nat) % 2 == 0);
            assert(((2 * p) as nat) / 2 == p as nat);
        }
        p = 2 * p;
    }
    proof {
        lemma_next_pow2_unique(n as nat, p as nat);
    }
    p
}

} // verus!
