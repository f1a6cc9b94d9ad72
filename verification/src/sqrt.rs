//! Integer square roots, used to recover a distance from a squared distance.

use vstd::prelude::*;

use vstd::arithmetic::div_mod::lemma_fundamental_div_mod;
use vstd::arithmetic::mul::lemma_mul_inequality;

verus! {

/// The floor of the square root of `n`, and 0 for negative `n`.
pub open spec fn sqrt_floor(n: int) -> int
    decreases n,
{
    if n <= 0 {
        0
    } else {
        let below = sqrt_floor(n - 1);
        if (below + 1) * (below + 1) <= n {
            below + 1
        } else {
            below
        }
    }
}

/// `sqrt_floor(n)` is the unique non-negative integer whose square is at
/// most `n` while the next square is beyond `n`.
pub proof fn lemma_sqrt_floor_bounds(n: int)
    requires
        n >= 0,
    ensures
        sqrt_floor(n) >= 0,
        sqrt_floor(n) * sqrt_floor(n) <= n,
        n < (sqrt_floor(n) + 1) * (sqrt_floor(n) + 1),
    decreases n,
{
    if n == 0 {
    } else {
        lemma_sqrt_floor_bounds(n - 1);
        let below = sqrt_floor(n - 1);
        if (below + 1) * (below + 1) <= n {
            assert(n - 1 < (below + 1) * (below + 1));
            assert(n == (below + 1) * (below + 1));
            assert((below + 2) * (below + 2) > (below + 1) * (below + 1)) by (nonlinear_arith)
                requires
                    below >= 0,
            ;
        }
    }
}

/// Any non-negative root with the same two bounds is the floor square root.
pub proof fn lemma_sqrt_floor_unique(n: int, root: int)
    requires
        n >= 0,
        root >= 0,
        root * root <= n,
        n < (root + 1) * (root + 1),
    ensures
        root == sqrt_floor(n),
{
    lemma_sqrt_floor_bounds(n);
    let s = sqrt_floor(n);
    if root < s {
        lemma_mul_inequality(root + 1, s, root + 1);
        lemma_mul_inequality(root + 1, s, s);
        assert((root + 1) * (root + 1) <= s * s);
    }
    if root > s {
        lemma_mul_inequality(s + 1, root, s + 1);
        lemma_mul_inequality(s + 1, root, root);
        assert((s + 1) * (s + 1) <= root * root);
    }
}

/// The floor square root of a 128-bit unsigned value, by bisection.
pub fn isqrt_u128(n: u128) -> (r: u128)
    ensures
        r as int == sqrt_floor(n as int),
        (r as int) * (r as int) <= n as int,
        (n as int) < (r as int + 1) * (r as int + 1),
{
    if n == 0 {
        proof {
            lemma_sqrt_floor_bounds(0);
        }
        return 0;
    }
    let mut lo: u128 = 0;
    let mut hi: u128 = if n < 0x1_0000_0000_0000_0000u128 {
        proof {
            assert((n as int + 1) * (n as int + 1) > n as int) by (nonlinear_arith)
                requires
                    n as int >= 1,
            ;
        }
        n + 1
    } else {
        proof {
            assert(0x1_0000_0000_0000_0000 * 0x1_0000_0000_0000_0000 > n as int);
        }
        0x1_0000_0000_0000_0000u128
    };
    while hi - lo > 1
        invariant
            lo < hi,
            hi <= 0x1_0000_0000_0000_0000u128,
            (lo as int) * (lo as int) <= n as int,
            (n as int) < (hi as int) * (hi as int),
        decreases hi - lo,
    {
        let mid = lo + (hi - lo) / 2;
        assert(lo < mid < hi);
        if mid <= n / mid {
            proof {
                lemma_fundamental_div_mod(n as int, mid as int);
                lemma_mul_inequality(mid as int, (n / mid) as int, mid as int);
                assert(((n / mid) as int) * (mid as int) <= n as int) by (nonlinear_arith)
                    requires
                        n as int == ((n / mid) as int) * (mid as int) + (n as int) % (mid as int),
                        (n as int) % (mid as int) >= 0,
                ;
            }
            lo = mid;
        } else {
            proof {
                lemma_fundamental_div_mod(n as int, mid as int);
                assert((n as int) < (mid as int) * (mid as int)) by (nonlinear_arith)
                    requires
                        n as int == ((n / mid) as int) * (mid as int) + (n as int) % (mid as int),
                        (n as int) % (mid as int) < mid as int,
                        ((n / mid) as int) < mid as int,
                        mid as int >= 1,
                ;
            }
            hi = mid;
        }
    }
    proof {
        lemma_sqrt_floor_unique(n as int, lo as int);
    }
    lo
}

} // verus!
