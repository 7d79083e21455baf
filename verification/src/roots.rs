//! Integer square root, shared by the two Euclidean-distance kernels.

use vstd::prelude::*;

verus! {

/// Floor of the square root of a non-negative `n`: the unique `r >= 0`
/// with `r * r <= n < (r + 1) * (r + 1)`.
pub fn int_sqrt(n: i32) -> (r: i32)
    requires
        n >= 0,
    ensures
        0 <= r,
        r * r <= n,
        n < (r + 1) * (r + 1),
{
    let big: i64 = n as i64;
    let mut root: i64 = 0;
    loop
        invariant
            0 <= root <= n,
            root * root <= n,
            big == n,
        ensures
            0 <= root <= n,
            root * root <= n,
            big < (root + 1) * (root + 1),
        decreases n - root,
    {
        let next: i64 = root + 1;
        proof {
            assert(next * next <= 0x4000_0000_0000_0000) by (nonlinear_arith)
                requires
                    1 <= next <= 0x8000_0000,
            ;
        }
        let sq: i64 = next * next;
        if sq > big {
            break;
        }
        proof {
            assert(next <= next * next) by (nonlinear_arith)
                requires
                    1 <= next,
            ;
        }
        root = next;
    }
    root as i32
}

/// The floor square root is unique: two non-negative numbers whose
/// squares bracket `n` the same way are equal.
pub proof fn lemma_int_sqrt_unique(n: int, a: int, b: int)
    requires
        0 <= a,
        0 <= b,
        a * a <= n < (a + 1) * (a + 1),
        b * b <= n < (b + 1) * (b + 1),
    ensures
        a == b,
{
    if a < b {
        assert((a + 1) * (a + 1) <= b * b) by (nonlinear_arith)
            requires
                0 <= a,
                a < b,
        ;
    }
    if b < a {
        assert((b + 1) * (b + 1) <= a * a) by (nonlinear_arith)
            requires
                0 <= b,
                b < a,
        ;
    }
}

} // verus!
