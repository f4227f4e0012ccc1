//! Integer cube roots, the one irrational operation the orbital formulas need.
use vstd::prelude::*;

verus! {

/// `r` is the floor of the real cube root of `n`.
pub open spec fn is_cbrt(n: int, r: int) -> bool {
    0 <= r && r * r * r <= n && n < (r + 1) * (r + 1) * (r + 1)
}

/// The floor of the real cube root of a non-negative `n`.
pub open spec fn cbrt(n: int) -> int {
    choose|r: int| is_cbrt(n, r)
}

/// Inputs of `icbrt` stay below this bound, so that every cube it tries fits in `u128`.
pub const CBRT_INPUT_LIMIT: u128 = 0x4000_0000_0000_0000_0000_0000_0000_0000;

proof fn lemma_cube_monotonic(a: int, b: int)
    requires
        0 <= a <= b,
    ensures
        a * a * a <= b * b * b,
{
    assert(a * a <= b * b) by (nonlinear_arith)
        requires
            0 <= a <= b,
    ;
    assert(a * a * a <= b * b * b) by (nonlinear_arith)
        requires
            0 <= a <= b,
            a * a <= b * b,
    ;
}

/// The floor cube root is unique, so `cbrt` picks exactly the witness given.
pub proof fn lemma_cbrt_unique(n: int, r: int)
    requires
        is_cbrt(n, r),
    ensures
        cbrt(n) == r,
{
    let c = cbrt(n);
    assert(is_cbrt(n, c));
    if c < r {
        lemma_cube_monotonic(c + 1, r);
    } else if r < c {
        lemma_cube_monotonic(r + 1, c);
    }
}

/// Every non-negative integer has a floor cube root.
pub proof fn lemma_cbrt_exists(n: int)
    requires
        0 <= n,
    ensures
        is_cbrt(n, cbrt(n)),
    decreases n,
{
    if n == 0 {
        assert(is_cbrt(0, 0));
    } else {
        lemma_cbrt_exists(n - 1);
        let r = cbrt(n - 1);
        if (r + 1) * (r + 1) * (r + 1) <= n {
            assert((r + 1) * (r + 1) * (r + 1) < (r + 2) * (r + 2) * (r + 2)) by (nonlinear_arith)
                requires
                    r >= 0,
            ;
            assert(is_cbrt(n, r + 1));
        } else {
            assert(is_cbrt(n, r));
        }
    }
}

/// The cube root of a positive integer is at least one.
pub proof fn lemma_cbrt_positive(n: int)
    requires
        1 <= n,
    ensures
        cbrt(n) >= 1,
{
    lemma_cbrt_exists(n);
}

/// Floor of the cube root of `n`, by bisection.
pub fn icbrt(n: u128) -> (r: u64)
    requires
        n < CBRT_INPUT_LIMIT,
    ensures
        r == cbrt(n as int),
        (r as int) < 0x400_0000_0000,
{
    let mut lo: u64 = 0;
    let mut hi: u64 = 0x400_0000_0000;
    assert(0x400_0000_0000int * 0x400_0000_0000int * 0x400_0000_0000int == CBRT_INPUT_LIMIT as int);
    while hi - lo > 1
        invariant
            lo < hi <= 0x400_0000_0000,
            (lo as int) * lo * lo <= n,
            (n as int) < (hi as int) * hi * hi,
        decreases hi - lo,
    {
        let mid: u64 = lo + (hi - lo) / 2;
        let m: u128 = mid as u128;
        proof {
            lemma_cube_monotonic(m as int, 0x400_0000_0000);
            assert((m as int) * m <= 0x400_0000_0000int * 0x400_0000_0000int) by (nonlinear_arith)
                requires
                    m <= 0x400_0000_0000,
            ;
        }
        if m * m * m <= n {
            lo = mid;
        } else {
            hi = mid;
        }
    }
    proof {
        assert(hi == lo + 1);
        lemma_cbrt_unique(n as int, lo as int);
    }
    lo
}

} // verus!
