//! Integer square root, the arithmetic kernel of the RMS energy formula.

use vstd::prelude::*;

verus! {

/// Floor of the square root of `x`, defined by counting up from zero.
pub open spec fn sqrt_floor(x: nat) -> nat
    decreases x,
{
    if x == 0 {
        0
    } else {
        let r = sqrt_floor((x - 1) as nat);
        if (r + 1) * (r + 1) <= x {
            r + 1
        } else {
            r
        }
    }
}

/// `sqrt_floor(x)` really is the floor of the square root:
/// it is the unique `r` with `r * r <= x < (r + 1) * (r + 1)`.
pub proof fn lemma_sqrt_floor_bounds(x: nat)
    ensures
        sqrt_floor(x) * sqrt_floor(x) <= x,
        x < (sqrt_floor(x) + 1) * (sqrt_floor(x) + 1),
    decreases x,
{
    let s = sqrt_floor(x);
    if x == 0 {
        assert(s == 0);
        assert(x < (s + 1) * (s + 1)) by (nonlinear_arith)
            requires
                x == 0,
                s == 0,
        {
        }
    } else {
        lemma_sqrt_floor_bounds((x - 1) as nat);
        let r = sqrt_floor((x - 1) as nat);
        assert(r * r <= x - 1);
        assert(x - 1 < (r + 1) * (r + 1));
        if (r + 1) * (r + 1) <= x {
            assert(s == r + 1);
            assert(s * s <= x && x < (s + 1) * (s + 1)) by (nonlinear_arith)
                requires
                    s == r + 1,
                    x - 1 < (r + 1) * (r + 1),
                    (r + 1) * (r + 1) <= x,
            {
            }
        } else {
            assert(s == r);
            assert(s * s <= x && x < (s + 1) * (s + 1)) by (nonlinear_arith)
                requires
                    s == r,
                    r * r <= x - 1,
                    x >= 1,
                    !((r + 1) * (r + 1) <= x),
            {
            }
        }
    }
}

/// Any `r` with `r * r <= x < (r + 1) * (r + 1)` equals `sqrt_floor(x)`.
pub proof fn lemma_sqrt_floor_unique(x: nat, r: nat)
    requires
        r * r <= x,
        x < (r + 1) * (r + 1),
    ensures
        r == sqrt_floor(x),
{
    lemma_sqrt_floor_bounds(x);
    let s = sqrt_floor(x);
    assert(r == s) by (nonlinear_arith)
        requires
            r * r <= x,
            x < (r + 1) * (r + 1),
            s * s <= x,
            x < (s + 1) * (s + 1),
    {
    }
}

/// The square root floor never exceeds a known bound on the root.
pub proof fn lemma_sqrt_floor_le(x: nat, b: nat)
    requires
        x <= b * b,
    ensures
        sqrt_floor(x) <= b,
{
    lemma_sqrt_floor_bounds(x);
    let s = sqrt_floor(x);
    assert(s <= b) by (nonlinear_arith)
        requires
            s * s <= x,
            x <= b * b,
    {
    }
}

/// A value already inside the modulus is its own remainder.
pub proof fn lemma_mod_in_range(x: int, m: int)
    requires
        0 <= x < m,
    ensures
        x % m == x,
{
    vstd::arithmetic::div_mod::lemma_small_mod(x as nat, m as nat);
}

/// One wrap down: a value in `[m, 2m)` reduces by exactly `m`.
pub proof fn lemma_mod_shift_down(x: int, m: int)
    requires
        0 < m,
        m <= x < 2 * m,
    ensures
        x % m == x - m,
{
    vstd::arithmetic::div_mod::lemma_mod_add_multiples_vanish(x - m, m);
    lemma_mod_in_range(x - m, m);
}

/// One wrap up: a value in `[-m, 0)` gains exactly `m`.
pub proof fn lemma_mod_shift_up(x: int, m: int)
    requires
        0 < m,
        -m <= x < 0,
    ensures
        x % m == x + m,
{
    vstd::arithmetic::div_mod::lemma_mod_add_multiples_vanish(x, m);
    lemma_mod_in_range(x + m, m);
}

/// A mean over `n` values, each at most `b`, is at most `b`.
pub proof fn lemma_div_bound(sum: int, n: int, b: int)
    requires
        0 <= sum,
        sum <= n * b,
        1 <= n,
        0 <= b,
    ensures
        0 <= sum / n <= b,
{
    vstd::arithmetic::div_mod::lemma_div_pos_is_pos(sum, n);
    vstd::arithmetic::div_mod::lemma_div_is_ordered(sum, n * b, n);
    vstd::arithmetic::div_mod::lemma_div_multiples_vanish(b, n);
}

/// Samples spanned by `ms` milliseconds at `rate` Hz, rounded down.
pub fn samples_for_duration(rate: u32, ms: u64) -> (r: u128)
    ensures
        r == (rate as int) * (ms as int) / 1000,
{
    proof {
        assert((rate as int) * (ms as int) <= 0xFFFF_FFFF * 0xFFFF_FFFF_FFFF_FFFF)
            by (nonlinear_arith)
            requires
                rate <= 0xFFFF_FFFF,
                ms <= 0xFFFF_FFFF_FFFF_FFFF,
        {
        }
    }
    (rate as u128) * (ms as u128) / 1000
}

/// Binary-search integer square root.
pub fn isqrt(x: u64) -> (r: u64)
    ensures
        r == sqrt_floor(x as nat),
{
    let mut lo: u64 = 0;
    let mut hi: u64 = 0x1_0000_0000;
    proof {
        assert((x as nat) < 0x1_0000_0000 * 0x1_0000_0000);
    }
    while lo + 1 < hi
        invariant
            lo < hi <= 0x1_0000_0000,
            (lo as nat) * (lo as nat) <= x as nat,
            (x as nat) < (hi as nat) * (hi as nat),
        decreases hi - lo,
    {
        let mid = lo + (hi - lo) / 2;
        assert(mid < 0x1_0000_0000);
        assert((mid as nat) * (mid as nat) < 0x1_0000_0000 * 0xFFFF_FFFF) by (nonlinear_arith)
            requires
                mid < 0x1_0000_0000,
        {
        }
        if mid * mid <= x {
            lo = mid;
        } else {
            hi = mid;
        }
    }
    proof {
        lemma_sqrt_floor_unique(x as nat, lo as nat);
    }
    lo
}

} // verus!
