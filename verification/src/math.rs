use vstd::prelude::*;

verus! {

/// Magnitude of an integer.
pub open spec fn mag(a: int) -> int {
    if a >= 0 {
        a
    } else {
        -a
    }
}

/// Quotient of `a` by `b`, rounded toward zero.
pub open spec fn div_tz(a: int, b: int) -> int
    recommends
        b > 0,
{
    if a >= 0 {
        a / b
    } else {
        -((-a) / b)
    }
}

/// The greatest `r` with `r * r <= n`.
pub open spec fn sqrt_floor(n: nat) -> nat
    decreases n,
{
    if n == 0 {
        0
    } else {
        let r = sqrt_floor((n - 1) as nat);
        if (r + 1) * (r + 1) <= n {
            r + 1
        } else {
            r
        }
    }
}

/// `sqrt_floor` is indeed the floor of the square root.
pub proof fn lemma_sqrt_floor_bounds(n: nat)
    ensures
        sqrt_floor(n) * sqrt_floor(n) <= n,
        n < (sqrt_floor(n) + 1) * (sqrt_floor(n) + 1),
    decreases n,
{
    if n == 0 {
        assert(sqrt_floor(n) == 0);
        assert(sqrt_floor(n) * sqrt_floor(n) <= n);
        assert(n < (sqrt_floor(n) + 1) * (sqrt_floor(n) + 1)) by (nonlinear_arith)
            requires
                n == 0,
                sqrt_floor(n) == 0,
        ;
    } else {
        let r0 = sqrt_floor((n - 1) as nat);
        lemma_sqrt_floor_bounds((n - 1) as nat);
        assert(r0 * r0 <= n - 1 && n - 1 < (r0 + 1) * (r0 + 1));
        if (r0 + 1) * (r0 + 1) <= n {
            assert(sqrt_floor(n) == r0 + 1);
            assert(n == (r0 + 1) * (r0 + 1));
            assert((r0 + 2) * (r0 + 2) > (r0 + 1) * (r0 + 1)) by (nonlinear_arith)
                requires
                    r0 >= 0,
            ;
            assert(sqrt_floor(n) * sqrt_floor(n) <= n);
            assert(n < (sqrt_floor(n) + 1) * (sqrt_floor(n) + 1));
        } else {
            assert(sqrt_floor(n) == r0);
            assert(sqrt_floor(n) * sqrt_floor(n) <= n);
            assert(n < (sqrt_floor(n) + 1) * (sqrt_floor(n) + 1));
        }
    }
}

/// Any `r` within the square-root bracket equals `sqrt_floor(n)`.
pub proof fn lemma_sqrt_floor_unique(n: nat, r: nat)
    requires
        r * r <= n,
        n < (r + 1) * (r + 1),
    ensures
        r == sqrt_floor(n),
{
    let s = sqrt_floor(n);
    lemma_sqrt_floor_bounds(n);
    if r < s {
        assert((r + 1) * (r + 1) <= s * s) by (nonlinear_arith)
            requires
                0 <= r,
                r + 1 <= s,
            ;
    }
    if s < r {
        assert((s + 1) * (s + 1) <= r * r) by (nonlinear_arith)
            requires
                0 <= s,
                s + 1 <= r,
            ;
    }
}

/// Integer square root by bisection.
pub fn isqrt_u64(n: u64) -> (r: u64)
    ensures
        r * r <= n < (r + 1) * (r + 1),
        r == sqrt_floor(n as nat),
{
    let mut lo: u64 = 0;
    let mut hi: u64 = 0x1_0000_0000;
    assert(n < hi * hi) by (nonlinear_arith)
        requires
            hi == 0x1_0000_0000u64,
            n <= u64::MAX,
    ;
    while hi - lo > 1
        invariant
            lo < hi <= 0x1_0000_0000,
            lo * lo <= n,
            n < hi * hi,
        decreases hi - lo,
    {
        let mid = lo + (hi - lo) / 2;
        assert(mid * mid < 0x1_0000_0000_0000_0000) by (nonlinear_arith)
            requires
                mid < 0x1_0000_0000u64,
        ;
        if mid * mid <= n {
            lo = mid;
        } else {
            hi = mid;
        }
    }
    proof {
        lemma_sqrt_floor_unique(n as nat, lo as nat);
    }
    lo
}

/// Integer square root of a non-negative `i64`.
pub fn isqrt(n: i64) -> (r: i64)
    requires
        n >= 0,
    ensures
        r >= 0,
        r * r <= n < (r + 1) * (r + 1),
        r == sqrt_floor(n as nat),
        r <= 0x1_0000_0000,
    {
    let ru = isqrt_u64(n as u64);
    assert(ru <= 0x1_0000_0000) by (nonlinear_arith)
        requires
            ru * ru <= n as u64,
            n as u64 <= 0x7fff_ffff_ffff_ffffu64,
    ;
    ru as i64
}

/// Product bound for non-negative factors.
pub proof fn lemma_mul_bound(a: int, b: int, ca: int, cb: int)
    by (nonlinear_arith)
    requires
        0 <= a <= ca,
        0 <= b <= cb,
    ensures
        0 <= a * b <= ca * cb,
{
}

/// A square stays within the square of the magnitude cap.
pub proof fn lemma_sq_bound(a: int, cap: int)
    by (nonlinear_arith)
    requires
        -cap <= a <= cap,
        0 <= cap,
    ensures
        0 <= a * a <= cap * cap,
{
}

/// Bracketing of Euclidean division: for `b >= 1` the product
/// `b * (a / b)` falls within `b - 1` below `a`.
pub proof fn lemma_div_bracket(a: int, b: int)
    requires
        b >= 1,
    ensures
        b * (a / b) <= a,
        a < b * (a / b) + b,
{
    vstd::arithmetic::div_mod::lemma_fundamental_div_mod(a, b);
    vstd::arithmetic::div_mod::lemma_mod_division_less_than_divisor(a, b);
}

/// Bracketing of truncating division: the product stays within `b - 1`
/// of `a`, on the zero side.
pub proof fn lemma_div_tz_bracket(a: int, b: int)
    requires
        b >= 1,
    ensures
        mag(a - b * div_tz(a, b)) < b,
        mag(div_tz(a, b)) <= mag(a),
        a >= 0 ==> 0 <= a - b * div_tz(a, b),
        a <= 0 ==> a - b * div_tz(a, b) <= 0,
{
    if a >= 0 {
        lemma_div_bracket(a, b);
        vstd::arithmetic::div_mod::lemma_div_nonincreasing(a, b);
        assert(b * (a / b) <= a);
    } else {
        lemma_div_bracket(-a, b);
        vstd::arithmetic::div_mod::lemma_div_nonincreasing(-a, b);
        assert(b * ((-a) / b) <= -a);
        assert(b * div_tz(a, b) == -(b * ((-a) / b))) by (nonlinear_arith)
            requires
                div_tz(a, b) == -((-a) / b),
        ;
    }
}

/// Truncating division: the quotient rounded toward zero.
pub fn div_trunc(a: i64, b: i64) -> (q: i64)
    requires
        b > 0,
        a > i64::MIN,
    ensures
        q == div_tz(a as int, b as int),
        mag(q as int) <= mag(a as int),
{
    if a >= 0 {
        let q = ((a as u64) / (b as u64)) as i64;
        proof {
            assert(a as u64 / b as u64 <= a as u64) by (nonlinear_arith)
                requires
                    b as u64 >= 1,
            ;
        }
        q
    } else {
        let m = (-a) as u64;
        proof {
            assert(m / (b as u64) <= m) by (nonlinear_arith)
                requires
                    b as u64 >= 1,
            ;
        }
        -((m / (b as u64)) as i64)
    }
}

} // verus!
