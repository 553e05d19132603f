//! Fixed-point arithmetic on prices.
use vstd::prelude::*;

verus! {

/// `10` raised to `exp`.
pub open spec fn pow10(exp: nat) -> int
    decreases exp,
{
    if exp == 0 {
        1
    } else {
        10 * pow10((exp - 1) as nat)
    }
}

/// Quotient of a division rounded toward zero, as Rust's `/` on signed integers computes it.
pub open spec fn trunc_div(n: int, d: int) -> int {
    let q = (if n >= 0 { n } else { -n }) / (if d > 0 { d } else { -d });
    if (n >= 0) == (d > 0) {
        q
    } else {
        -q
    }
}

/// Remainder of a division rounded toward zero, as Rust's `%` on signed integers computes it.
pub open spec fn trunc_rem(n: int, d: int) -> int {
    let r = (if n >= 0 { n } else { -n }) % (if d > 0 { d } else { -d });
    if n >= 0 {
        r
    } else {
        -r
    }
}

/// Quotient of a division rounded toward negative infinity.
pub open spec fn floor_div(n: int, d: int) -> int {
    if d > 0 {
        n / d
    } else {
        (-n) / (-d)
    }
}

/// `x * 10^decimals / y`, rounded toward negative infinity.
pub open spec fn fixed_div_floor_spec(x: int, y: int, decimals: nat) -> int {
    floor_div(x * pow10(decimals), y)
}

/// When `fixed_div_floor` can compute its result without overflow or a division by zero.
pub open spec fn fixed_div_floor_defined(x: int, y: int, decimals: nat) -> bool {
    &&& decimals <= 38
    &&& y != 0
    &&& i128::MIN <= x * pow10(decimals) <= i128::MAX
    &&& i128::MIN <= fixed_div_floor_spec(x, y, decimals) <= i128::MAX
}

proof fn lemma_pow10_positive(exp: nat)
    ensures
        pow10(exp) >= 1,
    decreases exp,
{
    if exp > 0 {
        lemma_pow10_positive((exp - 1) as nat);
    }
}

proof fn lemma_pow10_monotonic(a: nat, b: nat)
    requires
        a <= b,
    ensures
        pow10(a) <= pow10(b),
    decreases b,
{
    if a < b {
        lemma_pow10_monotonic(a, (b - 1) as nat);
        lemma_pow10_positive((b - 1) as nat);
    }
}

proof fn lemma_pow10_38()
    ensures
        pow10(38) == 100_000_000_000_000_000_000_000_000_000_000_000_000int,
{
    reveal_with_fuel(pow10, 39);
}

/// Computes `10^exp`; `10^38` is the largest power of ten an `i128` holds.
pub fn pow10_i128(exp: u32) -> (r: i128)
    requires
        exp <= 38,
    ensures
        r == pow10(exp as nat),
{
    let mut r: i128 = 1;
    let mut i: u32 = 0;
    while i < exp
        invariant
            i <= exp <= 38,
            r == pow10(i as nat),
        decreases exp - i,
    {
        proof {
            lemma_pow10_monotonic((i + 1) as nat, 38);
            lemma_pow10_positive(i as nat);
            lemma_pow10_38();
            assert(pow10((i + 1) as nat) == 10 * pow10(i as nat));
            assert(10 * r <= 100_000_000_000_000_000_000_000_000_000_000_000_000int);
        }
        r = r * 10;
        i = i + 1;
    }
    r
}

/// Euclidean division by a negative divisor, in terms of division by its magnitude.
proof fn lemma_negative_divisor(x: int, d: int)
    requires
        d < 0,
    ensures
        x / d == -(x / (-d)),
        x % d == x % (-d),
{
    let e = -d;
    vstd::arithmetic::div_mod::lemma_fundamental_div_mod(x, d);
    vstd::arithmetic::div_mod::lemma_fundamental_div_mod(x, e);
    vstd::arithmetic::div_mod::lemma_mod_bound(x, e);
    let q1 = x / d;
    let r1 = x % d;
    let q2 = x / e;
    let r2 = x % e;
    assert(0 <= r1 < e);
    assert(q1 == -q2 && r1 == r2) by (nonlinear_arith)
        requires
            x == d * q1 + r1,
            x == e * q2 + r2,
            e == -d,
            e > 0,
            0 <= r1 < e,
            0 <= r2 < e,
    ;
}

proof fn lemma_floor_from_trunc(n: int, d: int)
    requires
        d != 0,
    ensures
        floor_div(n, d) == (if trunc_rem(n, d) != 0 && ((trunc_rem(n, d) < 0) != (d < 0)) {
            trunc_div(n, d) - 1
        } else {
            trunc_div(n, d)
        }),
{
    let e = if d > 0 { d } else { -d };
    let m = if n >= 0 { n } else { -n };
    let a = m / e;
    let b = m % e;
    assert(m == e * a + b && 0 <= b < e) by {
        vstd::arithmetic::div_mod::lemma_fundamental_div_mod(m, e);
        vstd::arithmetic::div_mod::lemma_mod_bound(m, e);
    }
    // In the two mixed-sign cases the floor lies one below the truncated quotient
    // exactly when the division leaves a remainder.
    if (n >= 0) != (d > 0) {
        if b == 0 {
            assert(-m == (-a) * e + 0) by (nonlinear_arith)
                requires
                    m == e * a,
            ;
            vstd::arithmetic::div_mod::lemma_fundamental_div_mod_converse(-m, e, -a, 0);
        } else {
            assert(-m == (-a - 1) * e + (e - b)) by (nonlinear_arith)
                requires
                    m == e * a + b,
            ;
            vstd::arithmetic::div_mod::lemma_fundamental_div_mod_converse(-m, e, -a - 1, e - b);
        }
    }
}

/// `x * 10^decimals / y`, rounded toward negative infinity.
pub fn fixed_div_floor(x: i128, y: i128, decimals: u32) -> (r: i128)
    requires
        fixed_div_floor_defined(x as int, y as int, decimals as nat),
    ensures
        r == fixed_div_floor_spec(x as int, y as int, decimals as nat),
{
    let scale = pow10_i128(decimals);
    let n = x * scale;
    let q = n / y;
    let r = n % y;
    proof {
        lemma_floor_from_trunc(n as int, y as int);
        if y > 0 && n >= 0 {
            assert(q == n / y && r == n % y);
        } else if y > 0 {
            assert(q == -((-n) / (y as int)) && r == -((-n) % (y as int)));
        } else if n >= 0 {
            lemma_negative_divisor(n as int, y as int);
            assert(q == -((n as int) / (-y)) && r == (n as int) % (-y));
        } else {
            lemma_negative_divisor(-n, y as int);
            assert(q == (-n) / (-y) && r == -((-n) % (-y)));
        }
        assert(q == trunc_div(n as int, y as int));
        assert(r == trunc_rem(n as int, y as int));
    }
    if r != 0 && ((r < 0) != (y < 0)) {
        q - 1
    } else {
        q
    }
}

} // verus!
