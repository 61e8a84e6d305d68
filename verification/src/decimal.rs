//! Exact decimal numbers for the real-valued configuration parameters.
use vstd::prelude::*;
use vstd::arithmetic::power::{pow, lemma_pow0, lemma_pow1, lemma_pow_positive, lemma_pow_increases};

verus! {

/// The real number `mantissa * 10^exponent`.
#[derive(Clone, Copy, PartialEq, Eq, Debug)]
pub struct Decimal {
    pub mantissa: i64,
    pub exponent: i32,
}

/// The decimal `mantissa * 10^exponent`.
pub fn dec(mantissa: i64, exponent: i32) -> (d: Decimal)
    ensures
        d.mantissa == mantissa,
        d.exponent == exponent,
{
    Decimal { mantissa, exponent }
}

/// Zero.
pub fn dec_zero() -> (d: Decimal)
    ensures
        d.mantissa == 0,
        d.exponent == 0,
{
    Decimal { mantissa: 0, exponent: 0 }
}

/// The value is not positive (powers of ten are positive, so the mantissa decides).
pub open spec fn dec_nonpositive(d: Decimal) -> bool {
    d.mantissa <= 0
}

/// How the value `mantissa * 10^exponent` compares with 1: `-1` below, `0` equal,
/// `1` above.  For a negative exponent both sides are scaled by `10^-exponent`.
pub open spec fn dec_vs_one(d: Decimal) -> int {
    let (lhs, rhs) = if d.exponent >= 0 {
        (d.mantissa * pow(10, d.exponent as nat), 1int)
    } else {
        (d.mantissa as int, pow(10, (-d.exponent) as nat))
    };
    if lhs < rhs {
        -1
    } else if lhs == rhs {
        0
    } else {
        1
    }
}

/// `10^k` for `k` up to 18 (computed).
fn pow10_small(k: u32) -> (p: i64)
    requires
        k <= 18,
    ensures
        p == pow(10, k as nat),
        p >= 1,
{
    let mut p: i64 = 1;
    let mut i: u32 = 0;
    proof {
        reveal(pow);
    }
    while i < k
        invariant
            i <= k <= 18,
            p == pow(10, i as nat),
        decreases k - i,
    {
        proof {
            lemma_pow_increases(10, i as nat, 17);
            pow_17_value();
            lemma_pow_positive(10, i as nat);
            reveal(pow);
        }
        p = p * 10;
        i = i + 1;
    }
    proof {
        lemma_pow_positive(10, k as nat);
    }
    p
}

/// `10^17`.
proof fn pow_17_value()
    ensures
        pow(10, 17) == 100_000_000_000_000_000,
{
    reveal_with_fuel(pow, 18);
}

/// Compares a decimal with 1 (computed).
pub fn dec_vs_one_exec(d: Decimal) -> (r: i8)
    ensures
        r == dec_vs_one(d),
{
    let m = d.mantissa;
    let e = d.exponent;
    if e >= 0 {
        proof {
            lemma_pow_positive(10, e as nat);
            lemma_pow_increases(10, 0, e as nat);
            lemma_pow0(10);
            let q = pow(10, e as nat);
            assert(m <= 0 ==> m * q <= 0) by (nonlinear_arith)
                requires
                    q > 0,
            ;
            assert(m >= 1 && q >= 1 ==> m * q >= q && m * q >= m) by (nonlinear_arith);
            if e > 0 {
                lemma_pow_increases(10, 1, e as nat);
                lemma_pow1(10);
            }
        }
        if m <= 0 {
            -1
        } else if m == 1 && e == 0 {
            let ghost q = pow(10, e as nat);
            assert(m * q == 1) by (nonlinear_arith)
                requires
                    m == 1,
                    q == 1,
            ;
            0
        } else {
            1
        }
    } else if m <= 0 {
        proof {
            lemma_pow_positive(10, (-e) as nat);
        }
        -1
    } else {
        let k: i64 = -(e as i64);
        if k >= 19 {
            proof {
                lemma_pow_increases(10, 19, k as nat);
                pow_19_exceeds_i64();
            }
            -1
        } else {
            let p = pow10_small(k as u32);
            if m < p {
                -1
            } else if m == p {
                0
            } else {
                1
            }
        }
    }
}

/// `10^18`.
proof fn pow_18_value()
    ensures
        pow(10, 18) == 1_000_000_000_000_000_000,
{
    reveal_with_fuel(pow, 19);
}

/// `10^19` exceeds every `i64`.
proof fn pow_19_exceeds_i64()
    ensures
        pow(10, 19) > i64::MAX,
{
    reveal_with_fuel(pow, 20);
}

/// Comparing with 1 depends on the value only: scaling the mantissa by ten and
/// lowering the exponent by one (the same number) gives the same answer.
pub proof fn lemma_vs_one_scale_invariant(m: i64, e: i32)
    requires
        i64::MIN <= 10 * m <= i64::MAX,
        e > i32::MIN,
    ensures
        dec_vs_one(Decimal { mantissa: (10 * m) as i64, exponent: (e - 1) as i32 }) == dec_vs_one(
            Decimal { mantissa: m, exponent: e },
        ),
{
    lemma_pow0(10);
    lemma_pow1(10);
    if e >= 1 {
        let k = (e - 1) as nat;
        reveal(pow);
        assert(pow(10, k + 1) == 10 * pow(10, k));
        assert((10 * m) * pow(10, k) == m * pow(10, k + 1)) by (nonlinear_arith)
            requires
                pow(10, k + 1) == 10 * pow(10, k),
        ;
    } else if e == 0 {
        assert(m * pow(10, 0) == m) by (nonlinear_arith)
            requires
                pow(10, 0) == 1,
        ;
    } else {
        let k = (-e) as nat;
        reveal(pow);
        assert(pow(10, k + 1) == 10 * pow(10, k));
        lemma_pow_positive(10, k);
    }
}

/// How `a` compares with `b`: `-1` below, `0` equal, `1` above.  Both values are
/// brought to the smaller of the two exponents and the mantissas compared.
pub open spec fn dec_order(a: Decimal, b: Decimal) -> int {
    let lo: int = if a.exponent <= b.exponent { a.exponent as int } else { b.exponent as int };
    let lhs = a.mantissa * pow(10, (a.exponent - lo) as nat);
    let rhs = b.mantissa * pow(10, (b.exponent - lo) as nat);
    if lhs < rhs {
        -1
    } else if lhs == rhs {
        0
    } else {
        1
    }
}

/// Compares `m * 10^k` with `n`, for `k >= 0` (computed).
fn scaled_vs(m: i64, k: i64, n: i64) -> (r: i8)
    requires
        k >= 0,
    ensures
        ({
            let lhs = m * pow(10, k as nat);
            r == (if lhs < n {
                -1int
            } else if lhs == n {
                0int
            } else {
                1int
            })
        }),
{
    proof {
        lemma_pow_positive(10, k as nat);
    }
    let ghost q = pow(10, k as nat);
    if m == 0 {
        assert(m * q == 0) by (nonlinear_arith)
            requires
                m == 0,
        ;
        if 0 < n {
            -1
        } else if n == 0 {
            0
        } else {
            1
        }
    } else if k >= 19 {
        proof {
            lemma_pow_increases(10, 19, k as nat);
            assert(pow(10, 19) == 10_000_000_000_000_000_000) by {
                reveal_with_fuel(pow, 20);
            }
            assert(m >= 1 ==> m * q >= q) by (nonlinear_arith)
                requires
                    q > 0,
            ;
            assert(m <= -1 ==> m * q <= -q) by (nonlinear_arith)
                requires
                    q > 0,
            ;
        }
        if m > 0 {
            1
        } else {
            -1
        }
    } else {
        let p = pow10_small(k as u32);
        proof {
            lemma_pow_increases(10, k as nat, 18);
            pow_18_value();
        }
        assert(-0x8000_0000_0000_0000 * 1_000_000_000_000_000_000 <= (m as int) * (p as int)
            <= 0x8000_0000_0000_0000 * 1_000_000_000_000_000_000) by (nonlinear_arith)
            requires
                i64::MIN <= m <= i64::MAX,
                1 <= p <= 1_000_000_000_000_000_000,
        ;
        let lhs: i128 = (m as i128) * (p as i128);
        assert(lhs == m * q);
        if lhs < n as i128 {
            -1
        } else if lhs == n as i128 {
            0
        } else {
            1
        }
    }
}

/// Compares two decimals (computed).
pub fn dec_order_exec(a: Decimal, b: Decimal) -> (r: i8)
    ensures
        r == dec_order(a, b),
{
    proof {
        lemma_pow0(10);
    }
    if a.exponent >= b.exponent {
        let k: i64 = a.exponent as i64 - b.exponent as i64;
        assert(b.mantissa * pow(10, 0) == b.mantissa) by (nonlinear_arith)
            requires
                pow(10, 0) == 1,
        ;
        scaled_vs(a.mantissa, k, b.mantissa)
    } else {
        let k: i64 = b.exponent as i64 - a.exponent as i64;
        assert(a.mantissa * pow(10, 0) == a.mantissa) by (nonlinear_arith)
            requires
                pow(10, 0) == 1,
        ;
        let r = scaled_vs(b.mantissa, k, a.mantissa);
        -r
    }
}

} // verus!
