use vstd::prelude::*;

verus! {

/// Number of fixed-point units in one whole unit (metres, seconds, radians).
pub const ONE: i64 = 1_000_000;

/// Exact product of two fixed-point values, rounded towards negative infinity.
pub open spec fn fmul_spec(a: int, b: int) -> int {
    (a * b) / (ONE as int)
}

proof fn lemma_floor_div_neg(n: int, d: int)
    requires
        n > 0,
        d > 0,
    ensures
        (-n) / d == if n % d == 0 { -(n / d) } else { -(n / d) - 1 },
{
    vstd::arithmetic::div_mod::lemma_fundamental_div_mod(n, d);
    vstd::arithmetic::div_mod::lemma_fundamental_div_mod(-n, d);
    let q = n / d;
    let r = n % d;
    if r == 0 {
        vstd::arithmetic::div_mod::lemma_div_multiples_vanish(-q, d);
        assert(-n == d * (-q)) by (nonlinear_arith) requires n == d * q;
    } else {
        assert(-n == d * (-q - 1) + (d - r)) by (nonlinear_arith) requires n == d * q + r;
        vstd::arithmetic::div_mod::lemma_fundamental_div_mod_converse(-n, d, -q - 1, d - r);
    }
}

/// Fixed-point product of `a` and `b`, where `b` is at most one whole unit in size.
pub fn fmul(a: i64, b: i64) -> (r: i64)
    requires
        a > i64::MIN,
        -ONE <= b <= ONE,
    ensures
        r == fmul_spec(a as int, b as int),
{
    let ghost ai = a as int;
    let ghost bi = b as int;
    proof {
        assert(-0x7fff_ffff_ffff_ffff * 1_000_000 <= ai * bi <= 0x7fff_ffff_ffff_ffff * 1_000_000)
            by (nonlinear_arith)
            requires
                -0x7fff_ffff_ffff_ffff <= ai <= 0x7fff_ffff_ffff_ffff,
                -1_000_000 <= bi <= 1_000_000,
        ;
    }
    let p: i128 = (a as i128) * (b as i128);
    let d: i128 = ONE as i128;
    if p >= 0 {
        let q: i128 = p / d;
        proof {
            vstd::arithmetic::div_mod::lemma_div_is_ordered(p as int, (0x7fff_ffff_ffff_ffff * 1_000_000) as int, 1_000_000);
        }
        proof {
            vstd::arithmetic::div_mod::lemma_div_multiples_vanish(0x7fff_ffff_ffff_ffff, 1_000_000);
        }
        q as i64
    } else {
        let n: i128 = -p;
        let q: i128 = n / d;
        let m: i128 = n % d;
        proof {
            lemma_floor_div_neg(n as int, d as int);
            vstd::arithmetic::div_mod::lemma_div_is_ordered(n as int, (0x7fff_ffff_ffff_ffff * 1_000_000) as int, 1_000_000);
        }
        proof {
            vstd::arithmetic::div_mod::lemma_div_multiples_vanish(0x7fff_ffff_ffff_ffff, 1_000_000);
        }
        if m == 0 {
            (-q) as i64
        } else {
            (-q - 1) as i64
        }
    }
}

/// π in fixed-point radians.
pub const PI: i64 = 3_141_593;

/// 2π in fixed-point radians.
pub const TWO_PI: i64 = 6_283_185;

/// π/2 in fixed-point radians.
pub const HALF_PI: i64 = 1_570_796;

/// Whether `x` can be the sine or cosine of an angle: at most one whole unit in size.
pub open spec fn is_unit_range(x: int) -> bool {
    -ONE <= x <= ONE
}

} // verus!
