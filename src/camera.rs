use vstd::prelude::*;

use crate::fixed::{is_unit_range, fmul, fmul_spec, HALF_PI, ONE};
use crate::scene::Vec3;

verus! {

/// A 4×4 matrix in fixed-point units, stored column by column.
#[derive(Clone, Copy, Debug, PartialEq, Eq)]
pub struct Mat4 {
    pub cols: [[i64; 4]; 4],
}

impl Mat4 {
    /// The entry in column `c` and row `r`.
    pub open spec fn at(self, c: int, r: int) -> i64 {
        self.cols@[c]@[r]
    }

    pub open spec fn is_identity(self) -> bool {
        forall|c: int, r: int|
            0 <= c < 4 && 0 <= r < 4 ==> #[trigger] self.at(c, r) == if c == r {
                ONE
            } else {
                0
            }
    }
}

/// Whether each coordinate of `v` lies in `[-ONE, ONE]`, as those of a unit vector do.
pub open spec fn is_unit_bounded(v: Vec3) -> bool {
    is_unit_range(v.x as int) && is_unit_range(v.y as int) && is_unit_range(v.z as int)
}

/// `t * a * b` in fixed point, rounding after each product.
pub open spec fn mul3(t: int, a: int, b: int) -> int {
    fmul_spec(fmul_spec(t, a), b)
}

/// Entry (row `r`, column `c`) of the rotation by the angle with cosine `cs`
/// and sine `sn` about the unit axis `k`:
/// `cs·δ(r,c) + (1 − cs)·k_r·k_c − sn·ε(r,c,j)·k_j`.
pub open spec fn rotation_entry(k: Vec3, cs: int, sn: int, r: int, c: int) -> int {
    let t = ONE - cs;
    let kr = if r == 0 { k.x } else if r == 1 { k.y } else { k.z };
    let kc = if c == 0 { k.x } else if c == 1 { k.y } else { k.z };
    let outer = mul3(t, kr as int, kc as int);
    if r == c {
        outer + cs
    } else if r == 0 && c == 1 {
        outer - fmul_spec(sn, k.z as int)
    } else if r == 1 && c == 0 {
        outer + fmul_spec(sn, k.z as int)
    } else if r == 0 && c == 2 {
        outer + fmul_spec(sn, k.y as int)
    } else if r == 2 && c == 0 {
        outer - fmul_spec(sn, k.y as int)
    } else if r == 1 && c == 2 {
        outer - fmul_spec(sn, k.x as int)
    } else {
        outer + fmul_spec(sn, k.x as int)
    }
}

/// The camera matrix `translation(pos) · rotation(angle, axis)`: the rotation
/// in the upper-left 3×3 block, `pos` in the last column, `(0, 0, 0, 1)` in the last row.
pub open spec fn camera_entry(pos: Vec3, axis: Vec3, cs: int, sn: int, c: int, r: int) -> int {
    if r == 3 {
        if c == 3 {
            ONE as int
        } else {
            0
        }
    } else if c == 3 {
        if r == 0 {
            pos.x as int
        } else if r == 1 {
            pos.y as int
        } else {
            pos.z as int
        }
    } else {
        rotation_entry(axis, cs, sn, r, c)
    }
}

pub open spec fn is_camera_matrix(m: Mat4, pos: Vec3, axis: Vec3, cs: int, sn: int) -> bool {
    forall|c: int, r: int|
        0 <= c < 4 && 0 <= r < 4 ==> #[trigger] m.at(c, r) == camera_entry(pos, axis, cs, sn, c, r)
}

proof fn lemma_mul_bound(a: int, b: int)
    requires
        is_unit_range(b),
    ensures
        a >= 0 ==> -a <= fmul_spec(a, b) <= a,
        a < 0 ==> a <= fmul_spec(a, b) <= -a,
{
    let p = a * b;
    if a >= 0 {
        assert(-a * 1_000_000 <= p <= a * 1_000_000) by (nonlinear_arith)
            requires
                p == a * b,
                a >= 0,
                -1_000_000 <= b <= 1_000_000,
        ;
        vstd::arithmetic::div_mod::lemma_div_is_ordered(p, a * 1_000_000, 1_000_000);
        vstd::arithmetic::div_mod::lemma_div_is_ordered(-a * 1_000_000, p, 1_000_000);
        vstd::arithmetic::div_mod::lemma_div_multiples_vanish(a, 1_000_000);
        vstd::arithmetic::div_mod::lemma_div_multiples_vanish(-a, 1_000_000);
    } else {
        assert(a * 1_000_000 <= p <= -a * 1_000_000) by (nonlinear_arith)
            requires
                p == a * b,
                a < 0,
                -1_000_000 <= b <= 1_000_000,
        ;
        vstd::arithmetic::div_mod::lemma_div_is_ordered(p, -a * 1_000_000, 1_000_000);
        vstd::arithmetic::div_mod::lemma_div_is_ordered(a * 1_000_000, p, 1_000_000);
        vstd::arithmetic::div_mod::lemma_div_multiples_vanish(a, 1_000_000);
        vstd::arithmetic::div_mod::lemma_div_multiples_vanish(-a, 1_000_000);
    }
}

/// `t * a * b` in fixed point, for `t` in `[0, 2·ONE]`.
fn mul3_exec(t: i64, a: i64, b: i64) -> (r: i64)
    requires
        0 <= t <= 2 * ONE,
        is_unit_range(a as int),
        is_unit_range(b as int),
    ensures
        r == mul3(t as int, a as int, b as int),
        -2 * ONE <= r <= 2 * ONE,
{
    let ta = fmul(t, a);
    proof {
        lemma_mul_bound(t as int, a as int);
        lemma_mul_bound(ta as int, b as int);
    }
    fmul(ta, b)
}

/// One entry of the rotation block; see `rotation_entry`.
fn rotation_at(k: Vec3, cs: i64, sn: i64, r: usize, c: usize) -> (e: i64)
    requires
        is_unit_bounded(k),
        is_unit_range(cs as int),
        is_unit_range(sn as int),
        r < 3,
        c < 3,
    ensures
        e == rotation_entry(k, cs as int, sn as int, r as int, c as int),
{
    let t = ONE - cs;
    let kr = if r == 0 { k.x } else if r == 1 { k.y } else { k.z };
    let kc = if c == 0 { k.x } else if c == 1 { k.y } else { k.z };
    let outer = mul3_exec(t, kr, kc);
    proof {
        lemma_mul_bound(sn as int, k.x as int);
        lemma_mul_bound(sn as int, k.y as int);
        lemma_mul_bound(sn as int, k.z as int);
    }
    if r == c {
        outer + cs
    } else if r == 0 && c == 1 {
        outer - fmul(sn, k.z)
    } else if r == 1 && c == 0 {
        outer + fmul(sn, k.z)
    } else if r == 0 && c == 2 {
        outer + fmul(sn, k.y)
    } else if r == 2 && c == 0 {
        outer - fmul(sn, k.y)
    } else if r == 1 && c == 2 {
        outer - fmul(sn, k.x)
    } else {
        outer + fmul(sn, k.x)
    }
}

/// The camera matrix `translation(pos) · rotation(angle, axis)`, where the
/// angle is given by its cosine `cs` and sine `sn`: rotate first, then translate.
/// `axis` is taken to be of unit length; it is not normalized here.
pub fn camera_matrix(pos: Vec3, axis: Vec3, cs: i64, sn: i64) -> (m: Mat4)
    requires
        is_unit_bounded(axis),
        is_unit_range(cs as int),
        is_unit_range(sn as int),
    ensures
        is_camera_matrix(m, pos, axis, cs as int, sn as int),
{
    let c0 = [
        rotation_at(axis, cs, sn, 0, 0),
        rotation_at(axis, cs, sn, 1, 0),
        rotation_at(axis, cs, sn, 2, 0),
        0,
    ];
    let c1 = [
        rotation_at(axis, cs, sn, 0, 1),
        rotation_at(axis, cs, sn, 1, 1),
        rotation_at(axis, cs, sn, 2, 1),
        0,
    ];
    let c2 = [
        rotation_at(axis, cs, sn, 0, 2),
        rotation_at(axis, cs, sn, 1, 2),
        rotation_at(axis, cs, sn, 2, 2),
        0,
    ];
    let c3 = [pos.x, pos.y, pos.z, ONE];
    let m = Mat4 { cols: [c0, c1, c2, c3] };
    assert(is_camera_matrix(m, pos, axis, cs as int, sn as int)) by {
        assert forall|c: int, r: int| 0 <= c < 4 && 0 <= r < 4 implies #[trigger] m.at(c, r)
            == camera_entry(pos, axis, cs as int, sn as int, c, r) by {
            if c == 0 {
            } else if c == 1 {
            } else if c == 2 {
            } else {
            }
        }
    }
    m
}

/// With the camera at the origin and a rotation by the zero angle (cosine one,
/// sine zero), the camera matrix is the identity, whatever the axis.
pub proof fn lemma_camera_at_rest_is_identity(m: Mat4, axis: Vec3)
    requires
        is_unit_bounded(axis),
        is_camera_matrix(m, Vec3 { x: 0, y: 0, z: 0 }, axis, ONE as int, 0),
    ensures
        m.is_identity(),
{
    assert forall|c: int, r: int| 0 <= c < 4 && 0 <= r < 4 implies #[trigger] m.at(c, r) == if c
        == r {
        ONE
    } else {
        0
    } by {
        assert(m.at(c, r) == camera_entry(Vec3 { x: 0, y: 0, z: 0 }, axis, ONE as int, 0, c, r));
        if r < 3 && c < 3 {
            assert(fmul_spec(0, axis.x as int) == 0);
            assert(fmul_spec(0, axis.y as int) == 0);
            assert(fmul_spec(0, axis.z as int) == 0);
            assert(fmul_spec(0, 0) == 0);
        }
    }
}

/// A circular camera orbit about the vertical axis: fixed radius, fixed height.
#[derive(Clone, Copy, Debug, PartialEq, Eq, Structural)]
pub struct Orbit {
    pub radius: i64,
    pub height: i64,
}

impl Orbit {
    /// The orbit angle at scene time `t`: half the time, starting a quarter turn back.
    pub open spec fn angle_spec(t: int) -> int {
        t / 2 - HALF_PI
    }

    /// The camera position on the orbit when the angle has cosine `cs` and sine `sn`.
    pub open spec fn position_spec(self, cs: int, sn: int) -> Vec3 {
        Vec3 {
            x: fmul_spec(self.radius as int, cs) as i64,
            y: self.height,
            z: fmul_spec(self.radius as int, sn) as i64,
        }
    }

    /// The orbit angle at scene time `t`.
    pub fn angle(t: i64) -> (r: i64)
        ensures
            r == Orbit::angle_spec(t as int),
    {
        let half: i64 = if t >= 0 {
            t / 2
        } else {
            let n: i64 = -(t + 1);
            proof {
                assert(t as int / 2 == -(n as int / 2) - 1) by (nonlinear_arith)
                    requires
                        n == -(t + 1),
                        n >= 0,
                ;
            }
            -(n / 2) - 1
        };
        half - HALF_PI
    }

    /// The camera position on the orbit when the angle has cosine `cs` and sine `sn`.
    pub fn position(&self, cs: i64, sn: i64) -> (r: Vec3)
        requires
            self.radius > i64::MIN,
            is_unit_range(cs as int),
            is_unit_range(sn as int),
        ensures
            r == self.position_spec(cs as int, sn as int),
    {
        proof {
            lemma_mul_bound(self.radius as int, cs as int);
            lemma_mul_bound(self.radius as int, sn as int);
        }
        Vec3 { x: fmul(self.radius, cs), y: self.height, z: fmul(self.radius, sn) }
    }
}

} // verus!
