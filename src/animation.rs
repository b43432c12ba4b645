use vstd::prelude::*;

use crate::fixed::{is_unit_range, TWO_PI};
use crate::frames::FrameClock;
use crate::scene::{Axis, Metaball, Vec3};

verus! {

/// Bound on the fixed offsets of a ring, so that an offset plus a sine stays in range.
pub const OFFSET_LIMIT: i64 = 0x4000_0000_0000_0000;

/// How a metaball moves, chosen per instance at construction.
#[derive(Clone, Copy, Debug, PartialEq, Eq, Structural)]
pub enum Behavior {
    /// The metaball keeps its position.
    Static,
    /// The metaball runs along a unit circle in the plane of two axes, one of
    /// `slots` members of a ring. Member `number` starts `number * 2π / slots`
    /// after the others; its angle is held within `[0, window]`.
    Ring {
        slots: u32,
        window: i64,
        sin_axis: Axis,
        sin_offset: i64,
        cos_axis: Axis,
        cos_offset: i64,
    },
}

/// Start of the ring member `number` of `slots`, in fixed-point seconds.
pub open spec fn phase_offset(number: int, slots: int) -> int {
    number * (TWO_PI as int) / slots
}

/// Scene time `t` shifted by `offset` and held within `[0, window]`.
pub open spec fn clamp_time(t: int, offset: int, window: int) -> int {
    vstd::math::min(vstd::math::max(0, t - offset), window)
}

impl Behavior {
    pub open spec fn wf(self) -> bool {
        match self {
            Behavior::Static => true,
            Behavior::Ring { slots, window, sin_offset, cos_offset, .. } => {
                &&& slots > 0
                &&& window >= 0
                &&& -OFFSET_LIMIT <= sin_offset <= OFFSET_LIMIT
                &&& -OFFSET_LIMIT <= cos_offset <= OFFSET_LIMIT
            },
        }
    }

    /// The angle at which member `number` is evaluated at scene time `t`.
    pub open spec fn angle_spec(self, number: int, t: int) -> int {
        match self {
            Behavior::Static => 0,
            Behavior::Ring { slots, window, .. } => clamp_time(
                t,
                phase_offset(number, slots as int),
                window as int,
            ),
        }
    }

    /// The position that follows `pos` when the angle has the given sine and cosine.
    pub open spec fn place_spec(self, pos: Vec3, sin: int, cos: int) -> Vec3 {
        match self {
            Behavior::Static => pos,
            Behavior::Ring { sin_axis, sin_offset, cos_axis, cos_offset, .. } => pos.with_coord(
                sin_axis,
                (sin + sin_offset) as i64,
            ).with_coord(cos_axis, (cos + cos_offset) as i64),
        }
    }

    /// The angle at which member `number` is evaluated at scene time `t`.
    pub fn angle(&self, number: u32, t: i64) -> (r: i64)
        requires
            self.wf(),
        ensures
            r == self.angle_spec(number as int, t as int),
    {
        match self {
            Behavior::Static => 0,
            Behavior::Ring { slots, window, .. } => {
                proof {
                    assert(number * 6_283_185 <= 0xffff_ffff * 6_283_185) by (nonlinear_arith)
                        requires
                            number <= 0xffff_ffff,
                    ;
                    vstd::arithmetic::div_mod::lemma_div_is_ordered_by_denominator(
                        number * 6_283_185,
                        1,
                        *slots as int,
                    );
                }
                let offset: i64 = ((number as u64) * (TWO_PI as u64) / (*slots as u64)) as i64;
                if t <= offset {
                    0
                } else if t - offset > *window {
                    *window
                } else {
                    t - offset
                }
            },
        }
    }

    /// The position that follows `pos` when the angle has the given sine and cosine.
    pub fn place(&self, pos: Vec3, sin: i64, cos: i64) -> (r: Vec3)
        requires
            self.wf(),
            is_unit_range(sin as int),
            is_unit_range(cos as int),
        ensures
            r == self.place_spec(pos, sin as int, cos as int),
    {
        match self {
            Behavior::Static => pos,
            Behavior::Ring { sin_axis, sin_offset, cos_axis, cos_offset, .. } => {
                let p = pos.with(*sin_axis, sin + *sin_offset);
                p.with(*cos_axis, cos + *cos_offset)
            },
        }
    }
}

/// Something whose state advances with scene time.
///
/// Advancing takes two steps: `phase` gives the angle at which the motion is
/// evaluated, and `animate` takes that angle's sine and cosine and writes the
/// new state. Both depend on the value's own state and their arguments alone.
pub trait Animatable: Sized {
    spec fn animatable(&self) -> bool;

    spec fn phase_spec(&self, frame_time: int) -> int;

    spec fn animated(&self, sin: int, cos: int) -> Self;

    fn phase(&self, frame_time: i64) -> (r: i64)
        requires
            self.animatable(),
        ensures
            r == self.phase_spec(frame_time as int),
    ;

    fn animate(&mut self, sin: i64, cos: i64)
        requires
            old(self).animatable(),
            is_unit_range(sin as int),
            is_unit_range(cos as int),
        ensures
            *final(self) == old(self).animated(sin as int, cos as int),
            final(self).animatable(),
    ;
}

impl Animatable for Metaball {
    open spec fn animatable(&self) -> bool {
        self.wf()
    }

    open spec fn phase_spec(&self, frame_time: int) -> int {
        self.behavior.angle_spec(self.number as int, frame_time)
    }

    /// Only the position changes.
    open spec fn animated(&self, sin: int, cos: int) -> Metaball {
        Metaball { charge_pos: self.behavior.place_spec(self.charge_pos, sin, cos), ..*self }
    }

    fn phase(&self, frame_time: i64) -> (r: i64) {
        self.behavior.angle(self.number, frame_time)
    }

    fn animate(&mut self, sin: i64, cos: i64) {
        self.charge_pos = self.behavior.place(self.charge_pos, sin, cos);
    }
}

/// A ring member stands still outside its window: up to its start it is
/// evaluated at angle zero, as at scene time zero, and from `window` seconds
/// after its start on at angle `window`.
pub proof fn lemma_ring_holds_outside_window(b: Behavior, number: int, t: int)
    requires
        b.wf(),
        b is Ring,
        number >= 0,
    ensures
        t <= phase_offset(number, b->slots as int) ==> b.angle_spec(number, t) == b.angle_spec(number, 0),
        t <= phase_offset(number, b->slots as int) ==> b.angle_spec(number, t) == 0,
        t >= phase_offset(number, b->slots as int) + b->window ==> b.angle_spec(number, t) == b->window,
{
    vstd::arithmetic::div_mod::lemma_div_pos_is_pos(number * (TWO_PI as int), b->slots as int);
    assert(number * (TWO_PI as int) >= 0) by (nonlinear_arith)
        requires
            number >= 0,
    ;
}

/// Animation depends on nothing but the metaball's own motion state and the
/// frame: two metaballs that agree on position, behavior and ordinal are
/// evaluated at the same angle for frame `f` of `clock` and reach the same
/// position from the same sine and cosine, whatever their strength and
/// material. Evaluating one metaball twice thus gives the same position.
pub proof fn lemma_animation_deterministic(
    a: Metaball,
    b: Metaball,
    clock: FrameClock,
    f: nat,
    sin: int,
    cos: int,
)
    requires
        a.charge_pos == b.charge_pos,
        a.behavior == b.behavior,
        a.number == b.number,
    ensures
        a.phase_spec(clock.time_spec(f as int)) == b.phase_spec(clock.time_spec(f as int)),
        a.animated(sin, cos).charge_pos == b.animated(sin, cos).charge_pos,
        a.animated(sin, cos).strength == a.strength,
        a.animated(sin, cos).material == a.material,
        a.animated(sin, cos).behavior == a.behavior,
        a.animated(sin, cos).number == a.number,
{
}

} // verus!
