use vstd::prelude::*;

use crate::animation::Behavior;

verus! {

/// A point or direction in fixed-point units (see `fixed::ONE`).
#[derive(Clone, Copy, Debug, PartialEq, Eq, Structural)]
pub struct Vec3 {
    pub x: i64,
    pub y: i64,
    pub z: i64,
}

/// One of the three coordinate axes.
#[derive(Clone, Copy, Debug, PartialEq, Eq, Structural)]
pub enum Axis {
    X,
    Y,
    Z,
}

impl Vec3 {
    pub open spec fn coord(self, a: Axis) -> i64 {
        match a {
            Axis::X => self.x,
            Axis::Y => self.y,
            Axis::Z => self.z,
        }
    }

    pub open spec fn with_coord(self, a: Axis, v: i64) -> Vec3 {
        match a {
            Axis::X => Vec3 { x: v, ..self },
            Axis::Y => Vec3 { y: v, ..self },
            Axis::Z => Vec3 { z: v, ..self },
        }
    }

    pub fn new(x: i64, y: i64, z: i64) -> (r: Vec3)
        ensures
            r == (Vec3 { x, y, z }),
    {
        Vec3 { x, y, z }
    }

    /// The coordinate along `a`.
    pub fn get(&self, a: Axis) -> (r: i64)
        ensures
            r == self.coord(a),
    {
        match a {
            Axis::X => self.x,
            Axis::Y => self.y,
            Axis::Z => self.z,
        }
    }

    /// This vector with its coordinate along `a` replaced by `v`.
    pub fn with(&self, a: Axis, v: i64) -> (r: Vec3)
        ensures
            r == self.with_coord(a, v),
            r.coord(a) == v,
    {
        match a {
            Axis::X => Vec3 { x: v, y: self.y, z: self.z },
            Axis::Y => Vec3 { x: self.x, y: v, z: self.z },
            Axis::Z => Vec3 { x: self.x, y: self.y, z: v },
        }
    }
}

/// Surface appearance of a metaball: an RGB color in `[0, ONE]` and a specular exponent.
#[derive(Clone, Copy, Debug, PartialEq, Eq, Structural)]
pub struct Material {
    pub color: Vec3,
    pub roughness: i64,
}

/// A point light source.
#[derive(Clone, Copy, Debug, PartialEq, Eq, Structural)]
pub struct PointLight {
    pub pos: Vec3,
    pub color: Vec3,
    pub intensity: i64,
}

/// One charge of the implicit field: a signed strength at a position, with its
/// material, its ordinal within its construction group and its motion.
#[derive(Clone, Copy, Debug, PartialEq, Eq, Structural)]
pub struct Metaball {
    pub charge_pos: Vec3,
    pub strength: i64,
    pub material: Material,
    pub behavior: Behavior,
    pub number: u32,
}

impl Metaball {
    /// A metaball is well formed when its behavior is.
    pub open spec fn wf(self) -> bool {
        self.behavior.wf()
    }
}

} // verus!
