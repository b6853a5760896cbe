//! 3- and 4-component fixed-point vectors.
//!
//! [`V4`] represents a spacetime 4-vector `(t, x, y, z)`; [`V3`] an ordinary
//! spatial 3-vector.  All componentwise operations inherit the saturating,
//! truncating policy of [`crate::fixed`].

use vstd::prelude::*;

use crate::fixed::Fx;
use crate::fixed::fx_add;
use crate::fixed::fx_div;
use crate::fixed::fx_mul;
use crate::fixed::fx_sub;

verus! {

/// A spatial 3-vector of fixed-point scalars.
#[derive(Clone, Copy, PartialEq, Eq, Structural, Debug)]
pub struct V3 {
    pub x: Fx,
    pub y: Fx,
    pub z: Fx,
}

/// A spacetime 4-vector `(t, x, y, z)` of fixed-point scalars.
#[derive(Clone, Copy, PartialEq, Eq, Structural, Debug)]
pub struct V4 {
    pub t: Fx,
    pub x: Fx,
    pub y: Fx,
    pub z: Fx,
}

pub open spec fn v3_add(a: V3, b: V3) -> V3 {
    V3 { x: fx_add(a.x, b.x), y: fx_add(a.y, b.y), z: fx_add(a.z, b.z) }
}

pub open spec fn v3_sub(a: V3, b: V3) -> V3 {
    V3 { x: fx_sub(a.x, b.x), y: fx_sub(a.y, b.y), z: fx_sub(a.z, b.z) }
}

pub open spec fn v3_scale(a: V3, s: Fx) -> V3 {
    V3 { x: fx_mul(a.x, s), y: fx_mul(a.y, s), z: fx_mul(a.z, s) }
}

/// Componentwise division by a scalar.
pub open spec fn v3_div_scalar(a: V3, s: Fx) -> V3 {
    V3 { x: fx_div(a.x, s), y: fx_div(a.y, s), z: fx_div(a.z, s) }
}

/// Dot product, accumulated left to right: `x*x' + y*y' + z*z'`.
pub open spec fn v3_dot(a: V3, b: V3) -> Fx {
    fx_add(fx_add(fx_mul(a.x, b.x), fx_mul(a.y, b.y)), fx_mul(a.z, b.z))
}

pub open spec fn v4_scale(a: V4, s: Fx) -> V4 {
    V4 { t: fx_mul(a.t, s), x: fx_mul(a.x, s), y: fx_mul(a.y, s), z: fx_mul(a.z, s) }
}

/// The spatial part of a 4-vector.
pub open spec fn v4_spatial(a: V4) -> V3 {
    V3 { x: a.x, y: a.y, z: a.z }
}

impl V3 {
    pub fn sat_add(self, o: V3) -> (r: V3)
        ensures
            r == v3_add(self, o),
    {
        V3 { x: self.x.sat_add(o.x), y: self.y.sat_add(o.y), z: self.z.sat_add(o.z) }
    }

    pub fn sat_sub(self, o: V3) -> (r: V3)
        ensures
            r == v3_sub(self, o),
    {
        V3 { x: self.x.sat_sub(o.x), y: self.y.sat_sub(o.y), z: self.z.sat_sub(o.z) }
    }

    pub fn scale(self, s: Fx) -> (r: V3)
        ensures
            r == v3_scale(self, s),
    {
        V3 { x: self.x.sat_mul(s), y: self.y.sat_mul(s), z: self.z.sat_mul(s) }
    }

    pub fn div_scalar(self, s: Fx) -> (r: V3)
        ensures
            r == v3_div_scalar(self, s),
    {
        V3 { x: self.x.sat_div(s), y: self.y.sat_div(s), z: self.z.sat_div(s) }
    }

    /// Dot product of two 3-vectors.
    pub fn dot(self, o: V3) -> (r: Fx)
        ensures
            r == v3_dot(self, o),
    {
        self.x.sat_mul(o.x).sat_add(self.y.sat_mul(o.y)).sat_add(self.z.sat_mul(o.z))
    }
}

impl V4 {
    pub fn zero() -> (r: V4)
        ensures
            r == (V4 {
                t: Fx { raw: 0 },
                x: Fx { raw: 0 },
                y: Fx { raw: 0 },
                z: Fx { raw: 0 },
            }),
    {
        V4 { t: Fx { raw: 0 }, x: Fx { raw: 0 }, y: Fx { raw: 0 }, z: Fx { raw: 0 } }
    }

    /// Scale all four components by a scalar.
    pub fn scale(self, s: Fx) -> (r: V4)
        ensures
            r == v4_scale(self, s),
    {
        V4 { t: self.t.sat_mul(s), x: self.x.sat_mul(s), y: self.y.sat_mul(s), z: self.z.sat_mul(s) }
    }

    /// The spatial `(x, y, z)` part.
    pub fn spatial(self) -> (r: V3)
        ensures
            r == v4_spatial(self),
    {
        V3 { x: self.x, y: self.y, z: self.z }
    }
}

} // verus!
