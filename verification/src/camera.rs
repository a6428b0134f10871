//! The camera: a position, a scale and a rotation, with the transform from
//! world space to the screen and the conversion of screen distances back
//! into world distances.
//!
//! A world point `p` is seen at `S * R * (p - position)` pixels from the
//! centre of the viewport, where `R` turns by the camera's rotation and `S`
//! stretches the two screen axes by the camera's scale. In both spaces `y`
//! grows downward: no axis is flipped. World lengths and scales are counted in
//! millionths, screen lengths in whole pixels, angles in millionths of a
//! degree.

use vstd::prelude::*;
use crate::fixed::{div_toward_zero, lemma_product_bound, lemma_trunc_div_bound, saturate, saturate_to_i64, trunc_div, UNIT};
use crate::trig::{lemma_sine_cosine_bounded, lemma_sine_cosine_on_axes, sin_cos, sine_cosine};

verus! {

/// A point or a displacement in world space, in millionths of a world unit.
#[derive(Clone, Copy, Debug, PartialEq, Eq, Structural)]
pub struct WorldVector {
    pub x: i64,
    pub y: i64,
}

/// A position on the screen, in pixels from the top left corner.
#[derive(Clone, Copy, Debug, PartialEq, Eq, Structural)]
pub struct ScreenPoint {
    pub x: i32,
    pub y: i32,
}

/// A displacement on the screen, in pixels.
#[derive(Clone, Copy, Debug, PartialEq, Eq, Structural)]
pub struct ScreenDelta {
    pub dx: i64,
    pub dy: i64,
}

/// The size of the visible area, in pixels.
#[derive(Clone, Copy, Debug, PartialEq, Eq, Structural)]
pub struct Viewport {
    pub width: u32,
    pub height: u32,
}

/// The magnification along the two screen axes, in millionths: pixels per
/// world unit.
#[derive(Clone, Copy, Debug, PartialEq, Eq, Structural)]
pub struct Scale {
    pub x: u32,
    pub y: u32,
}

/// The affine map from world space to the screen. A world point `(x, y)` in
/// millionths is sent to `(xx * x + xy * y) / UNIT + tx` and
/// `(yx * x + yy * y) / UNIT + ty`, in millionths of a pixel from the centre
/// of the viewport.
#[derive(Clone, Copy, Debug, PartialEq, Eq, Structural)]
pub struct ViewMatrix {
    pub xx: i64,
    pub xy: i64,
    pub yx: i64,
    pub yy: i64,
    pub tx: i64,
    pub ty: i64,
}

/// The camera of the viewport.
#[derive(Clone, Copy, Debug, PartialEq, Eq, Structural)]
pub struct Camera {
    /// The world point shown at the centre of the viewport.
    pub position: WorldVector,
    /// Pixels per world unit along each screen axis; never zero.
    pub scale: Scale,
    /// The rotation, in millionths of a degree.
    pub rotation: i32,
}

impl ScreenPoint {
    /// The displacement that leads from `origin` to this point.
    pub open spec fn delta_from(self, origin: ScreenPoint) -> ScreenDelta {
        ScreenDelta { dx: (self.x - origin.x) as i64, dy: (self.y - origin.y) as i64 }
    }

    /// The displacement that leads from `origin` to this point.
    pub fn offset_from(&self, origin: &ScreenPoint) -> (d: ScreenDelta)
        ensures
            d == self.delta_from(*origin),
    {
        ScreenDelta { dx: self.x as i64 - origin.x as i64, dy: self.y as i64 - origin.y as i64 }
    }
}

impl WorldVector {
    /// This vector less `other`, component by component, saturating at the
    /// limits of `i64`.
    pub open spec fn minus(self, other: WorldVector) -> WorldVector {
        WorldVector {
            x: saturate(self.x - other.x) as i64,
            y: saturate(self.y - other.y) as i64,
        }
    }

    /// This vector less `other`, component by component, saturating at the
    /// limits of `i64`.
    pub fn saturating_sub(&self, other: &WorldVector) -> (r: WorldVector)
        ensures
            r == self.minus(*other),
    {
        WorldVector {
            x: saturate_to_i64(self.x as i128 - other.x as i128),
            y: saturate_to_i64(self.y as i128 - other.y as i128),
        }
    }
}

/// A screen length of `d` pixels as a world length in millionths, seen at a
/// scale of `s` millionths.
pub open spec fn unscaled(d: int, s: int) -> int {
    trunc_div(d * UNIT * UNIT, s)
}

/// The vector `(vx, vy)` turned back by the angle whose sine and cosine, in
/// millionths, are `sin` and `cos`.
pub open spec fn turned_back(vx: int, vy: int, sin: int, cos: int) -> (int, int) {
    (trunc_div(cos * vx + sin * vy, UNIT as int), trunc_div(cos * vy - sin * vx, UNIT as int))
}

impl Camera {
    /// A camera is well formed when neither component of its scale is zero.
    pub open spec fn wf(self) -> bool {
        self.scale.x > 0 && self.scale.y > 0
    }

    /// The world displacement that the screen displacement `delta` stands
    /// for: `delta` divided by the scale, axis by axis, then turned back by
    /// the rotation, each component saturating at the limits of `i64`.
    pub open spec fn world_delta(self, delta: ScreenDelta) -> WorldVector {
        let (sin, cos) = sine_cosine(self.rotation as int);
        let ux = unscaled(delta.dx as int, self.scale.x as int);
        let uy = unscaled(delta.dy as int, self.scale.y as int);
        let (wx, wy) = turned_back(ux, uy, sin, cos);
        WorldVector { x: saturate(wx) as i64, y: saturate(wy) as i64 }
    }

    /// The transform from world space to the screen: the rotation followed
    /// by the scale, applied to the offset from the camera's position.
    pub open spec fn view_matrix(self) -> ViewMatrix {
        let (sin, cos) = sine_cosine(self.rotation as int);
        let xx = trunc_div(self.scale.x * cos, UNIT as int);
        let xy = trunc_div(-(self.scale.x * sin), UNIT as int);
        let yx = trunc_div(self.scale.y * sin, UNIT as int);
        let yy = trunc_div(self.scale.y * cos, UNIT as int);
        let tx = trunc_div(-(xx * self.position.x + xy * self.position.y), UNIT as int);
        let ty = trunc_div(-(yx * self.position.x + yy * self.position.y), UNIT as int);
        ViewMatrix {
            xx: xx as i64,
            xy: xy as i64,
            yx: yx as i64,
            yy: yy as i64,
            tx: saturate(tx) as i64,
            ty: saturate(ty) as i64,
        }
    }

    /// Whether the camera is well formed.
    pub fn is_well_formed(&self) -> (ok: bool)
        ensures
            ok == self.wf(),
    {
        self.scale.x > 0 && self.scale.y > 0
    }

    /// A camera at `position` with the given scale and rotation, or nothing
    /// where a component of the scale is zero.
    pub fn new(position: WorldVector, scale: Scale, rotation: i32) -> (camera: Option<Camera>)
        ensures
            camera == if scale.x > 0 && scale.y > 0 {
                Some(Camera { position, scale, rotation })
            } else {
                None
            },
            camera matches Some(c) ==> c.wf(),
    {
        if scale.x > 0 && scale.y > 0 {
            Some(Camera { position, scale, rotation })
        } else {
            None
        }
    }

    /// Builds the transform from world space to the screen out of the
    /// camera's position, scale and rotation.
    pub fn to_view_matrix(&self) -> (m: ViewMatrix)
        ensures
            m == self.view_matrix(),
    {
        let (sin, cos) = sin_cos(self.rotation);
        let sx: i128 = self.scale.x as i128;
        let sy: i128 = self.scale.y as i128;
        let px: i128 = self.position.x as i128;
        let py: i128 = self.position.y as i128;
        proof {
            lemma_product_bound(sx as int, cos as int, 0x1_0000_0000, UNIT as int);
            lemma_product_bound(sx as int, sin as int, 0x1_0000_0000, UNIT as int);
            lemma_product_bound(sy as int, cos as int, 0x1_0000_0000, UNIT as int);
            lemma_product_bound(sy as int, sin as int, 0x1_0000_0000, UNIT as int);
        }
        let xx: i128 = div_toward_zero(sx * cos as i128, UNIT as i128);
        let xy: i128 = div_toward_zero(-(sx * sin as i128), UNIT as i128);
        let yx: i128 = div_toward_zero(sy * sin as i128, UNIT as i128);
        let yy: i128 = div_toward_zero(sy * cos as i128, UNIT as i128);
        proof {
            let m: int = 0x1_0000_0000 * UNIT;
            lemma_trunc_div_bound(sx * cos, UNIT as int, m);
            lemma_trunc_div_bound(-(sx * sin), UNIT as int, m);
            lemma_trunc_div_bound(sy * sin, UNIT as int, m);
            lemma_trunc_div_bound(sy * cos, UNIT as int, m);
            let w: int = 0x8000_0000_0000_0000;
            lemma_product_bound(xx as int, px as int, m, w);
            lemma_product_bound(xy as int, py as int, m, w);
            lemma_product_bound(yx as int, px as int, m, w);
            lemma_product_bound(yy as int, py as int, m, w);
        }
        let tx: i128 = div_toward_zero(-(xx * px + xy * py), UNIT as i128);
        let ty: i128 = div_toward_zero(-(yx * px + yy * py), UNIT as i128);
        ViewMatrix {
            xx: xx as i64,
            xy: xy as i64,
            yx: yx as i64,
            yy: yy as i64,
            tx: saturate_to_i64(tx),
            ty: saturate_to_i64(ty),
        }
    }

    /// Converts a displacement on the screen into the world displacement it
    /// stands for under the camera's scale and rotation.
    ///
    /// The transform is the same all over the screen, so the size of the
    /// viewport does not enter the result.
    pub fn screen_delta_to_world(&self, delta: ScreenDelta, viewport: Viewport) -> (w: WorldVector)
        requires
            self.wf(),
        ensures
            w == self.world_delta(delta),
    {
        let (sin, cos) = sin_cos(self.rotation);
        let square: i128 = UNIT as i128 * UNIT as i128;
        let limit: Ghost<int> = Ghost(0x8000_0000_0000_0000 * (UNIT * UNIT));
        proof {
            lemma_product_bound(delta.dx as int, UNIT * UNIT, 0x8000_0000_0000_0000, UNIT * UNIT);
            lemma_product_bound(delta.dy as int, UNIT * UNIT, 0x8000_0000_0000_0000, UNIT * UNIT);
            assert(delta.dx * UNIT * UNIT == delta.dx * (UNIT * UNIT)) by (nonlinear_arith);
            assert(delta.dy * UNIT * UNIT == delta.dy * (UNIT * UNIT)) by (nonlinear_arith);
        }
        let ux: i128 = div_toward_zero(delta.dx as i128 * square, self.scale.x as i128);
        let uy: i128 = div_toward_zero(delta.dy as i128 * square, self.scale.y as i128);
        proof {
            lemma_trunc_div_bound(delta.dx * UNIT * UNIT, self.scale.x as int, limit@);
            lemma_trunc_div_bound(delta.dy * UNIT * UNIT, self.scale.y as int, limit@);
            lemma_product_bound(cos as int, ux as int, UNIT as int, limit@);
            lemma_product_bound(sin as int, uy as int, UNIT as int, limit@);
            lemma_product_bound(cos as int, uy as int, UNIT as int, limit@);
            lemma_product_bound(sin as int, ux as int, UNIT as int, limit@);
        }
        let wx: i128 = div_toward_zero(cos as i128 * ux + sin as i128 * uy, UNIT as i128);
        let wy: i128 = div_toward_zero(cos as i128 * uy - sin as i128 * ux, UNIT as i128);
        WorldVector { x: saturate_to_i64(wx), y: saturate_to_i64(wy) }
    }
}

/// Without rotation a screen displacement becomes a world displacement by
/// division through the scale alone, axis by axis.
pub proof fn lemma_world_delta_unrotated(camera: Camera, delta: ScreenDelta)
    requires
        camera.wf(),
        camera.rotation == 0,
    ensures
        camera.world_delta(delta) == (WorldVector {
            x: saturate(unscaled(delta.dx as int, camera.scale.x as int)) as i64,
            y: saturate(unscaled(delta.dy as int, camera.scale.y as int)) as i64,
        }),
{
    lemma_sine_cosine_on_axes();
    let ux = unscaled(delta.dx as int, camera.scale.x as int);
    let uy = unscaled(delta.dy as int, camera.scale.y as int);
    assert(UNIT * ux + 0 * uy == ux * UNIT) by (nonlinear_arith);
    assert(UNIT * uy - 0 * ux == uy * UNIT) by (nonlinear_arith);
    lemma_trunc_div_exact(ux, UNIT as int);
    lemma_trunc_div_exact(uy, UNIT as int);
}

/// A multiple of the divisor is divided without remainder.
proof fn lemma_trunc_div_exact(q: int, b: int)
    by (nonlinear_arith)
    requires
        b > 0,
    ensures
        trunc_div(q * b, b) == q,
{
}

/// A screen displacement of nothing stands for a world displacement of
/// nothing, whatever the scale and the rotation.
pub proof fn lemma_world_delta_of_nothing(camera: Camera)
    requires
        camera.wf(),
    ensures
        camera.world_delta(ScreenDelta { dx: 0, dy: 0 }) == (WorldVector { x: 0, y: 0 }),
{
    lemma_sine_cosine_bounded(camera.rotation as int);
    let (sin, cos) = sine_cosine(camera.rotation as int);
    assert(0 * UNIT * UNIT == 0);
    assert(unscaled(0, camera.scale.x as int) == 0);
    assert(unscaled(0, camera.scale.y as int) == 0);
    assert(cos * 0 + sin * 0 == 0) by (nonlinear_arith);
    assert(cos * 0 - sin * 0 == 0) by (nonlinear_arith);
}

} // verus!
