use vstd::prelude::*;
use crate::color::FillColor;
use crate::color::Color;
use crate::geometry::{corners_max, corners_max_spec, Corners, Vec2};
use crate::image::ImageHandle;
use crate::num::{clip, clip64, clip_add, clip_i64, div_trunc, fits, mul_wide, tdiv, FRAC_ONE};

verus! {

/// A 2D affine transform in fixed-point: a point `p` maps to `L p + t`,
/// where the linear entries `m..` carry `FRAC_ONE` as one and the
/// translation `tx, ty` is in whole pixels.
#[derive(Clone, Copy, Debug, PartialEq, Eq, Structural)]
pub struct Transform {
    pub m00: i64,
    pub m01: i64,
    pub m10: i64,
    pub m11: i64,
    pub tx: i64,
    pub ty: i64,
}

/// The identity transform.
pub open spec fn identity_spec() -> Transform {
    Transform { m00: FRAC_ONE, m01: 0, m10: 0, m11: FRAC_ONE, tx: 0, ty: 0 }
}

/// Composition `a ∘ b` (apply `b` first, then `a`), each entry computed in
/// fixed point and saturated into the engine's range.
pub open spec fn compose_spec(a: Transform, b: Transform) -> Transform {
    Transform {
        m00: clip64(tdiv(a.m00 * b.m00 + a.m01 * b.m10, FRAC_ONE as int)),
        m01: clip64(tdiv(a.m00 * b.m01 + a.m01 * b.m11, FRAC_ONE as int)),
        m10: clip64(tdiv(a.m10 * b.m00 + a.m11 * b.m10, FRAC_ONE as int)),
        m11: clip64(tdiv(a.m10 * b.m01 + a.m11 * b.m11, FRAC_ONE as int)),
        tx: clip64(tdiv(a.m00 * b.tx + a.m01 * b.ty, FRAC_ONE as int) + a.tx),
        ty: clip64(tdiv(a.m10 * b.tx + a.m11 * b.ty, FRAC_ONE as int) + a.ty),
    }
}

impl Transform {
    /// Every entry inside the engine's range.
    pub open spec fn wf(self) -> bool {
        &&& fits(self.m00 as int)
        &&& fits(self.m01 as int)
        &&& fits(self.m10 as int)
        &&& fits(self.m11 as int)
        &&& fits(self.tx as int)
        &&& fits(self.ty as int)
    }

    pub fn identity() -> (r: Transform)
        ensures
            r == identity_spec(),
            r.wf(),
    {
        Transform { m00: FRAC_ONE, m01: 0, m10: 0, m11: FRAC_ONE, tx: 0, ty: 0 }
    }

    /// A pure translation by `(x, y)` pixels.
    pub fn from_translation(x: i64, y: i64) -> (r: Transform)
        requires
            fits(x as int),
            fits(y as int),
        ensures
            r == (Transform { m00: FRAC_ONE, m01: 0, m10: 0, m11: FRAC_ONE, tx: x, ty: y }),
            r.wf(),
    {
        Transform { m00: FRAC_ONE, m01: 0, m10: 0, m11: FRAC_ONE, tx: x, ty: y }
    }

    /// A scale by fixed-point factors `(sx, sy)`.
    pub fn from_scale(sx: i64, sy: i64) -> (r: Transform)
        requires
            fits(sx as int),
            fits(sy as int),
        ensures
            r == (Transform { m00: sx, m01: 0, m10: 0, m11: sy, tx: 0, ty: 0 }),
            r.wf(),
    {
        Transform { m00: sx, m01: 0, m10: 0, m11: sy, tx: 0, ty: 0 }
    }

    /// A rotation given by the fixed-point cosine and sine of its angle.
    pub fn from_rotation(cos: i64, sin: i64) -> (r: Transform)
        requires
            fits(cos as int),
            fits(sin as int),
        ensures
            r == (Transform { m00: cos, m01: -(sin as int) as i64, m10: sin, m11: cos, tx: 0, ty: 0 }),
            r.wf(),
    {
        Transform { m00: cos, m01: -sin, m10: sin, m11: cos, tx: 0, ty: 0 }
    }

    /// Composes `self ∘ rhs`: the result applies `rhs` first.
    pub fn compose(&self, rhs: &Transform) -> (r: Transform)
        requires
            self.wf(),
            rhs.wf(),
        ensures
            r == compose_spec(*self, *rhs),
            r.wf(),
    {
        let m00 = clip_i64(div_trunc(mul_wide(self.m00, rhs.m00) + mul_wide(self.m01, rhs.m10), FRAC_ONE));
        let m01 = clip_i64(div_trunc(mul_wide(self.m00, rhs.m01) + mul_wide(self.m01, rhs.m11), FRAC_ONE));
        let m10 = clip_i64(div_trunc(mul_wide(self.m10, rhs.m00) + mul_wide(self.m11, rhs.m10), FRAC_ONE));
        let m11 = clip_i64(div_trunc(mul_wide(self.m10, rhs.m01) + mul_wide(self.m11, rhs.m11), FRAC_ONE));
        let px = div_trunc(mul_wide(self.m00, rhs.tx) + mul_wide(self.m01, rhs.ty), FRAC_ONE);
        let py = div_trunc(mul_wide(self.m10, rhs.tx) + mul_wide(self.m11, rhs.ty), FRAC_ONE);
        proof {
            lemma_tdiv_small(self.m00 as int * rhs.tx as int + self.m01 as int * rhs.ty as int);
            lemma_tdiv_small(self.m10 as int * rhs.tx as int + self.m11 as int * rhs.ty as int);
        }
        let tx = clip_i64(px + self.tx);
        let ty = clip_i64(py + self.ty);
        Transform { m00, m01, m10, m11, tx, ty }
    }
}

/// A truncating division by `FRAC_ONE` shrinks the magnitude enough that
/// adding one more coordinate cannot overflow the machine word.
proof fn lemma_tdiv_small(a: int)
    requires
        -0x2000_0000_0000_0000 <= a <= 0x2000_0000_0000_0000,
    ensures
        -0x2000_0000_0000_0000 <= tdiv(a, FRAC_ONE as int) <= 0x2000_0000_0000_0000,
{
    if a >= 0 {
        vstd::arithmetic::div_mod::lemma_div_nonincreasing(a, FRAC_ONE as int);
        vstd::arithmetic::div_mod::lemma_div_pos_is_pos(a, FRAC_ONE as int);
    } else {
        vstd::arithmetic::div_mod::lemma_div_nonincreasing(-a, FRAC_ONE as int);
        vstd::arithmetic::div_mod::lemma_div_pos_is_pos(-a, FRAC_ONE as int);
    }
}

/// The transform a `Transformer` wraps around its child: the wrapped
/// transform conjugated with translations to and from the center of the
/// child's final rectangle, so rotation and scale pivot on that center.
pub open spec fn centered_spec(t: Transform, x: int, y: int, w: int, h: int) -> Transform {
    let cx = clip(x + tdiv(w, 2));
    let cy = clip(y + tdiv(h, 2));
    compose_spec(
        Transform { m00: FRAC_ONE, m01: 0, m10: 0, m11: FRAC_ONE, tx: cx as i64, ty: cy as i64 },
        compose_spec(
            t,
            Transform {
                m00: FRAC_ONE,
                m01: 0,
                m10: 0,
                m11: FRAC_ONE,
                tx: -cx as i64,
                ty: -cy as i64,
            },
        ),
    )
}

/// Builds the center-pivoted transform for a child rectangle.
pub fn centered_transform(t: &Transform, x: i64, y: i64, w: i64, h: i64) -> (r: Transform)
    requires
        t.wf(),
        fits(x as int),
        fits(y as int),
        fits(w as int),
        fits(h as int),
    ensures
        r == centered_spec(*t, x as int, y as int, w as int, h as int),
{
    let cx = clip_add(x, div_trunc(w, 2));
    let cy = clip_add(y, div_trunc(h, 2));
    let to_center = Transform::from_translation(cx, cy);
    let from_center = Transform::from_translation(-cx, -cy);
    to_center.compose(&t.compose(&from_center))
}

/// One primitive drawing instruction, in paint order (back to front).
/// Transforms apply to every later command until popped: a stack discipline.
#[derive(Clone, Debug, PartialEq)]
pub enum DrawCommand {
    Rectangle {
        position: Vec2,
        size: Vec2,
        /// Solid when all four corners agree, a gradient otherwise.
        color: Corners<Color>,
        /// The image sampled over the rectangle, if any.
        texture: Option<ImageHandle>,
        /// Texture coordinates per corner; the full image when absent.
        texture_uv: Option<Corners<Vec2>>,
        /// Rounded-corner radii, when any corner is rounded.
        rounded_corners: Option<Corners<i64>>,
    },
    PushTransform(Transform),
    PopTransform,
}

/// The rectangle command the engine emits for a fill at `(x, y)` sized
/// `(w, h)`.
pub open spec fn rect_cmd_spec(
    x: int,
    y: int,
    w: int,
    h: int,
    fill: FillColor,
    texture: Option<ImageHandle>,
    radius: Corners<i64>,
) -> DrawCommand {
    DrawCommand::Rectangle {
        position: Vec2 { x: clip64(x), y: clip64(y) },
        size: Vec2 { x: clip64(w), y: clip64(h) },
        color: fill.corners,
        texture,
        texture_uv: None,
        rounded_corners: if corners_max_spec(radius) > 0 {
            Some(radius)
        } else {
            None
        },
    }
}

/// Builds the rectangle command for a fill.
pub fn make_rect_cmd(
    x: i64,
    y: i64,
    w: i64,
    h: i64,
    fill: &FillColor,
    texture: Option<ImageHandle>,
    radius: &Corners<i64>,
) -> (c: DrawCommand)
    ensures
        c == rect_cmd_spec(x as int, y as int, w as int, h as int, *fill, texture, *radius),
{
    DrawCommand::Rectangle {
        position: Vec2 { x: clip_i64(x), y: clip_i64(y) },
        size: Vec2 { x: clip_i64(w), y: clip_i64(h) },
        color: fill.corners,
        texture,
        texture_uv: None,
        rounded_corners: if corners_max(radius) > 0 {
            Some(*radius)
        } else {
            None
        },
    }
}

/// The append-only, ordered list of draw commands one frame produces. It is
/// cleared and rebuilt every frame; its order is the paint order.
#[derive(Debug)]
pub struct DrawBuffer {
    pub commands: Vec<DrawCommand>,
}

impl View for DrawBuffer {
    type V = Seq<DrawCommand>;

    open spec fn view(&self) -> Seq<DrawCommand> {
        self.commands@
    }
}

impl DrawBuffer {
    pub fn new() -> (r: DrawBuffer)
        ensures
            r@ == Seq::<DrawCommand>::empty(),
    {
        DrawBuffer { commands: Vec::new() }
    }

    /// Appends one command; nothing already emitted moves.
    pub fn add(&mut self, cmd: DrawCommand) -> (r: ())
        ensures
            final(self)@ == old(self)@.push(cmd),
    {
        self.commands.push(cmd);
    }

    /// Drops every command, ready for the next frame.
    pub fn clear(&mut self) -> (r: ())
        ensures
            final(self)@ == Seq::<DrawCommand>::empty(),
    {
        self.commands.clear();
    }

    pub fn len(&self) -> (r: usize)
        ensures
            r == self@.len(),
    {
        self.commands.len()
    }
}

} // verus!
