use vstd::prelude::*;
use crate::geometry::Sides;
use crate::num::{div_nn, mul_wide, COORD_LIMIT, FRAC_ONE};

verus! {

/// A fraction of available space, in units of `1/FRAC_ONE`. `FRAC_ONE`
/// stands for the whole of the available space.
#[derive(Clone, Copy, Debug, PartialEq, Eq, Structural)]
pub struct Frac {
    pub raw: i64,
}

impl Frac {
    /// A fraction lies in `[0, 1]`.
    pub open spec fn wf(self) -> bool {
        0 <= self.raw <= FRAC_ONE as int
    }

    /// Clamps into `[0, 1]`: out-of-range input is clamped, never rejected.
    pub fn new(raw: i64) -> (r: Frac)
        ensures
            r.wf(),
            r.raw as int == if raw < 0 {
                0int
            } else if raw > FRAC_ONE {
                FRAC_ONE as int
            } else {
                raw as int
            },
    {
        if raw < 0 {
            Frac { raw: 0 }
        } else if raw > FRAC_ONE {
            Frac { raw: FRAC_ONE }
        } else {
            Frac { raw }
        }
    }

    pub fn zero() -> (r: Frac)
        ensures
            r.raw == 0,
            r.wf(),
    {
        Frac { raw: 0 }
    }

    pub fn one() -> (r: Frac)
        ensures
            r.raw == FRAC_ONE,
            r.wf(),
    {
        Frac { raw: FRAC_ONE }
    }
}

/// The resolved pixel extent of `Fraction(raw)` against `avail` pixels of
/// available space: `raw * avail` scaled back down by `FRAC_ONE`.
pub open spec fn frac_scale(raw: int, avail: int) -> int
    recommends
        0 <= raw,
        0 <= avail,
{
    raw * avail / (FRAC_ONE as int)
}

/// A fraction of a non-negative space is between zero and that space.
pub proof fn lemma_frac_scale_bounds(raw: int, avail: int)
    requires
        0 <= raw <= FRAC_ONE as int,
        0 <= avail,
    ensures
        0 <= frac_scale(raw, avail) <= avail,
{
    assert(0 <= raw * avail <= FRAC_ONE as int * avail) by (nonlinear_arith)
        requires
            0 <= raw <= FRAC_ONE as int,
            0 <= avail,
    ;
    vstd::arithmetic::div_mod::lemma_div_pos_is_pos(raw * avail, FRAC_ONE as int);
    vstd::arithmetic::div_mod::lemma_div_is_ordered(
        raw * avail,
        FRAC_ONE as int * avail,
        FRAC_ONE as int,
    );
    vstd::arithmetic::div_mod::lemma_div_multiples_vanish(avail, FRAC_ONE as int);
}

/// Applies a fraction to a non-negative available space.
pub fn frac_apply(f: Frac, avail: i64) -> (r: i64)
    requires
        f.wf(),
        0 <= avail <= COORD_LIMIT,
    ensures
        r as int == frac_scale(f.raw as int, avail as int),
        0 <= r <= avail,
{
    proof {
        lemma_frac_scale_bounds(f.raw as int, avail as int);
    }
    let p = mul_wide(f.raw, avail);
    div_nn(p, FRAC_ONE)
}

/// How one axis of an element is sized.
#[derive(Clone, Copy, Debug)]
pub enum Size {
    /// Content-driven: the element's intrinsic extent is used instead.
    Auto,
    /// A fixed extent in pixels.
    Static(i64),
    /// A share of the available space on this axis.
    Fraction(Frac),
}

impl Size {
    pub open spec fn wf(self) -> bool {
        match self {
            Size::Auto => true,
            Size::Static(px) => 0 <= px <= COORD_LIMIT as int,
            Size::Fraction(f) => f.wf(),
        }
    }
}

/// Width and height sizing, resolved independently.
#[derive(Clone, Copy, Debug)]
pub struct Size2d {
    pub width: Size,
    pub height: Size,
}

impl Size2d {
    pub open spec fn wf(self) -> bool {
        self.width.wf() && self.height.wf()
    }

    pub fn auto() -> (r: Size2d)
        ensures
            r.width is Auto,
            r.height is Auto,
    {
        Size2d { width: Size::Auto, height: Size::Auto }
    }
}

/// What `compute_size` returns: a fixed size is returned unconditionally, a
/// fraction scales the available space, and `Auto` falls back to the
/// caller-supplied intrinsic extent.
pub open spec fn resolve_size(s: Size, avail: int, auto_val: int) -> int {
    match s {
        Size::Auto => auto_val,
        Size::Static(px) => px as int,
        Size::Fraction(f) => frac_scale(f.raw as int, avail),
    }
}

/// Resolves one axis of a `Size` against the available space; `auto_val` is
/// the element's intrinsic extent, substituted when the axis is `Auto`.
pub fn compute_size(s: Size, avail: i64, auto_val: i64) -> (r: i64)
    requires
        s.wf(),
        0 <= avail <= COORD_LIMIT,
        0 <= auto_val <= COORD_LIMIT,
    ensures
        r as int == resolve_size(s, avail as int, auto_val as int),
        0 <= r <= COORD_LIMIT,
{
    match s {
        Size::Auto => auto_val,
        Size::Static(px) => px,
        Size::Fraction(f) => frac_apply(f, avail),
    }
}

/// The axis a container stacks its children along.
#[derive(Clone, Copy, Debug, PartialEq, Eq, Structural)]
pub enum Direction {
    Horizontal,
    Vertical,
}

/// Picks the main-axis component of an `(x, y)` pair.
pub open spec fn main_of(d: Direction, x: int, y: int) -> int {
    if d is Horizontal {
        x
    } else {
        y
    }
}

/// Picks the cross-axis component of an `(x, y)` pair.
pub open spec fn cross_of(d: Direction, x: int, y: int) -> int {
    if d is Horizontal {
        y
    } else {
        x
    }
}

/// Rebuilds an `(x, y)` pair from main- and cross-axis components.
pub open spec fn to_xy(d: Direction, main: int, cross: int) -> (int, int) {
    if d is Horizontal {
        (main, cross)
    } else {
        (cross, main)
    }
}

/// Total padding along the main axis.
pub open spec fn pad_main_sum(p: Sides, d: Direction) -> int {
    if d is Horizontal {
        p.left + p.right
    } else {
        p.top + p.bottom
    }
}

/// Padding before the first child along the main axis.
pub open spec fn pad_main_start(p: Sides, d: Direction) -> int {
    if d is Horizontal {
        p.left as int
    } else {
        p.top as int
    }
}

/// Total padding along the cross axis.
pub open spec fn pad_cross_sum(p: Sides, d: Direction) -> int {
    if d is Horizontal {
        p.top + p.bottom
    } else {
        p.left + p.right
    }
}

/// Padding before the content along the cross axis.
pub open spec fn pad_cross_start(p: Sides, d: Direction) -> int {
    if d is Horizontal {
        p.top as int
    } else {
        p.left as int
    }
}

/// Placement of children within leftover space, per axis.
#[derive(Clone, Copy, Debug, PartialEq, Eq, Structural)]
pub enum Alignment {
    Begin,
    Center,
    End,
}

/// Main- and cross-axis alignment of a container's children.
#[derive(Clone, Copy, Debug, PartialEq, Eq, Structural)]
pub struct Alignment2d {
    pub main: Alignment,
    pub cross: Alignment,
}

impl Alignment2d {
    pub fn new(main: Alignment, cross: Alignment) -> (r: Alignment2d)
        ensures
            r.main == main,
            r.cross == cross,
    {
        Alignment2d { main, cross }
    }
}

/// The offset from the near edge at which content of some extent is placed
/// inside `leftover` spare pixels: `Begin` hugs the near edge, `Center`
/// splits the spare space, `End` hugs the far edge.
pub open spec fn align_offset_spec(a: Alignment, leftover: int) -> int
    recommends
        0 <= leftover,
{
    match a {
        Alignment::Begin => 0,
        Alignment::Center => leftover / 2,
        Alignment::End => leftover,
    }
}

/// See `align_offset_spec`; spare space is never negative (oversized content
/// is clamped to the near edge by the caller).
pub fn align_offset(a: Alignment, leftover: i64) -> (r: i64)
    requires
        0 <= leftover <= COORD_LIMIT,
    ensures
        r as int == align_offset_spec(a, leftover as int),
        0 <= r <= leftover,
{
    match a {
        Alignment::Begin => 0,
        Alignment::Center => div_nn(leftover, 2),
        Alignment::End => leftover,
    }
}

/// Swaps `Begin` and `End`, the mirror image of an alignment.
pub open spec fn mirror_alignment(a: Alignment) -> Alignment {
    match a {
        Alignment::Begin => Alignment::End,
        Alignment::Center => Alignment::Center,
        Alignment::End => Alignment::Begin,
    }
}

} // verus!
