use vstd::prelude::*;
use crate::draw::{centered_spec, compose_spec, identity_spec, DrawCommand, Transform};
use crate::element::{
    draw_spec, progress_fg_extent, stack_sum_to, Element, Transformer,
};
use crate::layout::{
    align_offset_spec, frac_scale, mirror_alignment, resolve_size, Alignment, Frac, Size,
};
use crate::num::{clip, clip0, fits, tdiv, COORD_LIMIT, FRAC_ONE};

verus! {

/// A fixed size resolves to its own pixel value whatever space is available
/// and whatever intrinsic extent the caller would substitute for `Auto`.
pub proof fn lemma_static_size_unconditional(px: i64, a1: int, auto1: int, a2: int, auto2: int)
    ensures
        resolve_size(Size::Static(px), a1, auto1) == px as int,
        resolve_size(Size::Static(px), a2, auto2) == px as int,
{
}

/// Fractional sizing is monotonic: no smaller a share of no less space
/// resolves to no fewer pixels.
pub proof fn lemma_fraction_monotonic(f1: Frac, f2: Frac, a1: int, a2: int)
    requires
        f1.wf(),
        f2.wf(),
        f1.raw <= f2.raw,
        0 <= a1 <= a2,
    ensures
        frac_scale(f1.raw as int, a1) <= frac_scale(f2.raw as int, a2),
{
    assert(f1.raw as int * a1 <= f2.raw as int * a2) by (nonlinear_arith)
        requires
            0 <= f1.raw as int <= f2.raw as int,
            0 <= a1 <= a2,
    ;
    vstd::arithmetic::div_mod::lemma_div_is_ordered(
        f1.raw as int * a1,
        f2.raw as int * a2,
        FRAC_ONE as int,
    );
}

/// The plain sum of the first `i` main-axis extents.
pub open spec fn sum_mains(sizes: Seq<(int, int)>, i: int) -> int
    decreases i,
{
    if i <= 0 {
        0
    } else {
        sum_mains(sizes, i - 1) + sizes[i - 1].0
    }
}

proof fn lemma_stack_sum_closed(sizes: Seq<(int, int)>, gap: int, i: int)
    requires
        1 <= i,
    ensures
        stack_sum_to(sizes, gap, i) == sum_mains(sizes, i) + gap * (i - 1),
    decreases i,
{
    if i == 1 {
        reveal_with_fuel(stack_sum_to, 2);
        reveal_with_fuel(sum_mains, 2);
        assert(gap * 0 == 0) by (nonlinear_arith);
    } else {
        lemma_stack_sum_closed(sizes, gap, i - 1);
        assert(gap * (i - 1) == gap * (i - 2) + gap) by (nonlinear_arith);
    }
}

proof fn lemma_sum_mains_nonneg(sizes: Seq<(int, int)>, i: int)
    requires
        forall|j: int| 0 <= j < sizes.len() ==> 0 <= (#[trigger] sizes[j]).0,
        i <= sizes.len(),
    ensures
        0 <= sum_mains(sizes, i),
    decreases i,
{
    if i > 0 {
        lemma_sum_mains_nonneg(sizes, i - 1);
    }
}

/// A container's main-axis content extent: with children of main sizes
/// `s_1 .. s_n` and gap `g`, the stacked extent is `s_1 + .. + s_n` plus
/// `g * (n - 1)` (one gap between each consecutive pair, none after the
/// last); with no children it is zero whatever the gap. Stated up to the
/// engine's saturation bound, below which the stacked extent is exact.
pub proof fn lemma_container_main_extent(sizes: Seq<(int, int)>, gap: int)
    requires
        0 <= gap,
        forall|j: int| 0 <= j < sizes.len() ==> 0 <= (#[trigger] sizes[j]).0,
    ensures
        clip0(stack_sum_to(sizes, gap, 0)) == 0,
        sizes.len() > 0 && sum_mains(sizes, sizes.len() as int) + gap * (sizes.len() - 1)
            <= COORD_LIMIT as int ==> clip0(stack_sum_to(sizes, gap, sizes.len() as int))
            == sum_mains(sizes, sizes.len() as int) + gap * (sizes.len() - 1),
{
    if sizes.len() > 0 {
        lemma_stack_sum_closed(sizes, gap, sizes.len() as int);
        lemma_sum_mains_nonneg(sizes, sizes.len() as int);
        assert(0 <= gap * (sizes.len() - 1)) by (nonlinear_arith)
            requires
                0 <= gap,
                1 <= sizes.len(),
        ;
    }
}

/// Alignment mirrors cleanly: swapping `Begin` and `End` and measuring the
/// offset from the far edge instead gives the same placement, and `Center`
/// is its own mirror image. For `Center` this holds whenever the leftover
/// space splits evenly (an odd leftover loses its spare pixel to the far
/// side).
pub proof fn lemma_alignment_mirror(a: Alignment, leftover: int)
    requires
        0 <= leftover,
        a is Center ==> leftover % 2 == 0,
    ensures
        align_offset_spec(mirror_alignment(a), leftover) == leftover - align_offset_spec(
            a,
            leftover,
        ),
{
    if a is Center {
        vstd::arithmetic::div_mod::lemma_fundamental_div_mod(leftover, 2);
    }
}

/// Processing is idempotent: two runs over the same element, the same final
/// rectangle and the same registry contents append identical command
/// sequences, whatever each buffer already held.
pub proof fn lemma_process_idempotent(
    el: Element,
    x: int,
    y: int,
    w: int,
    h: int,
    reg: Seq<(i64, i64)>,
    before1: Seq<DrawCommand>,
    after1: Seq<DrawCommand>,
    before2: Seq<DrawCommand>,
    after2: Seq<DrawCommand>,
)
    requires
        after1 == before1 + draw_spec(el, x, y, w, h, reg),
        after2 == before2 + draw_spec(el, x, y, w, h, reg),
    ensures
        after1.skip(before1.len() as int) == after2.skip(before2.len() as int),
{
    assert(after1.skip(before1.len() as int) =~= draw_spec(el, x, y, w, h, reg));
    assert(after2.skip(before2.len() as int) =~= draw_spec(el, x, y, w, h, reg));
}

/// A progress bar's foreground spans none of the track at value zero and all
/// of it at value one.
pub proof fn lemma_progress_extremes(value: Frac, track: int)
    requires
        value.wf(),
        0 <= track <= COORD_LIMIT as int,
    ensures
        value.raw == 0 ==> progress_fg_extent(value, track) == 0,
        value.raw == FRAC_ONE ==> progress_fg_extent(value, track) == track,
{
    if value.raw == 0 {
        assert(0int * track == 0) by (nonlinear_arith);
        vstd::arithmetic::div_mod::lemma_div_basics_1(FRAC_ONE as int);
    }
    if value.raw == FRAC_ONE {
        vstd::arithmetic::div_mod::lemma_div_multiples_vanish(track, FRAC_ONE as int);
    }
}

/// `(FRAC_ONE * v) / FRAC_ONE == v`, also under truncating division.
proof fn lemma_tdiv_multiple(v: int)
    ensures
        tdiv(FRAC_ONE as int * v, FRAC_ONE as int) == v,
{
    if v >= 0 {
        vstd::arithmetic::div_mod::lemma_div_multiples_vanish(v, FRAC_ONE as int);
    } else {
        vstd::arithmetic::div_mod::lemma_div_multiples_vanish(-v, FRAC_ONE as int);
        assert(FRAC_ONE as int * -v == -(FRAC_ONE as int * v)) by (nonlinear_arith);
    }
}

/// Conjugating the identity transform with the to-center and from-center
/// translations cancels exactly: the pivot changes nothing when nothing is
/// applied around it.
pub proof fn lemma_centered_identity(x: int, y: int, w: int, h: int)
    ensures
        centered_spec(identity_spec(), x, y, w, h) == identity_spec(),
{
    let s = FRAC_ONE as int;
    let cx = center_coord(x, w);
    let cy = center_coord(y, h);
    assert(fits(cx) && fits(cy));
    lemma_tdiv_multiple(-cx);
    lemma_tdiv_multiple(-cy);
    lemma_tdiv_multiple(cx);
    lemma_tdiv_multiple(cy);
    lemma_tdiv_multiple(s);
    lemma_tdiv_multiple(0);
    let back = Transform {
        m00: FRAC_ONE,
        m01: 0,
        m10: 0,
        m11: FRAC_ONE,
        tx: -cx as i64,
        ty: -cy as i64,
    };
    let fwd = Transform { m00: FRAC_ONE, m01: 0, m10: 0, m11: FRAC_ONE, tx: cx as i64, ty: cy as i64 };
    assert(back.tx as int == -cx && back.ty as int == -cy);
    let inner = compose_spec(identity_spec(), back);
    assert(identity_spec().m00 as int * back.m00 as int + identity_spec().m01 as int
        * back.m10 as int == s * s);
    assert(tdiv(s * s, s) == s);
    assert(inner.m00 as int == clip(tdiv(s * s, s)));
    assert(inner.m00 == FRAC_ONE);
    assert(inner.m01 == 0 && inner.m10 == 0 && inner.m11 == FRAC_ONE);
    assert(identity_spec().m00 as int * back.tx as int + identity_spec().m01 as int
        * back.ty as int == s * -cx);
    assert(tdiv(s * -cx, s) == -cx);
    assert(inner.tx as int == clip(-cx + 0));
    assert(inner.tx as int == -cx && inner.ty as int == -cy);
    let outer = compose_spec(fwd, inner);
    assert(fwd.m00 as int * inner.tx as int + fwd.m01 as int * inner.ty as int == s * -cx);
    assert(outer.tx as int == clip(tdiv(s * -cx, s) + cx));
    assert(outer.tx == 0 && outer.ty == 0);
    assert(outer.m00 == FRAC_ONE && outer.m01 == 0 && outer.m10 == 0 && outer.m11 == FRAC_ONE);
    assert(centered_spec(identity_spec(), x, y, w, h) == outer);
}

/// The center coordinate the engine pivots on, one axis at a time.
pub open spec fn center_coord(p: int, extent: int) -> int {
    crate::num::clip(p + tdiv(extent, 2))
}

/// A `Transformer` carrying the identity transform brackets exactly its
/// child's own commands between a push of the identity and a pop: the child
/// is processed with the same, untransformed rectangle.
pub proof fn lemma_transformer_identity(
    child: Box<Element>,
    x: int,
    y: int,
    w: int,
    h: int,
    reg: Seq<(i64, i64)>,
)
    ensures
        draw_spec(
            Element::Transformer(Transformer { transform: identity_spec(), element: child }),
            x,
            y,
            w,
            h,
            reg,
        ) == seq![DrawCommand::PushTransform(identity_spec())] + draw_spec(*child, x, y, w, h, reg)
            + seq![DrawCommand::PopTransform],
{
    lemma_centered_identity(x, y, w, h);
}

} // verus!
