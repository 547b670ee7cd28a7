use vstd::prelude::*;
use crate::color::{fill_transparent, Color, FillColor};
use crate::draw::{
    centered_spec, centered_transform, compose_spec, identity_spec, make_rect_cmd, rect_cmd_spec,
    DrawBuffer, DrawCommand, Transform,
};
use crate::geometry::{corners_wf, Corners, Sides, UiRect, Vec2};
use crate::image::{registry_wf, ImageHandle, ImageRegistry};
use crate::layout::{
    align_offset, align_offset_spec, compute_size, cross_of, frac_apply, frac_scale, main_of,
    pad_cross_start, pad_cross_sum, pad_main_start, pad_main_sum, resolve_size, to_xy, Alignment,
    Alignment2d, Direction, Frac, Size, Size2d,
};
use crate::num::{clip, clip0, clip0_i64, clip_add, clip_add3, div_nn, fits, mul_wide, COORD_LIMIT};

verus! {

/// A flex-like box: stacks its children along `direction`, `gap` pixels
/// apart, inside `padding`, aligning them in the leftover space; optionally
/// paints a background behind them.
pub struct Container {
    pub size: Size2d,
    pub direction: Direction,
    pub gap: i64,
    pub padding: Sides,
    pub align: Alignment2d,
    pub background: FillColor,
    pub corner_radius: Corners<i64>,
    pub children: Vec<Element>,
}

/// A leaf filled with a solid color or gradient.
pub struct Rect {
    pub size: Size2d,
    pub color: FillColor,
    pub corner_radius: Corners<i64>,
}

/// A leaf that draws a registered image, tinted by `color`.
///
/// - With one axis `Auto`, the image scales to the other axis, preserving
///   its aspect ratio.
/// - With both axes `Auto`, the image keeps its intrinsic pixel size.
/// - All other sizes resolve as usual.
pub struct Image {
    pub image: ImageHandle,
    pub size: Size2d,
    pub color: FillColor,
    pub corner_radius: Corners<i64>,
}

/// A leaf showing a fractional value as a filled track.
pub struct ProgressBar {
    pub size: Size2d,
    pub value: Frac,
    pub color_background: FillColor,
    pub color_foreground: FillColor,
    pub corner_radius: Corners<i64>,
}

/// Wraps exactly one child and applies an affine transform around the center
/// of the child's bounding box. The transform is visual only: it never
/// perturbs sibling layout.
pub struct Transformer {
    pub transform: Transform,
    pub element: Box<Element>,
}

/// One node of the per-frame element tree.
pub enum Element {
    Container(Container),
    Rect(Rect),
    Image(Image),
    ProgressBar(ProgressBar),
    Transformer(Transformer),
}

/// A well-formed element over a given image registry: every stored pixel
/// value in range, every fraction in `[0, 1]`, every image handle
/// registered.
pub open spec fn elem_ok(el: Element, reg: Seq<(i64, i64)>) -> bool
    decreases el, 0int, 0int,
{
    match el {
        Element::Container(c) => {
            &&& c.size.wf()
            &&& 0 <= c.gap <= COORD_LIMIT as int
            &&& c.padding.wf()
            &&& corners_wf(c.corner_radius)
            &&& elems_ok(c.children@, 0, reg)
        },
        Element::Rect(r) => r.size.wf() && corners_wf(r.corner_radius),
        Element::Image(im) => im.size.wf() && corners_wf(im.corner_radius) && im.image.index
            < reg.len(),
        Element::ProgressBar(p) => p.size.wf() && p.value.wf() && corners_wf(p.corner_radius),
        Element::Transformer(t) => t.transform.wf() && elem_ok(*t.element, reg),
    }
}

/// All elements from index `i` on are well-formed.
pub open spec fn elems_ok(els: Seq<Element>, i: int, reg: Seq<(i64, i64)>) -> bool
    decreases els, 1int, els.len() - i,
{
    i >= els.len() || (0 <= i && elem_ok(els[i], reg) && elems_ok(els, i + 1, reg))
}

pub proof fn lemma_elems_ok_index(els: Seq<Element>, i: int, j: int, reg: Seq<(i64, i64)>)
    requires
        elems_ok(els, i, reg),
        i <= j < els.len(),
    ensures
        elem_ok(els[j], reg),
    decreases j - i,
{
    if i < j {
        lemma_elems_ok_index(els, i + 1, j, reg);
    }
}

/// The main-axis component of a 2D size.
pub open spec fn size_main(s: Size2d, d: Direction) -> Size {
    if d is Horizontal {
        s.width
    } else {
        s.height
    }
}

/// The cross-axis component of a 2D size.
pub open spec fn size_cross(s: Size2d, d: Direction) -> Size {
    if d is Horizontal {
        s.height
    } else {
        s.width
    }
}

/// Machine-word sizes seen as mathematical pairs.
pub open spec fn map_sizes(v: Seq<(i64, i64)>) -> Seq<(int, int)> {
    v.map_values(|p: (i64, i64)| (p.0 as int, p.1 as int))
}

/// The measured `(main, cross)` size of each child from index `i` on.
/// Each child is measured against the space remaining on the main axis after
/// its earlier siblings (and the gaps after them) have claimed their share,
/// and against the full cross-axis space.
pub open spec fn child_sizes_spec(
    els: Seq<Element>,
    i: int,
    remaining: int,
    cross_avail: int,
    gap: int,
    dir: Direction,
    reg: Seq<(i64, i64)>,
) -> Seq<(int, int)>
    decreases els, 1int, els.len() - i,
{
    if i < 0 || i >= els.len() {
        Seq::empty()
    } else {
        let avail = to_xy(dir, remaining, cross_avail);
        let s = measure_spec(els[i], avail.0, avail.1, reg);
        let m = main_of(dir, s.0, s.1);
        let c = cross_of(dir, s.0, s.1);
        seq![(m, c)] + child_sizes_spec(
            els,
            i + 1,
            clip0(remaining - m - gap),
            cross_avail,
            gap,
            dir,
            reg,
        )
    }
}

/// The main-axis extent of the first `i` stacked sizes: their sum plus one
/// `gap` between each consecutive pair.
pub open spec fn stack_sum_to(sizes: Seq<(int, int)>, gap: int, i: int) -> int
    decreases i,
{
    if i <= 0 {
        0
    } else {
        stack_sum_to(sizes, gap, i - 1) + sizes[i - 1].0 + if i - 1 > 0 {
            gap
        } else {
            0
        }
    }
}

/// The largest cross-axis extent among the first `i` sizes.
pub open spec fn cross_max_to(sizes: Seq<(int, int)>, i: int) -> int
    decreases i,
{
    if i <= 0 {
        0
    } else {
        let rest = cross_max_to(sizes, i - 1);
        if sizes[i - 1].1 > rest {
            sizes[i - 1].1
        } else {
            rest
        }
    }
}

pub proof fn lemma_stack_sum_nonneg(sizes: Seq<(int, int)>, gap: int, i: int)
    requires
        0 <= gap,
        forall|j: int| 0 <= j < sizes.len() ==> 0 <= (#[trigger] sizes[j]).0,
        i <= sizes.len(),
    ensures
        0 <= stack_sum_to(sizes, gap, i),
    decreases i,
{
    if i > 0 {
        lemma_stack_sum_nonneg(sizes, gap, i - 1);
    }
}

/// The desired size of an element, given `(aw, ah)` pixels of available
/// space and the image registry contents. A pure query: measuring emits
/// nothing and moves nothing.
pub open spec fn measure_spec(el: Element, aw: int, ah: int, reg: Seq<(i64, i64)>) -> (int, int)
    decreases el, 0int, 0int,
{
    match el {
        Element::Rect(r) => (
            clip0(resolve_size(r.size.width, aw, 0)),
            clip0(resolve_size(r.size.height, ah, 0)),
        ),
        Element::ProgressBar(p) => (
            clip0(resolve_size(p.size.width, aw, 0)),
            clip0(resolve_size(p.size.height, ah, 0)),
        ),
        Element::Image(im) => {
            let iw = clip0(reg[im.image.index as int].0 as int);
            let ih = clip0(reg[im.image.index as int].1 as int);
            match (im.size.width, im.size.height) {
                (Size::Auto, Size::Auto) => (iw, ih),
                (Size::Auto, hsz) => {
                    let hres = clip0(resolve_size(hsz, ah, ih));
                    let wres = if ih == 0 {
                        0
                    } else {
                        clip0(hres * iw / ih)
                    };
                    (wres, hres)
                },
                (wsz, Size::Auto) => {
                    let wres = clip0(resolve_size(wsz, aw, iw));
                    let hres = if iw == 0 {
                        0
                    } else {
                        clip0(wres * ih / iw)
                    };
                    (wres, hres)
                },
                (wsz, hsz) => (
                    clip0(resolve_size(wsz, aw, iw)),
                    clip0(resolve_size(hsz, ah, ih)),
                ),
            }
        },
        Element::Transformer(t) => measure_spec(*t.element, aw, ah, reg),
        Element::Container(c) => {
            let am = main_of(c.direction, aw, ah);
            let ac = cross_of(c.direction, aw, ah);
            let inner_m = clip0(am - pad_main_sum(c.padding, c.direction));
            let inner_c = clip0(ac - pad_cross_sum(c.padding, c.direction));
            let sizes = child_sizes_spec(
                c.children@,
                0,
                inner_m,
                inner_c,
                c.gap as int,
                c.direction,
                reg,
            );
            let content_m = clip0(stack_sum_to(sizes, c.gap as int, sizes.len() as int));
            let content_c = cross_max_to(sizes, sizes.len() as int);
            let auto_m = clip0(content_m + pad_main_sum(c.padding, c.direction));
            let auto_c = clip0(content_c + pad_cross_sum(c.padding, c.direction));
            let own_m = resolve_size(size_main(c.size, c.direction), am, auto_m);
            let own_c = resolve_size(size_cross(c.size, c.direction), ac, auto_c);
            let xy = to_xy(c.direction, own_m, own_c);
            (clip0(xy.0), clip0(xy.1))
        },
    }
}

/// Measured sizes always land in `[0, COORD_LIMIT]` on both axes.
pub proof fn lemma_measure_bounds(el: Element, aw: int, ah: int, reg: Seq<(i64, i64)>)
    ensures
        0 <= measure_spec(el, aw, ah, reg).0 <= COORD_LIMIT as int,
        0 <= measure_spec(el, aw, ah, reg).1 <= COORD_LIMIT as int,
    decreases el, 0int, 0int,
{
    match el {
        Element::Transformer(t) => {
            lemma_measure_bounds(*t.element, aw, ah, reg);
        },
        _ => {},
    }
}

/// Child sizes are one per child from `i` on, each in range.
pub proof fn lemma_child_sizes_props(
    els: Seq<Element>,
    i: int,
    remaining: int,
    cross_avail: int,
    gap: int,
    dir: Direction,
    reg: Seq<(i64, i64)>,
)
    ensures
        ({
            let s = child_sizes_spec(els, i, remaining, cross_avail, gap, dir, reg);
            &&& s.len() == if 0 <= i <= els.len() {
                els.len() - i
            } else {
                0int
            }
            &&& forall|j: int|
                0 <= j < s.len() ==> (0 <= (#[trigger] s[j]).0 <= COORD_LIMIT as int && 0 <= s[j].1
                    <= COORD_LIMIT as int)
        }),
    decreases els, 1int, els.len() - i,
{
    if 0 <= i < els.len() {
        let avail = to_xy(dir, remaining, cross_avail);
        lemma_measure_bounds(els[i], avail.0, avail.1, reg);
        let s = measure_spec(els[i], avail.0, avail.1, reg);
        let m = main_of(dir, s.0, s.1);
        lemma_child_sizes_props(
            els,
            i + 1,
            clip0(remaining - m - gap),
            cross_avail,
            gap,
            dir,
            reg,
        );
    }
}

/// Measures each child of a container in declaration order, handing every
/// child the main-axis space its earlier siblings left over.
fn measure_children(
    els: &Vec<Element>,
    remaining0: i64,
    cross_avail: i64,
    gap: i64,
    dir: Direction,
    reg: &ImageRegistry,
) -> (r: Vec<(i64, i64)>)
    requires
        elems_ok(els@, 0, reg@),
        registry_wf(reg@),
        0 <= remaining0 <= COORD_LIMIT,
        0 <= cross_avail <= COORD_LIMIT,
        0 <= gap <= COORD_LIMIT,
    ensures
        map_sizes(r@) == child_sizes_spec(
            els@,
            0,
            remaining0 as int,
            cross_avail as int,
            gap as int,
            dir,
            reg@,
        ),
        r@.len() == els@.len(),
        forall|j: int|
            0 <= j < r@.len() ==> (0 <= (#[trigger] r@[j]).0 <= COORD_LIMIT && 0 <= r@[j].1
                <= COORD_LIMIT),
    decreases els@, 1int, 0int,
{
    let n = els.len();
    let mut out: Vec<(i64, i64)> = Vec::new();
    let mut remaining = remaining0;
    let mut i: usize = 0;
    while i < n
        invariant
            n == els@.len(),
            out@.len() == i,
            0 <= i <= n,
            0 <= remaining <= COORD_LIMIT,
            0 <= cross_avail <= COORD_LIMIT,
            0 <= gap <= COORD_LIMIT,
            elems_ok(els@, 0, reg@),
            registry_wf(reg@),
            forall|j: int|
                0 <= j < out@.len() ==> (0 <= (#[trigger] out@[j]).0 <= COORD_LIMIT && 0
                    <= out@[j].1 <= COORD_LIMIT),
            map_sizes(out@) + child_sizes_spec(
                els@,
                i as int,
                remaining as int,
                cross_avail as int,
                gap as int,
                dir,
                reg@,
            ) == child_sizes_spec(
                els@,
                0,
                remaining0 as int,
                cross_avail as int,
                gap as int,
                dir,
                reg@,
            ),
        decreases n - i,
    {
        proof {
            lemma_elems_ok_index(els@, 0, i as int, reg@);
        }
        let ghost prev_out = out@;
        let ghost prev_rem = remaining as int;
        let avail = match dir {
            Direction::Horizontal => Vec2 { x: remaining, y: cross_avail },
            Direction::Vertical => Vec2 { x: cross_avail, y: remaining },
        };
        let s = measure(&els[i], avail, reg);
        let (m, cc) = match dir {
            Direction::Horizontal => (s.x, s.y),
            Direction::Vertical => (s.y, s.x),
        };
        out.push((m, cc));
        remaining = clip0_i64(remaining - m - gap);
        i += 1;
        proof {
            let rest = child_sizes_spec(
                els@,
                i as int,
                remaining as int,
                cross_avail as int,
                gap as int,
                dir,
                reg@,
            );
            assert(map_sizes(out@) =~= map_sizes(prev_out).push((m as int, cc as int)));
            assert(child_sizes_spec(
                els@,
                i as int - 1,
                prev_rem,
                cross_avail as int,
                gap as int,
                dir,
                reg@,
            ) == seq![(m as int, cc as int)] + rest);
            assert(map_sizes(prev_out) + (seq![(m as int, cc as int)] + rest) =~= map_sizes(out@)
                + rest);
        }
    }
    proof {
        assert(map_sizes(out@) + Seq::<(int, int)>::empty() =~= map_sizes(out@));
    }
    out
}

/// Folds measured child sizes into the container's content extent: the
/// stacked (gap-separated, saturating) main-axis extent and the largest
/// cross-axis extent.
fn content_extents(ms: &Vec<(i64, i64)>, gap: i64) -> (r: (i64, i64))
    requires
        0 <= gap <= COORD_LIMIT,
        forall|j: int|
            0 <= j < ms@.len() ==> (0 <= (#[trigger] ms@[j]).0 <= COORD_LIMIT && 0 <= ms@[j].1
                <= COORD_LIMIT),
    ensures
        r.0 as int == clip0(stack_sum_to(map_sizes(ms@), gap as int, ms@.len() as int)),
        r.1 as int == cross_max_to(map_sizes(ms@), ms@.len() as int),
        0 <= r.0 <= COORD_LIMIT,
        0 <= r.1 <= COORD_LIMIT,
{
    let n = ms.len();
    let mut acc: i64 = 0;
    let mut cmax: i64 = 0;
    let mut i: usize = 0;
    while i < n
        invariant
            n == ms@.len(),
            0 <= i <= n,
            0 <= gap <= COORD_LIMIT,
            forall|j: int|
                0 <= j < ms@.len() ==> (0 <= (#[trigger] ms@[j]).0 <= COORD_LIMIT && 0 <= ms@[j].1
                    <= COORD_LIMIT),
            acc as int == clip0(stack_sum_to(map_sizes(ms@), gap as int, i as int)),
            cmax as int == cross_max_to(map_sizes(ms@), i as int),
            0 <= acc <= COORD_LIMIT,
            0 <= cmax <= COORD_LIMIT,
        decreases n - i,
    {
        let (m, c) = ms[i];
        proof {
            lemma_stack_sum_nonneg(map_sizes(ms@), gap as int, i as int);
        }
        if i > 0 {
            acc = clip0_i64(acc + m + gap);
        } else {
            acc = clip0_i64(acc + m);
        }
        if c > cmax {
            cmax = c;
        }
        i += 1;
    }
    (acc, cmax)
}

/// Computes the element's desired size against the available space. A pure
/// query: no draw command is emitted and no position is assigned.
pub fn measure(el: &Element, avail: Vec2, reg: &ImageRegistry) -> (r: Vec2)
    requires
        elem_ok(*el, reg@),
        registry_wf(reg@),
        avail.wf_extent(),
    ensures
        r.x as int == measure_spec(*el, avail.x as int, avail.y as int, reg@).0,
        r.y as int == measure_spec(*el, avail.x as int, avail.y as int, reg@).1,
        r.wf_extent(),
    decreases *el, 0int, 0int,
{
    match el {
        Element::Rect(r_) => {
            let w = compute_size(r_.size.width, avail.x, 0);
            let h = compute_size(r_.size.height, avail.y, 0);
            Vec2 { x: w, y: h }
        },
        Element::ProgressBar(p) => {
            let w = compute_size(p.size.width, avail.x, 0);
            let h = compute_size(p.size.height, avail.y, 0);
            Vec2 { x: w, y: h }
        },
        Element::Image(im) => {
            let dims = reg.get_size(im.image);
            let (iw, ih) = match dims {
                Some(d) => d,
                None => {
                    proof {
                        assert(false);
                    }
                    (0, 0)
                },
            };
            match (im.size.width, im.size.height) {
                (Size::Auto, Size::Auto) => Vec2 { x: iw, y: ih },
                (Size::Auto, hsz) => {
                    let hres = compute_size(hsz, avail.y, ih);
                    let wres = if ih == 0 {
                        0
                    } else {
                        clip0_i64(div_nn(mul_wide(hres, iw), ih))
                    };
                    Vec2 { x: wres, y: hres }
                },
                (wsz, Size::Auto) => {
                    let wres = compute_size(wsz, avail.x, iw);
                    let hres = if iw == 0 {
                        0
                    } else {
                        clip0_i64(div_nn(mul_wide(wres, ih), iw))
                    };
                    Vec2 { x: wres, y: hres }
                },
                (wsz, hsz) => {
                    let w = compute_size(wsz, avail.x, iw);
                    let h = compute_size(hsz, avail.y, ih);
                    Vec2 { x: w, y: h }
                },
            }
        },
        Element::Transformer(t) => measure(&t.element, avail, reg),
        Element::Container(c) => {
            let dir = c.direction;
            let am = match dir {
                Direction::Horizontal => avail.x,
                Direction::Vertical => avail.y,
            };
            let ac = match dir {
                Direction::Horizontal => avail.y,
                Direction::Vertical => avail.x,
            };
            let pad_m = match dir {
                Direction::Horizontal => c.padding.left + c.padding.right,
                Direction::Vertical => c.padding.top + c.padding.bottom,
            };
            let pad_c = match dir {
                Direction::Horizontal => c.padding.top + c.padding.bottom,
                Direction::Vertical => c.padding.left + c.padding.right,
            };
            let inner_m = clip0_i64(am - pad_m);
            let inner_c = clip0_i64(ac - pad_c);
            let msizes = measure_children(&c.children, inner_m, inner_c, c.gap, dir, reg);
            let (content_m, content_c) = content_extents(&msizes, c.gap);
            let auto_m = clip0_i64(content_m + pad_m);
            let auto_c = clip0_i64(content_c + pad_c);
            let own_m = match dir {
                Direction::Horizontal => compute_size(c.size.width, am, auto_m),
                Direction::Vertical => compute_size(c.size.height, am, auto_m),
            };
            let own_c = match dir {
                Direction::Horizontal => compute_size(c.size.height, ac, auto_c),
                Direction::Vertical => compute_size(c.size.width, ac, auto_c),
            };
            match dir {
                Direction::Horizontal => Vec2 { x: own_m, y: own_c },
                Direction::Vertical => Vec2 { x: own_c, y: own_m },
            }
        },
    }
}

/// The main-axis extent of a progress bar's foreground: its value applied to
/// the track extent.
pub open spec fn progress_fg_extent(value: Frac, track: int) -> int {
    clip0(frac_scale(value.raw as int, clip0(track)))
}

/// The background command a container emits, if any: one rectangle covering
/// its whole final rectangle, painted before (so behind) its children.
pub open spec fn container_bg(c: Container, x: int, y: int, w: int, h: int) -> Seq<DrawCommand> {
    if fill_transparent(c.background) {
        Seq::empty()
    } else {
        seq![rect_cmd_spec(x, y, w, h, c.background, None, c.corner_radius)]
    }
}

/// Every draw command an element emits when processed with the final
/// rectangle `(x, y, w, h)`, in paint order. Processing depends only on the
/// element, its rectangle and the registry, so repeating it emits the same
/// commands.
pub open spec fn draw_spec(el: Element, x: int, y: int, w: int, h: int, reg: Seq<(i64, i64)>) -> Seq<
    DrawCommand,
>
    decreases el, 0int, 0int,
{
    match el {
        Element::Rect(r) => {
            if fill_transparent(r.color) {
                Seq::empty()
            } else {
                seq![rect_cmd_spec(x, y, w, h, r.color, None, r.corner_radius)]
            }
        },
        Element::Image(im) => {
            if fill_transparent(im.color) {
                Seq::empty()
            } else {
                seq![rect_cmd_spec(x, y, w, h, im.color, Some(im.image), im.corner_radius)]
            }
        },
        Element::ProgressBar(p) => {
            seq![
                rect_cmd_spec(x, y, w, h, p.color_background, None, p.corner_radius),
                rect_cmd_spec(
                    x,
                    y,
                    progress_fg_extent(p.value, w),
                    h,
                    p.color_foreground,
                    None,
                    p.corner_radius,
                ),
            ]
        },
        Element::Transformer(t) => {
            seq![DrawCommand::PushTransform(centered_spec(t.transform, x, y, w, h))] + draw_spec(
                *t.element,
                x,
                y,
                w,
                h,
                reg,
            ) + seq![DrawCommand::PopTransform]
        },
        Element::Container(c) => {
            let pm = main_of(c.direction, x, y);
            let pc = cross_of(c.direction, x, y);
            let sm = main_of(c.direction, w, h);
            let sc = cross_of(c.direction, w, h);
            let inner_m = clip0(sm - pad_main_sum(c.padding, c.direction));
            let inner_c = clip0(sc - pad_cross_sum(c.padding, c.direction));
            let sizes = child_sizes_spec(
                c.children@,
                0,
                inner_m,
                inner_c,
                c.gap as int,
                c.direction,
                reg,
            );
            let content_m = clip0(stack_sum_to(sizes, c.gap as int, sizes.len() as int));
            let leftover = clip0(inner_m - content_m);
            let start = clip(
                pm + pad_main_start(c.padding, c.direction) + align_offset_spec(
                    c.align.main,
                    leftover,
                ),
            );
            let crossbase = clip(pc + pad_cross_start(c.padding, c.direction));
            container_bg(c, x, y, w, h) + draw_children_spec(
                c.children@,
                sizes,
                0,
                start,
                crossbase,
                inner_c,
                c.align.cross,
                c.gap as int,
                c.direction,
                reg,
            )
        },
    }
}

/// The commands the children from index `i` on emit: each child is placed at
/// the running main-axis cursor, aligned in the leftover cross-axis space,
/// and the cursor advances by the child's extent plus the gap.
pub open spec fn draw_children_spec(
    els: Seq<Element>,
    sizes: Seq<(int, int)>,
    i: int,
    cursor: int,
    crossbase: int,
    inner_cross: int,
    calign: Alignment,
    gap: int,
    dir: Direction,
    reg: Seq<(i64, i64)>,
) -> Seq<DrawCommand>
    decreases els, 1int, els.len() - i,
{
    if i < 0 || i >= els.len() || sizes.len() != els.len() {
        Seq::empty()
    } else {
        let m = sizes[i].0;
        let cc = sizes[i].1;
        let crosspos = clip(crossbase + align_offset_spec(calign, clip0(inner_cross - cc)));
        let pos = to_xy(dir, cursor, crosspos);
        let sz = to_xy(dir, m, cc);
        draw_spec(els[i], pos.0, pos.1, sz.0, sz.1, reg) + draw_children_spec(
            els,
            sizes,
            i + 1,
            clip(cursor + m + gap),
            crossbase,
            inner_cross,
            calign,
            gap,
            dir,
            reg,
        )
    }
}

/// Assigns the element its final rectangle, emits its draw commands into the
/// buffer, and recurses into its children with their own rectangles. Appends
/// exactly `draw_spec` of its inputs: nothing already in the buffer moves.
pub fn process(el: &Element, rect: UiRect, reg: &ImageRegistry, buf: &mut DrawBuffer)
    requires
        elem_ok(*el, reg@),
        registry_wf(reg@),
        rect.wf(),
    ensures
        final(buf)@ == old(buf)@ + draw_spec(
            *el,
            rect.position.x as int,
            rect.position.y as int,
            rect.size.x as int,
            rect.size.y as int,
            reg@,
        ),
    decreases *el, 0int, 0int,
{
    let x = rect.position.x;
    let y = rect.position.y;
    let w = rect.size.x;
    let h = rect.size.y;
    match el {
        Element::Rect(r_) => {
            if !r_.color.is_transparent() {
                let cmd = make_rect_cmd(x, y, w, h, &r_.color, None, &r_.corner_radius);
                buf.add(cmd);
                proof {
                    assert(old(buf)@.push(cmd) =~= old(buf)@ + seq![cmd]);
                }
            } else {
                proof {
                    assert(old(buf)@ + Seq::<DrawCommand>::empty() =~= old(buf)@);
                }
            }
        },
        Element::Image(im) => {
            if !im.color.is_transparent() {
                let cmd = make_rect_cmd(x, y, w, h, &im.color, Some(im.image), &im.corner_radius);
                buf.add(cmd);
                proof {
                    assert(old(buf)@.push(cmd) =~= old(buf)@ + seq![cmd]);
                }
            } else {
                proof {
                    assert(old(buf)@ + Seq::<DrawCommand>::empty() =~= old(buf)@);
                }
            }
        },
        Element::ProgressBar(p) => {
            let track = make_rect_cmd(x, y, w, h, &p.color_background, None, &p.corner_radius);
            buf.add(track);
            let fg_w = frac_apply(p.value, clip0_i64(w));
            let fg = make_rect_cmd(x, y, fg_w, h, &p.color_foreground, None, &p.corner_radius);
            buf.add(fg);
            proof {
                assert(old(buf)@.push(track).push(fg) =~= old(buf)@ + seq![track, fg]);
            }
        },
        Element::Transformer(t) => {
            let tr = centered_transform(&t.transform, x, y, w, h);
            buf.add(DrawCommand::PushTransform(tr));
            proof {
                assert(old(buf)@.push(DrawCommand::PushTransform(tr)) =~= old(buf)@ + seq![
                    DrawCommand::PushTransform(tr),
                ]);
            }
            process(&t.element, rect, reg, buf);
            let ghost child_cmds = draw_spec(*t.element, x as int, y as int, w as int, h as int, reg@);
            buf.add(DrawCommand::PopTransform);
            proof {
                assert((old(buf)@ + seq![DrawCommand::PushTransform(tr)] + child_cmds).push(
                    DrawCommand::PopTransform,
                ) =~= old(buf)@ + (seq![DrawCommand::PushTransform(tr)] + child_cmds + seq![
                    DrawCommand::PopTransform,
                ]));
            }
        },
        Element::Container(c) => {
            let dir = c.direction;
            let pm = match dir {
                Direction::Horizontal => x,
                Direction::Vertical => y,
            };
            let pc = match dir {
                Direction::Horizontal => y,
                Direction::Vertical => x,
            };
            let sm = match dir {
                Direction::Horizontal => w,
                Direction::Vertical => h,
            };
            let sc = match dir {
                Direction::Horizontal => h,
                Direction::Vertical => w,
            };
            let pad_m = match dir {
                Direction::Horizontal => c.padding.left + c.padding.right,
                Direction::Vertical => c.padding.top + c.padding.bottom,
            };
            let pad_c = match dir {
                Direction::Horizontal => c.padding.top + c.padding.bottom,
                Direction::Vertical => c.padding.left + c.padding.right,
            };
            let pad_ms = match dir {
                Direction::Horizontal => c.padding.left,
                Direction::Vertical => c.padding.top,
            };
            let pad_cs = match dir {
                Direction::Horizontal => c.padding.top,
                Direction::Vertical => c.padding.left,
            };
            let inner_m = clip0_i64(sm - pad_m);
            let inner_c = clip0_i64(sc - pad_c);
            let msizes = measure_children(&c.children, inner_m, inner_c, c.gap, dir, reg);
            let (content_m, _content_c) = content_extents(&msizes, c.gap);
            let ghost sizes = child_sizes_spec(
                c.children@,
                0,
                inner_m as int,
                inner_c as int,
                c.gap as int,
                dir,
                reg@,
            );
            let ghost bg = container_bg(
                *c,
                x as int,
                y as int,
                w as int,
                h as int,
            );
            if !c.background.is_transparent() {
                let cmd = make_rect_cmd(x, y, w, h, &c.background, None, &c.corner_radius);
                buf.add(cmd);
                proof {
                    assert(old(buf)@.push(cmd) =~= old(buf)@ + bg);
                }
            } else {
                proof {
                    assert(old(buf)@ + bg =~= old(buf)@);
                }
            }
            let leftover = clip0_i64(inner_m - content_m);
            let start = clip_add3(pm, pad_ms, align_offset(c.align.main, leftover));
            let crossbase = clip_add(pc, pad_cs);
            process_children(
                &c.children,
                &msizes,
                start,
                crossbase,
                inner_c,
                c.align.cross,
                c.gap,
                dir,
                reg,
                buf,
            );
            proof {
                assert((old(buf)@ + bg) + draw_children_spec(
                    c.children@,
                    sizes,
                    0,
                    start as int,
                    crossbase as int,
                    inner_c as int,
                    c.align.cross,
                    c.gap as int,
                    dir,
                    reg@,
                ) =~= old(buf)@ + (bg + draw_children_spec(
                    c.children@,
                    sizes,
                    0,
                    start as int,
                    crossbase as int,
                    inner_c as int,
                    c.align.cross,
                    c.gap as int,
                    dir,
                    reg@,
                )));
            }
        },
    }
}

/// Walks a container's children once in declaration order, placing each at
/// the running main-axis cursor and processing it there.
fn process_children(
    els: &Vec<Element>,
    msizes: &Vec<(i64, i64)>,
    start: i64,
    crossbase: i64,
    inner_c: i64,
    calign: Alignment,
    gap: i64,
    dir: Direction,
    reg: &ImageRegistry,
    buf: &mut DrawBuffer,
) -> (r: ())
    requires
        elems_ok(els@, 0, reg@),
        registry_wf(reg@),
        fits(start as int),
        fits(crossbase as int),
        0 <= inner_c <= COORD_LIMIT,
        0 <= gap <= COORD_LIMIT,
        msizes@.len() == els@.len(),
        forall|j: int|
            0 <= j < msizes@.len() ==> (0 <= (#[trigger] msizes@[j]).0 <= COORD_LIMIT && 0
                <= msizes@[j].1 <= COORD_LIMIT),
    ensures
        final(buf)@ == old(buf)@ + draw_children_spec(
            els@,
            map_sizes(msizes@),
            0,
            start as int,
            crossbase as int,
            inner_c as int,
            calign,
            gap as int,
            dir,
            reg@,
        ),
    decreases els@, 1int, 0int,
{
    let ghost sizes = map_sizes(msizes@);
    let n = els.len();
    let mut cursor = start;
    let mut i: usize = 0;
    while i < n
        invariant
            n == els@.len(),
            0 <= i <= n,
            fits(cursor as int),
            fits(crossbase as int),
            0 <= inner_c <= COORD_LIMIT,
            0 <= gap <= COORD_LIMIT,
            elems_ok(els@, 0, reg@),
            registry_wf(reg@),
            msizes@.len() == n,
            forall|j: int|
                0 <= j < msizes@.len() ==> (0 <= (#[trigger] msizes@[j]).0 <= COORD_LIMIT && 0
                    <= msizes@[j].1 <= COORD_LIMIT),
            sizes == map_sizes(msizes@),
            old(buf)@ + draw_children_spec(
                els@,
                sizes,
                0,
                start as int,
                crossbase as int,
                inner_c as int,
                calign,
                gap as int,
                dir,
                reg@,
            ) == buf@ + draw_children_spec(
                els@,
                sizes,
                i as int,
                cursor as int,
                crossbase as int,
                inner_c as int,
                calign,
                gap as int,
                dir,
                reg@,
            ),
        decreases n - i,
    {
        proof {
            lemma_elems_ok_index(els@, 0, i as int, reg@);
        }
        let ghost pre_buf = buf@;
        let ghost pre_cursor = cursor as int;
        let (m, cc) = msizes[i];
        let crosspos = clip_add(crossbase, align_offset(calign, clip0_i64(inner_c - cc)));
        let child_rect = match dir {
            Direction::Horizontal => UiRect {
                position: Vec2 { x: cursor, y: crosspos },
                size: Vec2 { x: m, y: cc },
            },
            Direction::Vertical => UiRect {
                position: Vec2 { x: crosspos, y: cursor },
                size: Vec2 { x: cc, y: m },
            },
        };
        process(&els[i], child_rect, reg, buf);
        cursor = clip_add3(cursor, m, gap);
        i += 1;
        proof {
            let child_cmds = draw_spec(
                els@[i as int - 1],
                child_rect.position.x as int,
                child_rect.position.y as int,
                child_rect.size.x as int,
                child_rect.size.y as int,
                reg@,
            );
            let rest = draw_children_spec(
                els@,
                sizes,
                i as int,
                cursor as int,
                crossbase as int,
                inner_c as int,
                calign,
                gap as int,
                dir,
                reg@,
            );
            assert(draw_children_spec(
                els@,
                sizes,
                i as int - 1,
                pre_cursor,
                crossbase as int,
                inner_c as int,
                calign,
                gap as int,
                dir,
                reg@,
            ) == child_cmds + rest);
            assert(pre_buf + (child_cmds + rest) =~= (pre_buf + child_cmds) + rest);
        }
    }
    proof {
        assert(buf@ + Seq::<DrawCommand>::empty() =~= buf@);
    }
}

impl Image {
    /// A new image element: intrinsic size, neutral (white) tint, square
    /// corners.
    pub fn new(handle: ImageHandle) -> (r: Image)
        ensures
            r.image == handle,
            r.size.width is Auto,
            r.size.height is Auto,
            r.color.corners == (crate::geometry::Corners::<Color> {
                top_left: Color { r: 255u8, g: 255u8, b: 255u8, a: 255u8 },
                top_right: Color { r: 255u8, g: 255u8, b: 255u8, a: 255u8 },
                bottom_left: Color { r: 255u8, g: 255u8, b: 255u8, a: 255u8 },
                bottom_right: Color { r: 255u8, g: 255u8, b: 255u8, a: 255u8 },
            }),
            r.corner_radius == (crate::geometry::Corners::<i64> {
                top_left: 0i64,
                top_right: 0i64,
                bottom_left: 0i64,
                bottom_right: 0i64,
            }),
    {
        Image {
            image: handle,
            size: Size2d::auto(),
            color: FillColor::solid(Color::white()),
            corner_radius: Corners::all(0),
        }
    }

    pub fn with_size(self, size: Size2d) -> (r: Image)
        ensures
            r.size == size,
            r.image == self.image,
            r.color == self.color,
            r.corner_radius == self.corner_radius,
    {
        Image { size, ..self }
    }

    pub fn with_color(self, color: FillColor) -> (r: Image)
        ensures
            r.color == color,
            r.image == self.image,
            r.size == self.size,
            r.corner_radius == self.corner_radius,
    {
        Image { color, ..self }
    }

    pub fn with_corner_radius(self, corner_radius: Corners<i64>) -> (r: Image)
        ensures
            r.corner_radius == corner_radius,
            r.image == self.image,
            r.size == self.size,
            r.color == self.color,
    {
        Image { corner_radius, ..self }
    }
}

impl Transformer {
    /// Wraps an element with the identity transform.
    pub fn new(element: Box<Element>) -> (r: Transformer)
        ensures
            r.transform == identity_spec(),
            r.element == element,
    {
        Transformer { transform: Transform::identity(), element }
    }

    /// Composes a translation by `v` pixels onto the wrapped transform.
    pub fn translate(self, v: Vec2) -> (r: Transformer)
        requires
            self.transform.wf(),
            v.wf(),
        ensures
            r.transform == compose_spec(
                self.transform,
                (Transform { m00: crate::num::FRAC_ONE, m01: 0, m10: 0, m11: crate::num::FRAC_ONE, tx: v.x, ty: v.y }),
            ),
            r.element == self.element,
    {
        let t = self.transform.compose(&Transform::from_translation(v.x, v.y));
        Transformer { transform: t, element: self.element }
    }

    /// Composes a scale by fixed-point factors onto the wrapped transform.
    pub fn scale(self, sx: i64, sy: i64) -> (r: Transformer)
        requires
            self.transform.wf(),
            fits(sx as int),
            fits(sy as int),
        ensures
            r.transform == compose_spec(
                self.transform,
                (Transform { m00: sx, m01: 0, m10: 0, m11: sy, tx: 0, ty: 0 }),
            ),
            r.element == self.element,
    {
        let t = self.transform.compose(&Transform::from_scale(sx, sy));
        Transformer { transform: t, element: self.element }
    }

    /// Composes a rotation, given by the fixed-point cosine and sine of its
    /// angle, onto the wrapped transform.
    pub fn rotate(self, cos: i64, sin: i64) -> (r: Transformer)
        requires
            self.transform.wf(),
            fits(cos as int),
            fits(sin as int),
        ensures
            r.transform == compose_spec(
                self.transform,
                (Transform { m00: cos, m01: -(sin as int) as i64, m10: sin, m11: cos, tx: 0, ty: 0 }),
            ),
            r.element == self.element,
    {
        let t = self.transform.compose(&Transform::from_rotation(cos, sin));
        Transformer { transform: t, element: self.element }
    }
}

/// Wrapping any element in a `Transformer`, to apply translation, rotation
/// or scaling around the center of its bounding box.
pub trait ElementTransformExt: Sized {
    fn transform(self) -> Transformer;
}

impl ElementTransformExt for Element {
    fn transform(self) -> Transformer {
        Transformer::new(Box::new(self))
    }
}

} // verus!
