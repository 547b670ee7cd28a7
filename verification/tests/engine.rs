use hui::color::{Color, FillColor};
use hui::draw::{DrawBuffer, DrawCommand, Transform};
use hui::element::{Container, Element, ElementTransformExt, Image, ProgressBar, Rect, Transformer};
use hui::element::{measure, process};
use hui::geometry::{Corners, Sides, UiRect, Vec2};
use hui::image::{ImageHandle, ImageRegistry};
use hui::instance::{StateMap, UiInstance};
use hui::layout::{
    align_offset, compute_size, Alignment, Alignment2d, Direction, Frac, Size, Size2d,
};
use hui::num::{COORD_LIMIT, FRAC_ONE};

fn solid_red() -> FillColor {
    FillColor::solid(Color::rgba(255, 0, 0, 255))
}

fn plain_rect(w: i64, h: i64) -> Element {
    Element::Rect(Rect {
        size: Size2d {
            width: Size::Static(w),
            height: Size::Static(h),
        },
        color: solid_red(),
        corner_radius: Corners::all(0),
    })
}

fn simple_container(children: Vec<Element>) -> Container {
    Container {
        size: Size2d {
            width: Size::Auto,
            height: Size::Auto,
        },
        direction: Direction::Horizontal,
        gap: 0,
        padding: Sides::none(),
        align: Alignment2d::new(Alignment::Begin, Alignment::Begin),
        background: FillColor::none(),
        corner_radius: Corners::all(0),
        children,
    }
}

fn rect_at(cmd: &DrawCommand) -> (Vec2, Vec2) {
    match cmd {
        DrawCommand::Rectangle { position, size, .. } => (*position, *size),
        _ => panic!("expected a rectangle command"),
    }
}

#[test]
fn static_size_ignores_available_space() {
    assert_eq!(compute_size(Size::Static(42), 0, 0), 42);
    assert_eq!(compute_size(Size::Static(42), 1000, 7), 42);
}

#[test]
fn fraction_scales_available_space() {
    let half = Size::Fraction(Frac::new(FRAC_ONE / 2));
    assert_eq!(compute_size(half, 100, 0), 50);
    assert_eq!(compute_size(Size::Fraction(Frac::new(FRAC_ONE)), 300, 0), 300);
    assert_eq!(compute_size(Size::Fraction(Frac::new(0)), 300, 0), 0);
}

#[test]
fn fraction_is_monotonic_in_share_and_space() {
    let quarter = Size::Fraction(Frac::new(FRAC_ONE / 4));
    let half = Size::Fraction(Frac::new(FRAC_ONE / 2));
    let a = compute_size(quarter, 100, 0);
    let b = compute_size(half, 100, 0);
    let c = compute_size(half, 200, 0);
    assert!(a <= b && b <= c);
    assert_eq!((a, b, c), (25, 50, 100));
}

#[test]
fn auto_size_takes_the_intrinsic_value() {
    assert_eq!(compute_size(Size::Auto, 500, 123), 123);
}

#[test]
fn container_extent_sums_children_and_gaps() {
    let children = vec![plain_rect(10, 5), plain_rect(20, 7), plain_rect(30, 6)];
    let mut c = simple_container(children);
    c.gap = 4;
    let reg = ImageRegistry::new();
    let size = measure(
        &Element::Container(c),
        Vec2::new(1000, 1000),
        &reg,
    );
    // 10 + 4 + 20 + 4 + 30 on the main axis, the tallest child across.
    assert_eq!((size.x, size.y), (68, 7));
}

#[test]
fn empty_container_has_zero_extent_whatever_the_gap() {
    let mut c = simple_container(vec![]);
    c.gap = 999;
    let reg = ImageRegistry::new();
    let size = measure(&Element::Container(c), Vec2::new(100, 100), &reg);
    assert_eq!((size.x, size.y), (0, 0));
}

#[test]
fn alignment_offsets_and_mirror() {
    assert_eq!(align_offset(Alignment::Begin, 10), 0);
    assert_eq!(align_offset(Alignment::Center, 10), 5);
    assert_eq!(align_offset(Alignment::End, 10), 10);
    // Swapping Begin and End and measuring from the far edge agrees, and
    // Center is its own mirror image on an even leftover.
    let leftover: i64 = 10;
    assert_eq!(
        align_offset(Alignment::End, leftover),
        leftover - align_offset(Alignment::Begin, leftover)
    );
    assert_eq!(
        align_offset(Alignment::Center, leftover),
        leftover - align_offset(Alignment::Center, leftover)
    );
}

#[test]
fn process_is_idempotent() {
    let mut c = simple_container(vec![plain_rect(50, 50), plain_rect(50, 50)]);
    c.gap = 5;
    c.padding = Sides::all(5);
    c.background = solid_red();
    let el = Element::Container(c);
    let rect = UiRect::new(Vec2::new(0, 0), Vec2::new(120, 60));
    let reg = ImageRegistry::new();
    let mut buf1 = DrawBuffer::new();
    let mut buf2 = DrawBuffer::new();
    process(&el, rect, &reg, &mut buf1);
    process(&el, rect, &reg, &mut buf2);
    assert_eq!(buf1.commands, buf2.commands);
    // Appending to an already-filled buffer emits the same commands again.
    process(&el, rect, &reg, &mut buf1);
    let n = buf1.commands.len() / 2;
    assert_eq!(&buf1.commands[..n], &buf1.commands[n..]);
}

#[test]
fn horizontal_container_places_children_in_order() {
    // A horizontal container, gap 5, padding 5 on all sides, two 50x50
    // children, processed with the final rectangle (0, 0, 120, 60).
    let mut c = simple_container(vec![plain_rect(50, 50), plain_rect(50, 50)]);
    c.gap = 5;
    c.padding = Sides::all(5);
    let el = Element::Container(c);
    let reg = ImageRegistry::new();
    let mut buf = DrawBuffer::new();
    process(
        &el,
        UiRect::new(Vec2::new(0, 0), Vec2::new(120, 60)),
        &reg,
        &mut buf,
    );
    // No background, so exactly the two children's rectangles.
    assert_eq!(buf.commands.len(), 2);
    let (p1, s1) = rect_at(&buf.commands[0]);
    let (p2, s2) = rect_at(&buf.commands[1]);
    assert_eq!((p1.x, p1.y, s1.x, s1.y), (5, 5, 50, 50));
    assert_eq!((p2.x, p2.y, s2.x, s2.y), (60, 5, 50, 50));
}

#[test]
fn container_background_paints_behind_children() {
    let mut c = simple_container(vec![plain_rect(10, 10)]);
    c.background = FillColor::solid(Color::rgba(0, 0, 255, 255));
    let el = Element::Container(c);
    let reg = ImageRegistry::new();
    let mut buf = DrawBuffer::new();
    process(
        &el,
        UiRect::new(Vec2::new(3, 4), Vec2::new(40, 20)),
        &reg,
        &mut buf,
    );
    assert_eq!(buf.commands.len(), 2);
    let (bg_pos, bg_size) = rect_at(&buf.commands[0]);
    assert_eq!((bg_pos.x, bg_pos.y, bg_size.x, bg_size.y), (3, 4, 40, 20));
}

#[test]
fn cross_axis_center_alignment() {
    let mut c = simple_container(vec![plain_rect(20, 20)]);
    c.align = Alignment2d::new(Alignment::Begin, Alignment::Center);
    let el = Element::Container(c);
    let reg = ImageRegistry::new();
    let mut buf = DrawBuffer::new();
    process(
        &el,
        UiRect::new(Vec2::new(0, 0), Vec2::new(100, 60)),
        &reg,
        &mut buf,
    );
    let (p, _) = rect_at(&buf.commands[0]);
    assert_eq!((p.x, p.y), (0, 20));
}

#[test]
fn main_axis_end_alignment_shifts_the_start() {
    let mut c = simple_container(vec![plain_rect(20, 10), plain_rect(20, 10)]);
    c.gap = 10;
    c.align = Alignment2d::new(Alignment::End, Alignment::Begin);
    let el = Element::Container(c);
    let reg = ImageRegistry::new();
    let mut buf = DrawBuffer::new();
    process(
        &el,
        UiRect::new(Vec2::new(0, 0), Vec2::new(100, 10)),
        &reg,
        &mut buf,
    );
    // Content is 50 wide, leftover 50 goes before the first child.
    let (p1, _) = rect_at(&buf.commands[0]);
    let (p2, _) = rect_at(&buf.commands[1]);
    assert_eq!((p1.x, p2.x), (50, 80));
}

#[test]
fn progress_bar_foreground_tracks_value() {
    let reg = ImageRegistry::new();
    for (raw, expected) in [(0, 0), (FRAC_ONE / 2, 100), (FRAC_ONE, 200)] {
        let el = Element::ProgressBar(ProgressBar {
            size: Size2d {
                width: Size::Static(200),
                height: Size::Static(20),
            },
            value: Frac::new(raw),
            color_background: FillColor::solid(Color::rgba(20, 20, 20, 255)),
            color_foreground: FillColor::solid(Color::rgba(0, 255, 0, 255)),
            corner_radius: Corners::all(0),
        });
        let mut buf = DrawBuffer::new();
        process(
            &el,
            UiRect::new(Vec2::new(0, 0), Vec2::new(200, 20)),
            &reg,
            &mut buf,
        );
        assert_eq!(buf.commands.len(), 2);
        let (tp, ts) = rect_at(&buf.commands[0]);
        let (fp, fs) = rect_at(&buf.commands[1]);
        assert_eq!((tp.x, tp.y, ts.x, ts.y), (0, 0, 200, 20));
        assert_eq!((fp.x, fp.y), (0, 0), "foreground shares the track origin");
        assert_eq!((fs.x, fs.y), (expected, 20));
    }
}

#[test]
fn progress_value_out_of_range_is_clamped() {
    // One and a half is clamped to one...
    assert_eq!(Frac::new(FRAC_ONE + FRAC_ONE / 2).raw, FRAC_ONE);
    // ...and a negative value to zero.
    assert_eq!(Frac::new(-3).raw, 0);
}

#[test]
fn transformer_with_identity_brackets_the_child() {
    let child = plain_rect(30, 30);
    let mut buf_plain = DrawBuffer::new();
    let reg = ImageRegistry::new();
    let rect = UiRect::new(Vec2::new(7, 9), Vec2::new(30, 30));
    process(&child, rect, &reg, &mut buf_plain);

    let wrapped = Element::Transformer(plain_rect(30, 30).transform());
    let mut buf = DrawBuffer::new();
    process(&wrapped, rect, &reg, &mut buf);

    assert_eq!(buf.commands.len(), buf_plain.commands.len() + 2);
    assert_eq!(
        buf.commands[0],
        DrawCommand::PushTransform(Transform::identity())
    );
    assert_eq!(&buf.commands[1..buf.commands.len() - 1], &buf_plain.commands[..]);
    assert_eq!(buf.commands[buf.commands.len() - 1], DrawCommand::PopTransform);
}

#[test]
fn transformer_builders_compose() {
    let t = Transformer::new(Box::new(plain_rect(1, 1))).translate(Vec2::new(5, 7));
    assert_eq!((t.transform.tx, t.transform.ty), (5, 7));
    assert_eq!((t.transform.m00, t.transform.m11), (FRAC_ONE, FRAC_ONE));
    let s = Transformer::new(Box::new(plain_rect(1, 1))).scale(2 * FRAC_ONE, 3 * FRAC_ONE);
    assert_eq!((s.transform.m00, s.transform.m11), (2 * FRAC_ONE, 3 * FRAC_ONE));
    // A quarter turn: cosine zero, sine one.
    let r = Transformer::new(Box::new(plain_rect(1, 1))).rotate(0, FRAC_ONE);
    assert_eq!(
        (r.transform.m00, r.transform.m01, r.transform.m10, r.transform.m11),
        (0, -FRAC_ONE, FRAC_ONE, 0)
    );
}

#[test]
fn image_aspect_ratio_is_preserved() {
    let mut reg = ImageRegistry::new();
    let handle = reg.register(200, 100);
    let el = Element::Image(Image::new(handle).with_size(Size2d {
        width: Size::Static(100),
        height: Size::Auto,
    }));
    let size = measure(&el, Vec2::new(1000, 1000), &reg);
    assert_eq!((size.x, size.y), (100, 50));
}

#[test]
fn image_with_both_axes_auto_keeps_its_native_size() {
    let mut reg = ImageRegistry::new();
    let handle = reg.register(64, 48);
    let el = Element::Image(Image::new(handle));
    let size = measure(&el, Vec2::new(1000, 1000), &reg);
    assert_eq!((size.x, size.y), (64, 48));
}

#[test]
fn image_emits_one_textured_rectangle() {
    let mut reg = ImageRegistry::new();
    let handle = reg.register(16, 16);
    let el = Element::Image(Image::new(handle));
    let mut buf = DrawBuffer::new();
    process(
        &el,
        UiRect::new(Vec2::new(1, 2), Vec2::new(16, 16)),
        &reg,
        &mut buf,
    );
    assert_eq!(buf.commands.len(), 1);
    match &buf.commands[0] {
        DrawCommand::Rectangle { texture, .. } => assert_eq!(*texture, Some(handle)),
        _ => panic!("expected a rectangle command"),
    }
}

#[test]
fn fully_transparent_image_is_skipped() {
    let mut reg = ImageRegistry::new();
    let handle = reg.register(16, 16);
    let el = Element::Image(Image::new(handle).with_color(FillColor::none()));
    let mut buf = DrawBuffer::new();
    process(
        &el,
        UiRect::new(Vec2::new(0, 0), Vec2::new(16, 16)),
        &reg,
        &mut buf,
    );
    assert!(buf.commands.is_empty());
}

#[test]
fn unknown_image_handle_is_reported() {
    let reg = ImageRegistry::new();
    assert_eq!(reg.get_size(ImageHandle { index: 0 }), None);
    let mut reg2 = ImageRegistry::new();
    let h = reg2.register(10, 20);
    assert_eq!(reg2.get_size(h), Some((10, 20)));
}

#[test]
fn oversized_padding_clamps_instead_of_failing() {
    let mut c = simple_container(vec![plain_rect(10, 10)]);
    c.padding = Sides::all(500);
    let el = Element::Container(c);
    let reg = ImageRegistry::new();
    let size = measure(&el, Vec2::new(100, 100), &reg);
    // Content plus padding saturates; nothing goes negative.
    assert!(size.x >= 0 && size.y >= 0);
    let mut buf = DrawBuffer::new();
    process(
        &el,
        UiRect::new(Vec2::new(0, 0), Vec2::new(100, 100)),
        &reg,
        &mut buf,
    );
    assert_eq!(buf.commands.len(), 1);
}

#[test]
fn huge_extents_saturate_at_the_coordinate_limit() {
    let c = simple_container(vec![
        plain_rect(COORD_LIMIT, 1),
        plain_rect(COORD_LIMIT, 1),
    ]);
    let reg = ImageRegistry::new();
    let size = measure(
        &Element::Container(c),
        Vec2::new(COORD_LIMIT, COORD_LIMIT),
        &reg,
    );
    assert_eq!((size.x, size.y), (COORD_LIMIT, 1));
}

#[test]
fn frame_driver_runs_measure_then_process() {
    let mut ui = UiInstance::new();
    let reg = ImageRegistry::new();
    ui.begin();
    ui.add(plain_rect(30, 40), Vec2::new(800, 600));
    ui.add(plain_rect(10, 10), Vec2::new(800, 600));
    ui.end(&reg);
    assert!(!ui.building);
    assert_eq!(ui.buffer.commands.len(), 2);
    let (p1, s1) = rect_at(&ui.buffer.commands[0]);
    assert_eq!((p1.x, p1.y, s1.x, s1.y), (0, 0, 30, 40));
}

#[test]
fn frame_driver_clears_the_previous_frame() {
    let mut ui = UiInstance::new();
    let reg = ImageRegistry::new();
    ui.begin();
    ui.add(plain_rect(30, 40), Vec2::new(800, 600));
    ui.end(&reg);
    assert_eq!(ui.buffer.commands.len(), 1);
    ui.begin();
    assert!(ui.buffer.commands.is_empty());
    ui.end(&reg);
    assert!(ui.buffer.commands.is_empty());
}

#[test]
fn state_map_persists_across_frames() {
    let mut ui = UiInstance::new();
    let reg = ImageRegistry::new();
    ui.state.set(7, 1);
    ui.begin();
    ui.end(&reg);
    assert_eq!(ui.state.get(7), Some(1));
}

#[test]
fn state_map_updates_and_keeps_other_keys() {
    let mut m = StateMap::new();
    assert_eq!(m.get(1), None);
    m.set(1, 10);
    m.set(2, 20);
    assert_eq!(m.get(1), Some(10));
    assert_eq!(m.get(2), Some(20));
    m.set(1, 11);
    assert_eq!(m.get(1), Some(11));
    assert_eq!(m.get(2), Some(20));
}

#[test]
fn transformer_measures_as_its_child() {
    let reg = ImageRegistry::new();
    let child = plain_rect(25, 35);
    let wrapped = Element::Transformer(Transformer::new(Box::new(plain_rect(25, 35))));
    let a = measure(&child, Vec2::new(100, 100), &reg);
    let b = measure(&wrapped, Vec2::new(100, 100), &reg);
    assert_eq!((a.x, a.y), (b.x, b.y));
}

#[test]
fn nested_containers_measure_recursively() {
    let inner = simple_container(vec![plain_rect(10, 10), plain_rect(10, 10)]);
    let mut outer = simple_container(vec![Element::Container(inner), plain_rect(5, 30)]);
    outer.gap = 2;
    let reg = ImageRegistry::new();
    let size = measure(&Element::Container(outer), Vec2::new(1000, 1000), &reg);
    // Inner container is 20 wide and 10 tall; 20 + 2 + 5 across, 30 tall.
    assert_eq!((size.x, size.y), (27, 30));
}

#[test]
fn vertical_container_stacks_downward() {
    let mut c = simple_container(vec![plain_rect(10, 20), plain_rect(10, 20)]);
    c.direction = Direction::Vertical;
    c.gap = 3;
    let el = Element::Container(c);
    let reg = ImageRegistry::new();
    let mut buf = DrawBuffer::new();
    process(
        &el,
        UiRect::new(Vec2::new(0, 0), Vec2::new(50, 100)),
        &reg,
        &mut buf,
    );
    let (p1, _) = rect_at(&buf.commands[0]);
    let (p2, _) = rect_at(&buf.commands[1]);
    assert_eq!((p1.x, p1.y), (0, 0));
    assert_eq!((p2.x, p2.y), (0, 23));
}

#[test]
fn corner_radius_reaches_the_command() {
    let el = Element::Rect(Rect {
        size: Size2d {
            width: Size::Static(10),
            height: Size::Static(10),
        },
        color: solid_red(),
        corner_radius: Corners::all(4),
    });
    let reg = ImageRegistry::new();
    let mut buf = DrawBuffer::new();
    process(
        &el,
        UiRect::new(Vec2::new(0, 0), Vec2::new(10, 10)),
        &reg,
        &mut buf,
    );
    match &buf.commands[0] {
        DrawCommand::Rectangle {
            rounded_corners, ..
        } => assert_eq!(*rounded_corners, Some(Corners::all(4))),
        _ => panic!("expected a rectangle command"),
    }
    // Square corners emit no radii at all.
    let mut buf2 = DrawBuffer::new();
    process(
        &plain_rect(10, 10),
        UiRect::new(Vec2::new(0, 0), Vec2::new(10, 10)),
        &reg,
        &mut buf2,
    );
    match &buf2.commands[0] {
        DrawCommand::Rectangle {
            rounded_corners, ..
        } => assert_eq!(*rounded_corners, None),
        _ => panic!("expected a rectangle command"),
    }
}

#[test]
fn fraction_children_share_the_remaining_space() {
    // Two children each asking for half of what is left: the first takes
    // half of the whole space, the second half of the remainder.
    let half = Size2d {
        width: Size::Fraction(Frac::new(FRAC_ONE / 2)),
        height: Size::Static(10),
    };
    let child = |s: Size2d| {
        Element::Rect(Rect {
            size: s,
            color: solid_red(),
            corner_radius: Corners::all(0),
        })
    };
    let c = simple_container(vec![child(half), child(half)]);
    let el = Element::Container(c);
    let reg = ImageRegistry::new();
    let mut buf = DrawBuffer::new();
    process(
        &el,
        UiRect::new(Vec2::new(0, 0), Vec2::new(100, 10)),
        &reg,
        &mut buf,
    );
    let (_, s1) = rect_at(&buf.commands[0]);
    let (p2, s2) = rect_at(&buf.commands[1]);
    assert_eq!(s1.x, 50);
    assert_eq!(p2.x, 50);
    assert_eq!(s2.x, 25);
}
