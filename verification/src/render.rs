use vstd::prelude::*;

use crate::color::Color;
use crate::frame::{
    byte_index, circle_outline_drawn, circle_within_bounds, column_of, coordinate_bound, crop_pixels, cropped,
    disc_drawn, draw_circle_outline, draw_disc, draw_rect_outline, in_region, rect_outline_drawn, rect_outlined,
    rect_within_bounds, rect_within_exact_bound, replace_pixels, replaced, resize_nearest, resized_nearest, row_of,
};
use crate::capture::CapturedFrame;
use crate::tool::Tool;

verus! {

/// A point in pixel coordinates of the frame.
pub type PixelPoint = (u32, u32);

/// One drawing step of an annotation on the frame.
#[derive(Clone, Copy, Debug, PartialEq, Eq)]
pub enum DrawOp {
    /// A straight line between two pixels.
    Segment { from: PixelPoint, to: PixelPoint },
    /// The outline of a rectangle, given by its top-left pixel and its size.
    RectOutline { left: i32, top: i32, width: u32, height: u32 },
    /// The outline of a circle.
    CircleOutline { cx: i32, cy: i32, radius: i32 },
    /// A filled disc.
    Disc { cx: i32, cy: i32, radius: i32 },
    /// Coarse pixelation of a rectangle, given by its top-left pixel and its size.
    Pixelate { x: u32, y: u32, width: u32, height: u32 },
    /// The number of a step marker, written over its disc.
    StepNumber { x: u32, y: u32, radius: i32, number: usize },
    /// The text of a text annotation, written from its top-left pixel.
    Text { x: u32, y: u32 },
}

/// The side of a pixelation block, in pixels.
pub const PIXELATE_BLOCK: u32 = 64;

/// The smaller of two coordinates.
pub open spec fn min_u32(a: u32, b: u32) -> u32 {
    if a <= b { a } else { b }
}

/// The distance between two coordinates.
pub open spec fn gap_u32(a: u32, b: u32) -> u32 {
    if a <= b { (b - a) as u32 } else { (a - b) as u32 }
}

/// The segments joining each point to the next.
pub open spec fn polyline_segments(pts: Seq<PixelPoint>) -> Seq<DrawOp> {
    if pts.len() >= 1 {
        Seq::new((pts.len() - 1) as nat, |i: int| DrawOp::Segment { from: pts[i], to: pts[i + 1] })
    } else {
        Seq::empty()
    }
}

/// The segments joining the points pairwise: the first to the second, the third
/// to the fourth, and so on.
pub open spec fn paired_segments(pts: Seq<PixelPoint>) -> Seq<DrawOp> {
    Seq::new(pts.len() / 2, |k: int| DrawOp::Segment { from: pts[2 * k], to: pts[2 * k + 1] })
}

/// The drawing steps of one annotation on the frame. `pts` are its control
/// points in pixels; for an arrow they are the six points of its shaft and two
/// head strokes. `radius` is the radius in pixels of a circle (the distance
/// between its two control points) or of a step marker.
pub open spec fn plan_spec(
    tool: Tool,
    pts: Seq<PixelPoint>,
    has_text: bool,
    step_number: Option<usize>,
    radius: i32,
) -> Seq<DrawOp> {
    match tool {
        Tool::Rectangle => if pts.len() >= 2 {
            seq![DrawOp::RectOutline {
                left: min_u32(pts[0].0, pts[1].0) as i32,
                top: min_u32(pts[0].1, pts[1].1) as i32,
                width: gap_u32(pts[0].0, pts[1].0),
                height: gap_u32(pts[0].1, pts[1].1),
            }]
        } else {
            Seq::empty()
        },
        Tool::Circle => if pts.len() >= 2 && radius > 0 {
            seq![DrawOp::CircleOutline { cx: pts[0].0 as i32, cy: pts[0].1 as i32, radius }]
        } else {
            Seq::empty()
        },
        Tool::Step => if pts.len() >= 1 {
            let disc = DrawOp::Disc { cx: pts[0].0 as i32, cy: pts[0].1 as i32, radius };
            match step_number {
                Some(n) => seq![disc, DrawOp::StepNumber { x: pts[0].0, y: pts[0].1, radius, number: n }],
                None => seq![disc],
            }
        } else {
            Seq::empty()
        },
        Tool::Pen => polyline_segments(pts),
        Tool::Arrow => if pts.len() >= 2 {
            paired_segments(pts)
        } else {
            Seq::empty()
        },
        Tool::Blur => if pts.len() >= 2 && gap_u32(pts[0].0, pts[1].0) > 0 && gap_u32(pts[0].1, pts[1].1) > 0 {
            seq![DrawOp::Pixelate {
                x: min_u32(pts[0].0, pts[1].0),
                y: min_u32(pts[0].1, pts[1].1),
                width: gap_u32(pts[0].0, pts[1].0),
                height: gap_u32(pts[0].1, pts[1].1),
            }]
        } else {
            Seq::empty()
        },
        Tool::Text => if has_text {
            seq![DrawOp::Text { x: pts[0].0, y: pts[0].1 }]
        } else {
            Seq::empty()
        },
        Tool::Move => Seq::empty(),
    }
}

fn min_of(a: u32, b: u32) -> (r: u32)
    ensures
        r == min_u32(a, b),
{
    if a <= b {
        a
    } else {
        b
    }
}

fn gap_of(a: u32, b: u32) -> (r: u32)
    ensures
        r == gap_u32(a, b),
{
    if a <= b {
        b - a
    } else {
        a - b
    }
}

/// The drawing steps of one annotation on the frame (see [`plan_spec`]).
pub fn plan_shape(
    tool: Tool,
    pts: &Vec<PixelPoint>,
    has_text: bool,
    step_number: Option<usize>,
    radius: i32,
) -> (ops: Vec<DrawOp>)
    requires
        tool == Tool::Text && has_text ==> pts@.len() >= 1,
    ensures
        ops@ == plan_spec(tool, pts@, has_text, step_number, radius),
{
    let mut ops: Vec<DrawOp> = Vec::new();
    let n = pts.len();
    match tool {
        Tool::Rectangle => {
            if n >= 2 {
                let (a, b) = (pts[0], pts[1]);
                ops.push(
                    DrawOp::RectOutline {
                        left: min_of(a.0, b.0) as i32,
                        top: min_of(a.1, b.1) as i32,
                        width: gap_of(a.0, b.0),
                        height: gap_of(a.1, b.1),
                    },
                );
            }
        },
        Tool::Circle => {
            if n >= 2 {
                if radius > 0 {
                    ops.push(DrawOp::CircleOutline { cx: pts[0].0 as i32, cy: pts[0].1 as i32, radius });
                }
            }
        },
        Tool::Step => {
            if n >= 1 {
                let c = pts[0];
                ops.push(DrawOp::Disc { cx: c.0 as i32, cy: c.1 as i32, radius });
                match step_number {
                    Some(num) => {
                        ops.push(DrawOp::StepNumber { x: c.0, y: c.1, radius, number: num });
                    },
                    None => {},
                }
            }
        },
        Tool::Pen => {
            let mut i: usize = 0;
            while i + 1 < n
                invariant
                    n == pts@.len(),
                    i < n || (n == 0 && i == 0),
                    ops@ == polyline_segments(pts@).take(i as int),
                decreases n - i,
            {
                ops.push(DrawOp::Segment { from: pts[i], to: pts[i + 1] });
                i = i + 1;
                assert(ops@ =~= polyline_segments(pts@).take(i as int));
            }
            assert(ops@ =~= polyline_segments(pts@));
        },
        Tool::Arrow => {
            if n >= 2 {
                let mut k: usize = 0;
                while k < n / 2
                    invariant
                        n == pts@.len(),
                        k <= n / 2,
                        ops@ == paired_segments(pts@).take(k as int),
                    decreases n / 2 - k,
                {
                    ops.push(DrawOp::Segment { from: pts[2 * k], to: pts[2 * k + 1] });
                    k = k + 1;
                    assert(ops@ =~= paired_segments(pts@).take(k as int));
                }
                assert(ops@ =~= paired_segments(pts@));
            }
        },
        Tool::Blur => {
            if n >= 2 {
                let (a, b) = (pts[0], pts[1]);
                let w = gap_of(a.0, b.0);
                let h = gap_of(a.1, b.1);
                if w > 0 && h > 0 {
                    ops.push(DrawOp::Pixelate { x: min_of(a.0, b.0), y: min_of(a.1, b.1), width: w, height: h });
                }
            }
        },
        Tool::Text => {
            if has_text {
                ops.push(DrawOp::Text { x: pts[0].0, y: pts[0].1 });
            }
        },
        Tool::Move => {},
    }
    proof {
        let expected = plan_spec(tool, pts@, has_text, step_number, radius);
        assert(ops@ =~= expected);
    }
    ops
}

/// The number of pixelation blocks along a side of `n` pixels: one per full
/// block, and at least one.
pub open spec fn block_count(n: u32) -> u32 {
    if n / PIXELATE_BLOCK > 0 { n / PIXELATE_BLOCK } else { 1 }
}

/// The frame data after the rectangle with top-left corner `(x, y)` and size
/// `w` by `h` is pixelated: cut out, shrunk to one pixel per block and blown up
/// again with the nearest-neighbour filter, and put back in place.
pub open spec fn pixelated(src: Seq<u8>, width: u32, x: u32, y: u32, w: u32, h: u32) -> Seq<u8> {
    let sub = cropped(src, width as int, x as int, y as int, w as int, h as int);
    let small = resized_nearest(sub, w, h, block_count(w), block_count(h));
    let back = resized_nearest(small, block_count(w), block_count(h), w, h);
    replaced(src, width as int, back, x as int, y as int, w as int, h as int)
}

/// Pixelates the rectangle of the frame with top-left corner `(x, y)` and size
/// `w` by `h` (see [`pixelated`]); the rest of the frame is left as it was.
pub fn pixelate_region(frame: &mut CapturedFrame, x: u32, y: u32, w: u32, h: u32)
    requires
        old(frame).wf(),
        w > 0,
        h > 0,
        x + w <= old(frame).width,
        y + h <= old(frame).height,
    ensures
        final(frame).wf(),
        final(frame).width == old(frame).width,
        final(frame).height == old(frame).height,
        final(frame).data@ == pixelated(old(frame).data@, old(frame).width, x, y, w, h),
        forall|k: int|
            0 <= k < old(frame).data@.len() && !in_region(old(frame).width as int, k, x as int, y as int, w as int, h as int)
                ==> #[trigger] final(frame).data@[k] == old(frame).data@[k],
        w < 2 * PIXELATE_BLOCK && h < 2 * PIXELATE_BLOCK ==> forall|k1: int, k2: int|
            0 <= k1 < old(frame).data@.len() && 0 <= k2 < old(frame).data@.len() && k1 % 4 == k2 % 4 && in_region(
                old(frame).width as int,
                k1,
                x as int,
                y as int,
                w as int,
                h as int,
            ) && in_region(old(frame).width as int, k2, x as int, y as int, w as int, h as int)
                ==> #[trigger] final(frame).data@[k1] == #[trigger] final(frame).data@[k2],
{
    let sub = crop_pixels(frame, x, y, w, h);
    let sub_len = sub.len();
    assert(sub_len == w * h * 4);
    let sw: u32 = if w / PIXELATE_BLOCK > 0 { w / PIXELATE_BLOCK } else { 1 };
    let sh: u32 = if h / PIXELATE_BLOCK > 0 { h / PIXELATE_BLOCK } else { 1 };
    assert(w * sh * 4 <= w * h * 4 && sw * sh * 4 <= w * h * 4 && sw * h * 4 <= w * h * 4) by (nonlinear_arith)
        requires
            1 <= sw <= w,
            1 <= sh <= h,
    ;
    let small = resize_nearest(sub, w, h, sw, sh);
    let ghost small_v = small@;
    let back = resize_nearest(small, sw, sh, w, h);
    let ghost old_data = frame.data@;
    let ghost fw = frame.width as int;
    replace_pixels(frame, &back, x, y, w, h);
    proof {
        if w < 2 * PIXELATE_BLOCK && h < 2 * PIXELATE_BLOCK {
            assert(sw == 1 && sh == 1);
            assert forall|k1: int, k2: int|
                0 <= k1 < old_data.len() && 0 <= k2 < old_data.len() && k1 % 4 == k2 % 4 && in_region(
                    fw,
                    k1,
                    x as int,
                    y as int,
                    w as int,
                    h as int,
                ) && in_region(fw, k2, x as int, y as int, w as int, h as int)
                implies #[trigger] frame.data@[k1] == #[trigger] frame.data@[k2] by {
                lemma_region_index(fw, k1, x as int, y as int, w as int, h as int);
                lemma_region_index(fw, k2, x as int, y as int, w as int, h as int);
                let i1 = byte_index(w as int, column_of(fw, k1) - x, row_of(fw, k1) - y, k1 % 4);
                let i2 = byte_index(w as int, column_of(fw, k2) - x, row_of(fw, k2) - y, k2 % 4);
                assert(back@[i1] == small_v[i1 % 4]);
                assert(back@[i2] == small_v[i2 % 4]);
            }
        }
    }
}

/// The byte of the cut-out rectangle that byte `k` of a frame `width` pixels
/// wide is taken from lies inside the rectangle's data and is of the same channel.
proof fn lemma_region_index(width: int, k: int, x: int, y: int, w: int, h: int)
    requires
        width > 0,
        k >= 0,
        in_region(width, k, x, y, w, h),
    ensures
        0 <= byte_index(w, column_of(width, k) - x, row_of(width, k) - y, k % 4) < w * h * 4,
        byte_index(w, column_of(width, k) - x, row_of(width, k) - y, k % 4) % 4 == k % 4,
{
    let c = column_of(width, k) - x;
    let r = row_of(width, k) - y;
    let q = r * w + c;
    assert(0 <= q < w * h) by (nonlinear_arith)
        requires
            0 <= c < w,
            0 <= r < h,
            q == r * w + c,
    ;
    assert(0 <= k % 4 < 4);
    assert((q * 4 + k % 4) % 4 == k % 4) by (nonlinear_arith)
        requires
            0 <= k % 4 < 4,
            q >= 0,
    ;
}

/// Whether a circle or disc of this centre and radius can be drawn: a
/// negative radius draws nothing (down to the two smallest `i32` values, on
/// which the circle algorithm overflows), any other must keep the circle
/// within the coordinate bound.
pub open spec fn circle_fits_spec(cx: i32, cy: i32, radius: i32) -> bool {
    if radius < 0 {
        radius >= i32::MIN + 2
    } else {
        circle_within_bounds(cx, cy, radius)
    }
}

/// Whether the frame can take the drawing step: rectangle outlines are not
/// empty and stay within the coordinate bound, circles and discs keep to
/// [`circle_fits_spec`], and pixelated rectangles lie inside the frame and are
/// not empty. Segments and text are drawn by the caller.
pub open spec fn op_fits_spec(op: DrawOp, width: u32, height: u32) -> bool {
    match op {
        DrawOp::Segment { .. } => true,
        DrawOp::RectOutline { left, top, width: w, height: h } => rect_within_bounds(left, top, w, h),
        DrawOp::CircleOutline { cx, cy, radius } => circle_fits_spec(cx, cy, radius),
        DrawOp::Disc { cx, cy, radius } => circle_fits_spec(cx, cy, radius),
        DrawOp::Pixelate { x, y, width: w, height: h } => {
            &&& w > 0 && h > 0
            &&& x + w <= width
            &&& y + h <= height
        },
        DrawOp::StepNumber { .. } => true,
        DrawOp::Text { .. } => true,
    }
}

/// The frame data after the drawing step. A rectangle outline within the exact
/// bound sets exactly its border pixels (see [`rect_outlined`]). A circle or disc of negative radius
/// leaves it unchanged, as `imageproc` draws nothing then; segments and text
/// leave it unchanged here, because the caller draws them (see [`drawn_by_caller_spec`]).
pub open spec fn applied(op: DrawOp, data: Seq<u8>, width: u32, height: u32, color: Color) -> Seq<u8> {
    match op {
        DrawOp::Segment { .. } => data,
        DrawOp::RectOutline { left, top, width: w, height: h } => if rect_within_exact_bound(left, top, w, h) {
            rect_outlined(data, width, left, top, w, h, color)
        } else {
            rect_outline_drawn(data, width, height, left, top, w, h, color)
        },
        DrawOp::CircleOutline { cx, cy, radius } => if radius < 0 {
            data
        } else {
            circle_outline_drawn(data, width, height, cx, cy, radius, color)
        },
        DrawOp::Disc { cx, cy, radius } => if radius < 0 {
            data
        } else {
            disc_drawn(data, width, height, cx, cy, radius, color)
        },
        DrawOp::Pixelate { x, y, width: w, height: h } => pixelated(data, width, x, y, w, h),
        DrawOp::StepNumber { .. } => data,
        DrawOp::Text { .. } => data,
    }
}

/// Whether the caller draws the step itself: segments, which `imageproc`
/// draws only from floating-point end points, and text, which needs a font and
/// a floating-point scale.
pub open spec fn drawn_by_caller_spec(op: DrawOp) -> bool {
    op is Segment || op is StepNumber || op is Text
}

/// Tells whether the caller draws the step itself (see [`drawn_by_caller_spec`]).
pub fn drawn_by_caller(op: &DrawOp) -> (res: bool)
    ensures
        res == drawn_by_caller_spec(*op),
{
    match op {
        DrawOp::Segment { .. } | DrawOp::StepNumber { .. } | DrawOp::Text { .. } => true,
        _ => false,
    }
}

/// Splits a plan into the longest prefix of steps the library draws and the
/// rest, which starts with a step the caller draws. For a plan made by
/// [`plan_shape`] the rest holds only steps the caller draws
/// (`law_caller_steps_come_last`), so painting the prefix with
/// [`render_plans`] and then drawing the rest keeps the plan's order.
pub fn split_plan(ops: &Vec<DrawOp>) -> (r: (Vec<DrawOp>, Vec<DrawOp>))
    ensures
        r.0@ + r.1@ == ops@,
        forall|i: int| 0 <= i < r.0@.len() ==> !drawn_by_caller_spec(#[trigger] r.0@[i]),
        r.1@.len() > 0 ==> drawn_by_caller_spec(r.1@[0]),
{
    let mut library: Vec<DrawOp> = Vec::new();
    let mut i: usize = 0;
    while i < ops.len() && !drawn_by_caller(&ops[i])
        invariant
            i <= ops.len(),
            library@ == ops@.take(i as int),
            forall|j: int| 0 <= j < i ==> !drawn_by_caller_spec(#[trigger] ops@[j]),
        decreases ops.len() - i,
    {
        library.push(ops[i]);
        i = i + 1;
        assert(library@ =~= ops@.take(i as int));
    }
    let mut rest: Vec<DrawOp> = Vec::new();
    let mut j: usize = i;
    while j < ops.len()
        invariant
            i <= j <= ops.len(),
            rest@ == ops@.subrange(i as int, j as int),
        decreases ops.len() - j,
    {
        rest.push(ops[j]);
        j = j + 1;
        assert(rest@ =~= ops@.subrange(i as int, j as int));
    }
    assert(library@ + rest@ =~= ops@);
    (library, rest)
}

const BOUND: i64 = 0x4000_0000;

fn circle_fits(cx: i32, cy: i32, radius: i32) -> (res: bool)
    ensures
        res == circle_fits_spec(cx, cy, radius),
{
    if radius < 0 {
        radius >= i32::MIN + 2
    } else {
        let (x, y, r) = (cx as i64, cy as i64, radius as i64);
        -BOUND <= x - r && x + r <= BOUND && -BOUND <= y - r && y + r <= BOUND
    }
}

/// Tells whether the frame can take the drawing step (see [`op_fits_spec`]).
pub fn op_fits(op: &DrawOp, width: u32, height: u32) -> (res: bool)
    ensures
        res == op_fits_spec(*op, width, height),
{
    match *op {
        DrawOp::Segment { .. } => true,
        DrawOp::RectOutline { left, top, width: w, height: h } => {
            let (l, t, w, h) = (left as i64, top as i64, w as i64, h as i64);
            0 < w && w <= BOUND && 0 < h && h <= BOUND && -BOUND <= l && l + w <= BOUND && -BOUND <= t && t + h
                <= BOUND
        },
        DrawOp::CircleOutline { cx, cy, radius } => circle_fits(cx, cy, radius),
        DrawOp::Disc { cx, cy, radius } => circle_fits(cx, cy, radius),
        DrawOp::Pixelate { x, y, width: w, height: h } => {
            w > 0 && h > 0 && (x as u64) + (w as u64) <= width as u64 && (y as u64) + (h as u64) <= height as u64
        },
        DrawOp::StepNumber { .. } => true,
        DrawOp::Text { .. } => true,
    }
}

/// Carries out one drawing step on the frame in `color` (see [`applied`]).
/// Segments and text are left to the caller (see [`drawn_by_caller_spec`]).
pub fn apply_op(frame: &mut CapturedFrame, op: &DrawOp, color: Color)
    requires
        old(frame).wf(),
        op_fits_spec(*op, old(frame).width, old(frame).height),
    ensures
        final(frame).wf(),
        final(frame).width == old(frame).width,
        final(frame).height == old(frame).height,
        final(frame).data@ == applied(*op, old(frame).data@, old(frame).width, old(frame).height, color),
{
    match *op {
        DrawOp::Segment { .. } => {},
        DrawOp::RectOutline { left, top, width: w, height: h } => {
            draw_rect_outline(frame, left, top, w, h, color);
        },
        DrawOp::CircleOutline { cx, cy, radius } => {
            if radius >= 0 {
                draw_circle_outline(frame, cx, cy, radius, color);
            }
        },
        DrawOp::Disc { cx, cy, radius } => {
            if radius >= 0 {
                draw_disc(frame, cx, cy, radius, color);
            }
        },
        DrawOp::Pixelate { x, y, width: w, height: h } => {
            pixelate_region(frame, x, y, w, h);
        },
        DrawOp::StepNumber { .. } => {},
        DrawOp::Text { .. } => {},
    }
}

/// The frame data after the drawing steps, first to last, in `color`.
pub open spec fn ops_applied(ops: Seq<DrawOp>, data: Seq<u8>, width: u32, height: u32, color: Color) -> Seq<u8>
    decreases ops.len(),
{
    if ops.len() == 0 {
        data
    } else {
        applied(ops.last(), ops_applied(ops.drop_last(), data, width, height, color), width, height, color)
    }
}

/// The frame data after the plans, first to last: each plan is the drawing
/// steps of one annotation and its colour.
pub open spec fn plans_rendered(plans: Seq<(Seq<DrawOp>, Color)>, data: Seq<u8>, width: u32, height: u32) -> Seq<u8>
    decreases plans.len(),
{
    if plans.len() == 0 {
        data
    } else {
        let last = plans.last();
        ops_applied(last.0, plans_rendered(plans.drop_last(), data, width, height), width, height, last.1)
    }
}

/// The values of executable plans.
pub open spec fn plan_values(plans: Seq<(Vec<DrawOp>, Color)>) -> Seq<(Seq<DrawOp>, Color)> {
    plans.map_values(|p: (Vec<DrawOp>, Color)| (p.0@, p.1))
}

/// Whether the frame can take every drawing step of every plan.
pub open spec fn plans_fit(plans: Seq<(Seq<DrawOp>, Color)>, width: u32, height: u32) -> bool {
    forall|i: int, j: int|
        0 <= i < plans.len() && 0 <= j < plans[i].0.len() ==> op_fits_spec(#[trigger] plans[i].0[j], width, height)
}

/// Paints the annotations' plans onto the frame, one annotation after the
/// other in list order, each drawing step in its plan's order (see [`plans_rendered`]).
pub fn render_plans(frame: &mut CapturedFrame, plans: &Vec<(Vec<DrawOp>, Color)>)
    requires
        old(frame).wf(),
        plans_fit(plan_values(plans@), old(frame).width, old(frame).height),
    ensures
        final(frame).wf(),
        final(frame).width == old(frame).width,
        final(frame).height == old(frame).height,
        final(frame).data@ == plans_rendered(plan_values(plans@), old(frame).data@, old(frame).width, old(frame).height),
{
    let ghost pv = plan_values(plans@);
    let ghost start = frame.data@;
    let ghost (w, h) = (frame.width, frame.height);
    let mut i: usize = 0;
    while i < plans.len()
        invariant
            i <= plans.len(),
            pv == plan_values(plans@),
            plans_fit(pv, w, h),
            frame.wf(),
            frame.width == w,
            frame.height == h,
            frame.data@ == plans_rendered(pv.take(i as int), start, w, h),
        decreases plans.len() - i,
    {
        let ops = &plans[i].0;
        let color = plans[i].1;
        let ghost before = frame.data@;
        assert(pv[i as int].0 == ops@);
        let mut j: usize = 0;
        while j < ops.len()
            invariant
                j <= ops.len(),
                i < plans.len(),
                pv == plan_values(plans@),
                ops@ == pv[i as int].0,
                color == pv[i as int].1,
                plans_fit(pv, w, h),
                frame.wf(),
                frame.width == w,
                frame.height == h,
                frame.data@ == ops_applied(ops@.take(j as int), before, w, h, color),
            decreases ops.len() - j,
        {
            assert(op_fits_spec(pv[i as int].0[j as int], w, h));
            apply_op(frame, &ops[j], color);
            j = j + 1;
            assert(ops@.take(j as int).drop_last() =~= ops@.take(j - 1));
        }
        assert(ops@.take(j as int) =~= ops@);
        i = i + 1;
        assert(pv.take(i as int).drop_last() =~= pv.take(i - 1));
    }
    assert(pv.take(i as int) =~= pv);
}

} // verus!
