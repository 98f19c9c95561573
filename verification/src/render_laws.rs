use vstd::prelude::*;

use crate::capture::{crop_region_spec, DisplayArea};
use crate::frame::{channel, circle_outline_drawn, cropped, disc_drawn, in_region, rect_outlined, replaced};
use crate::render::{
    block_count, drawn_by_caller_spec, gap_u32, min_u32, op_fits_spec, ops_applied, pixelated, plan_spec, plans_rendered, DrawOp,
    PixelPoint,
};
use crate::color::Color;
use crate::tool::Tool;

verus! {

/// A pen stroke is drawn as the segments joining each of its points to the next.
pub proof fn law_pen_joins_consecutive_points(
    pts: Seq<PixelPoint>,
    has_text: bool,
    step_number: Option<usize>,
    radius: i32,
)
    requires
        pts.len() >= 1,
    ensures
        plan_spec(Tool::Pen, pts, has_text, step_number, radius).len() == pts.len() - 1,
        forall|i: int|
            0 <= i < pts.len() - 1 ==> #[trigger] plan_spec(Tool::Pen, pts, has_text, step_number, radius)[i]
                == (DrawOp::Segment { from: pts[i], to: pts[i + 1] }),
{
}

/// An arrow, given by the six points of its shaft and its two head strokes, is
/// drawn as exactly those three segments.
pub proof fn law_arrow_is_three_segments(
    pts: Seq<PixelPoint>,
    has_text: bool,
    step_number: Option<usize>,
    radius: i32,
)
    requires
        pts.len() == 6,
    ensures
        plan_spec(Tool::Arrow, pts, has_text, step_number, radius) == seq![
            DrawOp::Segment { from: pts[0], to: pts[1] },
            DrawOp::Segment { from: pts[2], to: pts[3] },
            DrawOp::Segment { from: pts[4], to: pts[5] },
        ],
{
    assert(plan_spec(Tool::Arrow, pts, has_text, step_number, radius) =~= seq![
        DrawOp::Segment { from: pts[0], to: pts[1] },
        DrawOp::Segment { from: pts[2], to: pts[3] },
        DrawOp::Segment { from: pts[4], to: pts[5] },
    ]);
}

/// For control points inside a frame of at most 2^30 by 2^30 pixels, and a
/// circle or step-marker radius that keeps to the same bound from any point of
/// the frame, the frame can take every drawing step of the annotation's plan,
/// except the outline of a rectangle of zero width or height.
pub proof fn law_planned_steps_fit_the_frame(
    tool: Tool,
    pts: Seq<PixelPoint>,
    has_text: bool,
    step_number: Option<usize>,
    radius: i32,
    width: u32,
    height: u32,
)
    requires
        width <= 0x4000_0000,
        height <= 0x4000_0000,
        0 <= radius,
        radius + width <= 0x4000_0000,
        radius + height <= 0x4000_0000,
        forall|i: int| 0 <= i < pts.len() ==> (#[trigger] pts[i]).0 < width && pts[i].1 < height,
        tool == Tool::Text && has_text ==> pts.len() >= 1,
    ensures
        forall|j: int|
            0 <= j < plan_spec(tool, pts, has_text, step_number, radius).len() ==> {
                let op = #[trigger] plan_spec(tool, pts, has_text, step_number, radius)[j];
                op_fits_spec(op, width, height) || op matches DrawOp::RectOutline { width: 0, .. }
                    || op matches DrawOp::RectOutline { height: 0, .. }
            },
{
    if pts.len() >= 2 {
        assert(pts[0].0 < width && pts[1].0 < width);
        assert(pts[0].1 < height && pts[1].1 < height);
    }
    if pts.len() >= 1 {
        assert(pts[0].0 < width && pts[0].1 < height);
    }
}

/// In every plan the steps that the caller draws (segments and text) come
/// after all the steps the library draws, so drawing the library's part of a
/// plan first and the caller's part after keeps the plan's order.
pub proof fn law_caller_steps_come_last(
    tool: Tool,
    pts: Seq<PixelPoint>,
    has_text: bool,
    step_number: Option<usize>,
    radius: i32,
    i: int,
    j: int,
)
    requires
        0 <= i < j < plan_spec(tool, pts, has_text, step_number, radius).len(),
        drawn_by_caller_spec(plan_spec(tool, pts, has_text, step_number, radius)[i]),
    ensures
        drawn_by_caller_spec(plan_spec(tool, pts, has_text, step_number, radius)[j]),
{
}

/// Painting a list of plans is painting its first part and then its second:
/// annotations are painted in list order.
pub proof fn law_plans_paint_in_order(
    a: Seq<(Seq<DrawOp>, Color)>,
    b: Seq<(Seq<DrawOp>, Color)>,
    data: Seq<u8>,
    width: u32,
    height: u32,
)
    ensures
        plans_rendered(a + b, data, width, height) == plans_rendered(b, plans_rendered(a, data, width, height), width, height),
    decreases b.len(),
{
    if b.len() == 0 {
        assert(a + b =~= a);
    } else {
        law_plans_paint_in_order(a, b.drop_last(), data, width, height);
        assert((a + b).drop_last() =~= a + b.drop_last());
        assert((a + b).last() == b.last());
    }
}

/// Pixelation changes no pixel outside its rectangle, and keeps the size of the frame data.
pub proof fn law_pixelation_is_local(src: Seq<u8>, width: u32, x: u32, y: u32, w: u32, h: u32, k: int)
    requires
        0 <= k < src.len(),
        !in_region(width as int, k, x as int, y as int, w as int, h as int),
    ensures
        pixelated(src, width, x, y, w, h).len() == src.len(),
        pixelated(src, width, x, y, w, h)[k] == src[k],
{
}

/// A monitor at the origin exactly as large as the screenshot keeps the whole
/// screenshot, unchanged.
pub proof fn law_full_monitor_keeps_whole_frame(src: Seq<u8>, d: DisplayArea, width: u32, height: u32)
    requires
        width > 0,
        height > 0,
        src.len() == width * height * 4,
        d == (DisplayArea { x: 0, y: 0, width, height }),
    ensures
        crop_region_spec(d, width, height) == (0u32, 0u32, width, height),
        cropped(src, width as int, 0, 0, width as int, height as int) == src,
{
    let c = cropped(src, width as int, 0, 0, width as int, height as int);
    let w = width as int;
    assert forall|k: int| 0 <= k < src.len() implies c[k] == src[k] by {
        let q = k / 4;
        vstd::arithmetic::div_mod::lemma_fundamental_div_mod(k, 4);
        vstd::arithmetic::div_mod::lemma_fundamental_div_mod(q, w);
        assert((q / w) * w + q % w == q) by (nonlinear_arith)
            requires
                q == w * (q / w) + (q % w),
        ;
    }
    assert(c =~= src);
}

/// In a frame of at most 2^24 pixels a side, the rectangle tool sets exactly
/// the pixels on the border of the rectangle spanned by its two control points
/// to its colour, and keeps every other byte of the frame.
pub proof fn law_rectangle_draws_its_border(
    pts: Seq<PixelPoint>,
    has_text: bool,
    step_number: Option<usize>,
    radius: i32,
    data: Seq<u8>,
    width: u32,
    height: u32,
    color: Color,
)
    requires
        width <= 0x100_0000,
        height <= 0x100_0000,
        pts.len() >= 2,
        pts[0].0 < width && pts[0].1 < height,
        pts[1].0 < width && pts[1].1 < height,
    ensures
        ({
            let (a, b) = (pts[0], pts[1]);
            let x = if a.0 <= b.0 { a.0 } else { b.0 };
            let y = if a.1 <= b.1 { a.1 } else { b.1 };
            let w = if a.0 <= b.0 { b.0 - a.0 } else { a.0 - b.0 };
            let h = if a.1 <= b.1 { b.1 - a.1 } else { a.1 - b.1 };
            ops_applied(plan_spec(Tool::Rectangle, pts, has_text, step_number, radius), data, width, height, color)
                == rect_outlined(data, width, x as i32, y as i32, w as u32, h as u32, color)
        }),
{
    let plan = plan_spec(Tool::Rectangle, pts, has_text, step_number, radius);
    assert(plan.drop_last() =~= Seq::<DrawOp>::empty());
    assert(ops_applied(plan.drop_last(), data, width, height, color) == data);
}

/// The circle tool paints the outline of the circle centred on its first
/// control point, with the planned radius, when that radius is positive, and
/// paints nothing otherwise.
pub proof fn law_circle_is_centred_on_first_point(
    pts: Seq<PixelPoint>,
    has_text: bool,
    step_number: Option<usize>,
    radius: i32,
    data: Seq<u8>,
    width: u32,
    height: u32,
    color: Color,
)
    requires
        pts.len() >= 2,
    ensures
        radius > 0 ==> ops_applied(plan_spec(Tool::Circle, pts, has_text, step_number, radius), data, width, height, color)
            == circle_outline_drawn(data, width, height, pts[0].0 as i32, pts[0].1 as i32, radius, color),
        radius <= 0 ==> ops_applied(plan_spec(Tool::Circle, pts, has_text, step_number, radius), data, width, height, color)
            == data,
{
    let plan = plan_spec(Tool::Circle, pts, has_text, step_number, radius);
    if radius > 0 {
        assert(plan.drop_last() =~= Seq::<DrawOp>::empty());
        assert(ops_applied(plan.drop_last(), data, width, height, color) == data);
    }
}

/// A step marker paints the disc centred on its control point with the planned
/// radius (its number is written by the caller); a negative radius paints nothing.
pub proof fn law_step_marker_disc_is_centred_on_its_point(
    pts: Seq<PixelPoint>,
    has_text: bool,
    step_number: Option<usize>,
    radius: i32,
    data: Seq<u8>,
    width: u32,
    height: u32,
    color: Color,
)
    requires
        pts.len() >= 1,
    ensures
        radius >= 0 ==> ops_applied(plan_spec(Tool::Step, pts, has_text, step_number, radius), data, width, height, color)
            == disc_drawn(data, width, height, pts[0].0 as i32, pts[0].1 as i32, radius, color),
        radius < 0 ==> ops_applied(plan_spec(Tool::Step, pts, has_text, step_number, radius), data, width, height, color)
            == data,
{
    let plan = plan_spec(Tool::Step, pts, has_text, step_number, radius);
    let first = seq![plan[0]];
    assert(first.drop_last() =~= Seq::<DrawOp>::empty());
    assert(ops_applied(first.drop_last(), data, width, height, color) == data);
    let d1 = ops_applied(first, data, width, height, color);
    assert(d1 == crate::render::applied(plan[0], data, width, height, color));
    if plan.len() == 2 {
        assert(plan.drop_last() =~= first);
        assert(plan.last() is StepNumber);
        assert(ops_applied(plan, data, width, height, color) == d1);
    } else {
        assert(plan =~= first);
    }
}

/// The blur tool pixelates exactly the rectangle spanned by its two control
/// points: from the smaller to the larger coordinate on each axis, the larger
/// excluded; a rectangle of zero width or height is left alone.
pub proof fn law_blur_pixelates_spanned_rectangle(
    pts: Seq<PixelPoint>,
    has_text: bool,
    step_number: Option<usize>,
    radius: i32,
    data: Seq<u8>,
    width: u32,
    height: u32,
    color: Color,
)
    requires
        pts.len() >= 2,
    ensures
        ({
            let (a, b) = (pts[0], pts[1]);
            let x = if a.0 <= b.0 { a.0 } else { b.0 };
            let y = if a.1 <= b.1 { a.1 } else { b.1 };
            let w = if a.0 <= b.0 { b.0 - a.0 } else { a.0 - b.0 };
            let h = if a.1 <= b.1 { b.1 - a.1 } else { a.1 - b.1 };
            &&& (w > 0 && h > 0) ==> ops_applied(plan_spec(Tool::Blur, pts, has_text, step_number, radius), data, width, height, color)
                == pixelated(data, width, x, y, w as u32, h as u32)
            &&& (w == 0 || h == 0) ==> ops_applied(plan_spec(Tool::Blur, pts, has_text, step_number, radius), data, width, height, color)
                == data
        }),
{
    let plan = plan_spec(Tool::Blur, pts, has_text, step_number, radius);
    if plan.len() == 1 {
        assert(plan.drop_last() =~= Seq::<DrawOp>::empty());
        assert(ops_applied(plan.drop_last(), data, width, height, color) == data);
    }
}

/// A rectangle outline sets every byte of its border pixels to the matching
/// channel of the colour and keeps every other byte: pixel `(px, py)` of a
/// frame `width` pixels wide is on the border when it lies in the rectangle
/// and on its first or last column or row.
pub proof fn law_rect_outline_sets_border_pixels(
    src: Seq<u8>,
    width: u32,
    left: i32,
    top: i32,
    w: u32,
    h: u32,
    color: Color,
    px: int,
    py: int,
    c: int,
)
    requires
        width > 0,
        0 <= px < width,
        py >= 0,
        0 <= c < 4,
        0 <= (py * width + px) * 4 + c < src.len(),
    ensures
        ({
            let k = (py * width + px) * 4 + c;
            let on_border = left <= px <= left + w - 1 && top <= py <= top + h - 1 && (px == left || px == left + w
                - 1 || py == top || py == top + h - 1);
            &&& rect_outlined(src, width, left, top, w, h, color).len() == src.len()
            &&& on_border ==> rect_outlined(src, width, left, top, w, h, color)[k] == (if c == 0 {
                color.r
            } else if c == 1 {
                color.g
            } else if c == 2 {
                color.b
            } else {
                color.a
            })
            &&& !on_border ==> rect_outlined(src, width, left, top, w, h, color)[k] == src[k]
        }),
{
    lemma_pixel_of_byte(width as int, px, py, c);
}

/// Byte `(py * width + px) * 4 + c` belongs to pixel `(px, py)`, channel `c`.
proof fn lemma_pixel_of_byte(width: int, px: int, py: int, c: int)
    requires
        width > 0,
        0 <= px < width,
        py >= 0,
        0 <= c < 4,
    ensures
        ((py * width + px) * 4 + c) / 4 == py * width + px,
        ((py * width + px) * 4 + c) % 4 == c,
        ((py * width + px) * 4 + c) / 4 % width == px,
        ((py * width + px) * 4 + c) / 4 / width == py,
{
    let q = py * width + px;
    vstd::arithmetic::div_mod::lemma_fundamental_div_mod_converse((q * 4 + c), 4, q, c);
    vstd::arithmetic::div_mod::lemma_fundamental_div_mod_converse(q, width, py, px);
}

/// Cropping keeps pixels: pixel `(i, j)` of the `w` by `h` cut-out is pixel
/// `(x + i, y + j)` of the source, channel by channel.
pub proof fn law_crop_keeps_pixels(src: Seq<u8>, width: int, x: int, y: int, w: int, h: int, i: int, j: int, c: int)
    requires
        w > 0,
        h > 0,
        0 <= i < w,
        0 <= j < h,
        0 <= c < 4,
    ensures
        cropped(src, width, x, y, w, h).len() == w * h * 4,
        0 <= (j * w + i) * 4 + c < w * h * 4,
        cropped(src, width, x, y, w, h)[(j * w + i) * 4 + c] == src[((y + j) * width + (x + i)) * 4 + c],
{
    lemma_pixel_of_byte(w, i, j, c);
    assert(0 <= j * w + i < w * h) by (nonlinear_arith)
        requires
            0 <= i < w,
            0 <= j < h,
    ;
    assert(w * h * 4 >= 0) by (nonlinear_arith)
        requires
            w > 0,
            h > 0,
    ;
}

/// Putting an image in place overwrites pixel `(x + i, y + j)` of the frame
/// with pixel `(i, j)` of the image and keeps every pixel outside the rectangle.
pub proof fn law_replace_puts_pixels_in_place(
    bottom: Seq<u8>,
    width: int,
    top: Seq<u8>,
    x: int,
    y: int,
    w: int,
    h: int,
    px: int,
    py: int,
    c: int,
)
    requires
        width > 0,
        0 <= px < width,
        py >= 0,
        0 <= c < 4,
        0 <= (py * width + px) * 4 + c < bottom.len(),
    ensures
        ({
            let k = (py * width + px) * 4 + c;
            let inside = x <= px < x + w && y <= py < y + h;
            &&& replaced(bottom, width, top, x, y, w, h).len() == bottom.len()
            &&& inside ==> replaced(bottom, width, top, x, y, w, h)[k] == top[((py - y) * w + (px - x)) * 4 + c]
            &&& !inside ==> replaced(bottom, width, top, x, y, w, h)[k] == bottom[k]
        }),
{
    lemma_pixel_of_byte(width, px, py, c);
}

/// Pixelation uses one block per full 64 pixels along a side, and at least one.
pub proof fn law_block_count(n: u32)
    ensures
        n < 128 ==> block_count(n) == 1,
        n >= 64 ==> block_count(n) == n / 64,
        block_count(n) >= 1,
{
}

/// A text annotation with text plans its text at its first control point, and
/// nothing without text; a step marker plans its disc at its control point,
/// followed by its number when it has one.
pub proof fn law_text_and_step_plans(
    pts: Seq<PixelPoint>,
    has_text: bool,
    step_number: Option<usize>,
    radius: i32,
)
    requires
        pts.len() >= 1,
    ensures
        has_text ==> plan_spec(Tool::Text, pts, has_text, step_number, radius) == seq![
            DrawOp::Text { x: pts[0].0, y: pts[0].1 },
        ],
        !has_text ==> plan_spec(Tool::Text, pts, has_text, step_number, radius).len() == 0,
        plan_spec(Tool::Step, pts, has_text, step_number, radius)[0] == (DrawOp::Disc {
            cx: pts[0].0 as i32,
            cy: pts[0].1 as i32,
            radius,
        }),
        step_number is None ==> plan_spec(Tool::Step, pts, has_text, step_number, radius).len() == 1,
        step_number matches Some(n) ==> plan_spec(Tool::Step, pts, has_text, step_number, radius) == seq![
            DrawOp::Disc { cx: pts[0].0 as i32, cy: pts[0].1 as i32, radius },
            DrawOp::StepNumber { x: pts[0].0, y: pts[0].1, radius, number: n },
        ],
        plan_spec(Tool::Move, pts, has_text, step_number, radius).len() == 0,
{
}

/// The steps of a plan are carried out first to last: doing `a` then `b` is
/// doing `a + b`, and a list with one plan paints exactly that plan's steps.
pub proof fn law_steps_run_in_order(
    a: Seq<DrawOp>,
    b: Seq<DrawOp>,
    data: Seq<u8>,
    width: u32,
    height: u32,
    color: Color,
)
    ensures
        ops_applied(a + b, data, width, height, color) == ops_applied(b, ops_applied(a, data, width, height, color), width, height, color),
        plans_rendered(seq![(a, color)], data, width, height) == ops_applied(a, data, width, height, color),
    decreases b.len(),
{
    if b.len() == 0 {
        assert(a + b =~= a);
    } else {
        law_steps_run_in_order(a, b.drop_last(), data, width, height, color);
        assert((a + b).drop_last() =~= a + b.drop_last());
        assert((a + b).last() == b.last());
    }
    let one = seq![(a, color)];
    assert(one.drop_last() =~= Seq::<(Seq<DrawOp>, Color)>::empty());
    assert(plans_rendered(one.drop_last(), data, width, height) == data);
}

} // verus!
