use vstd::prelude::*;

use crate::capture::CapturedFrame;
use crate::color::Color;

verus! {

/// The index of channel `c` of pixel `(x, y)` in an image `width` pixels wide.
pub open spec fn byte_index(width: int, x: int, y: int, c: int) -> int {
    (y * width + x) * 4 + c
}

/// The column of the pixel that byte `k` belongs to, in an image `width` pixels wide.
pub open spec fn column_of(width: int, k: int) -> int {
    (k / 4) % width
}

/// The row of the pixel that byte `k` belongs to, in an image `width` pixels wide.
pub open spec fn row_of(width: int, k: int) -> int {
    (k / 4) / width
}

/// Whether byte `k` of an image `width` pixels wide belongs to a pixel of the
/// rectangle with top-left corner `(x, y)` and size `w` by `h`.
pub open spec fn in_region(width: int, k: int, x: int, y: int, w: int, h: int) -> bool {
    &&& x <= column_of(width, k) < x + w
    &&& y <= row_of(width, k) < y + h
}

/// The pixels of the rectangle with top-left corner `(x, y)` and size `w` by
/// `h`, cut out of an image `width` pixels wide.
pub open spec fn cropped(src: Seq<u8>, width: int, x: int, y: int, w: int, h: int) -> Seq<u8> {
    Seq::new(
        (w * h * 4) as nat,
        |k: int| src[byte_index(width, x + column_of(w, k), y + row_of(w, k), k % 4)],
    )
}

/// An image `width` pixels wide whose rectangle with top-left corner `(x, y)`
/// and size `w` by `h` is overwritten by the `w` by `h` image `top`.
pub open spec fn replaced(bottom: Seq<u8>, width: int, top: Seq<u8>, x: int, y: int, w: int, h: int) -> Seq<u8> {
    Seq::new(
        bottom.len(),
        |k: int|
            if in_region(width, k, x, y, w, h) {
                top[byte_index(w, column_of(width, k) - x, row_of(width, k) - y, k % 4)]
            } else {
                bottom[k]
            },
    )
}

/// What `image::imageops::resize` with the nearest-neighbour filter makes of a
/// `width` by `height` RGBA image when asked for `new_width` by `new_height`.
pub uninterp spec fn resized_nearest(src: Seq<u8>, width: u32, height: u32, new_width: u32, new_height: u32) -> Seq<u8>;

/// What `imageproc::drawing::draw_hollow_rect_mut` makes of a `width` by
/// `height` RGBA image when it draws the outline of the rectangle with top-left
/// corner `(left, top)` and size `w` by `h` in `color`.
pub uninterp spec fn rect_outline_drawn(
    src: Seq<u8>,
    width: u32,
    height: u32,
    left: i32,
    top: i32,
    w: u32,
    h: u32,
    color: Color,
) -> Seq<u8>;

/// The bound within which `imageproc`'s `f32` end points are exact, so that a
/// rectangle outline is drawn exactly along the rectangle's border.
pub open spec fn exact_bound() -> int {
    0x100_0000
}

/// Whether the rectangle with top-left corner `(left, top)` and size `w` by
/// `h` lies within [`exact_bound`] on every side.
pub open spec fn rect_within_exact_bound(left: i32, top: i32, w: u32, h: u32) -> bool {
    &&& -exact_bound() <= left && left + w <= exact_bound()
    &&& -exact_bound() <= top && top + h <= exact_bound()
}

/// Whether the pixel `(px, py)` lies on the border of the rectangle with
/// top-left corner `(left, top)` and size `w` by `h`.
pub open spec fn on_rect_border(px: int, py: int, left: int, top: int, w: int, h: int) -> bool {
    &&& left <= px <= left + w - 1
    &&& top <= py <= top + h - 1
    &&& (px == left || px == left + w - 1 || py == top || py == top + h - 1)
}

/// Channel `c` of the colour.
pub open spec fn channel(color: Color, c: int) -> u8 {
    if c == 0 {
        color.r
    } else if c == 1 {
        color.g
    } else if c == 2 {
        color.b
    } else {
        color.a
    }
}

/// An image `width` pixels wide whose pixels on the border of the rectangle
/// with top-left corner `(left, top)` and size `w` by `h` are set to `color`;
/// every other byte keeps its value.
pub open spec fn rect_outlined(src: Seq<u8>, width: u32, left: i32, top: i32, w: u32, h: u32, color: Color) -> Seq<u8> {
    Seq::new(
        src.len(),
        |k: int|
            if on_rect_border(column_of(width as int, k), row_of(width as int, k), left as int, top as int, w as int, h as int) {
                channel(color, k % 4)
            } else {
                src[k]
            },
    )
}

/// What `imageproc::drawing::draw_hollow_circle_mut` makes of a `width` by
/// `height` RGBA image when it draws the circle of the given centre and radius.
pub uninterp spec fn circle_outline_drawn(
    src: Seq<u8>,
    width: u32,
    height: u32,
    cx: i32,
    cy: i32,
    radius: i32,
    color: Color,
) -> Seq<u8>;

/// What `imageproc::drawing::draw_filled_circle_mut` makes of a `width` by
/// `height` RGBA image when it fills the disc of the given centre and radius.
pub uninterp spec fn disc_drawn(
    src: Seq<u8>,
    width: u32,
    height: u32,
    cx: i32,
    cy: i32,
    radius: i32,
    color: Color,
) -> Seq<u8>;

/// The bound within which `imageproc`'s drawing routines compute coordinates
/// without leaving the range of `i32` (its line algorithm steps one past the end).
pub open spec fn coordinate_bound() -> int {
    0x4000_0000
}

/// Whether the circle of this centre and non-negative radius lies within
/// [`coordinate_bound`] on every side.
pub open spec fn circle_within_bounds(cx: i32, cy: i32, radius: i32) -> bool {
    &&& radius >= 0
    &&& -coordinate_bound() <= cx - radius && cx + radius <= coordinate_bound()
    &&& -coordinate_bound() <= cy - radius && cy + radius <= coordinate_bound()
}

/// Whether the rectangle with top-left corner `(left, top)` and size `w` by
/// `h` is not empty and lies within [`coordinate_bound`] on every side.
pub open spec fn rect_within_bounds(left: i32, top: i32, w: u32, h: u32) -> bool {
    &&& 0 < w <= coordinate_bound() && 0 < h <= coordinate_bound()
    &&& -coordinate_bound() <= left && left + w <= coordinate_bound()
    &&& -coordinate_bound() <= top && top + h <= coordinate_bound()
}

/// Cuts the rectangle with top-left corner `(x, y)` and size `w` by `h` out of
/// the frame, by `image::imageops::crop_imm` and `SubImage::to_image`. The
/// result holds the pixels of that rectangle, row by row.
#[verifier::external_body]
pub(crate) fn crop_pixels(frame: &CapturedFrame, x: u32, y: u32, w: u32, h: u32) -> (out: Vec<u8>)
    requires
        frame.wf(),
        x + w <= frame.width,
        y + h <= frame.height,
    ensures
        out@ == cropped(frame.data@, frame.width as int, x as int, y as int, w as int, h as int),
{
    let img = image::RgbaImage::from_raw(frame.width, frame.height, frame.data.clone()).unwrap();
    image::imageops::crop_imm(&img, x, y, w, h).to_image().into_raw()
}

/// Overwrites the rectangle of the frame with top-left corner `(x, y)` and size
/// `w` by `h` with the `w` by `h` image `top`, by `image::imageops::replace`.
/// The frame keeps its size; its pixels outside the rectangle keep their values.
#[verifier::external_body]
pub(crate) fn replace_pixels(frame: &mut CapturedFrame, top: &Vec<u8>, x: u32, y: u32, w: u32, h: u32)
    requires
        old(frame).wf(),
        top@.len() == w * h * 4,
        x + w <= old(frame).width,
        y + h <= old(frame).height,
    ensures
        final(frame).width == old(frame).width,
        final(frame).height == old(frame).height,
        final(frame).data@ == replaced(old(frame).data@, old(frame).width as int, top@, x as int, y as int, w as int, h as int),
{
    let data = std::mem::take(&mut frame.data);
    let mut img = image::RgbaImage::from_raw(frame.width, frame.height, data).unwrap();
    let top_img = image::ImageBuffer::<image::Rgba<u8>, &[u8]>::from_raw(w, h, top.as_slice()).unwrap();
    image::imageops::replace(&mut img, &top_img, x as i64, y as i64);
    frame.data = img.into_raw();
}

/// Resizes a `width` by `height` RGBA image to `new_width` by `new_height` by
/// `image::imageops::resize` with `FilterType::Nearest`. The result is named by
/// [`resized_nearest`]. It has the new size; it is a copy of the input when the
/// size does not change; a one-pixel image is blown up into copies of its
/// pixel. Which source pixels each new pixel is taken from otherwise is left unsaid.
#[verifier::external_body]
pub(crate) fn resize_nearest(src: Vec<u8>, width: u32, height: u32, new_width: u32, new_height: u32) -> (out: Vec<u8>)
    requires
        src@.len() == width * height * 4,
        width > 0,
        height > 0,
        new_width > 0,
        new_height > 0,
        width * new_height * 4 <= usize::MAX,
        new_width * new_height * 4 <= usize::MAX,
    ensures
        out@ == resized_nearest(src@, width, height, new_width, new_height),
        out@.len() == new_width * new_height * 4,
        (new_width == width && new_height == height) ==> out@ == src@,
        (width == 1 && height == 1) ==> forall|k: int| 0 <= k < out@.len() ==> #[trigger] out@[k] == src@[k % 4],
{
    let img = image::RgbaImage::from_raw(width, height, src).unwrap();
    image::imageops::resize(&img, new_width, new_height, image::imageops::FilterType::Nearest).into_raw()
}

/// Draws the outline of the rectangle with top-left corner `(left, top)` and
/// size `w` by `h` on the frame in `color`, by
/// `imageproc::drawing::draw_hollow_rect_mut`, which draws the four edges as
/// axis-aligned lines. The frame keeps its size; the result is named by
/// [`rect_outline_drawn`]. Within [`exact_bound`], where the lines' `f32` end
/// points are exact, it sets exactly the border pixels that lie in the frame
/// and keeps every other byte ([`rect_outlined`]); beyond it, which pixels
/// change is left unsaid.
#[verifier::external_body]
pub(crate) fn draw_rect_outline(frame: &mut CapturedFrame, left: i32, top: i32, w: u32, h: u32, color: Color)
    requires
        old(frame).wf(),
        rect_within_bounds(left, top, w, h),
    ensures
        final(frame).width == old(frame).width,
        final(frame).height == old(frame).height,
        final(frame).data@ == rect_outline_drawn(old(frame).data@, old(frame).width, old(frame).height, left, top, w, h, color),
        final(frame).data@.len() == old(frame).data@.len(),
        rect_within_exact_bound(left, top, w, h) ==> final(frame).data@ == rect_outlined(
            old(frame).data@,
            old(frame).width,
            left,
            top,
            w,
            h,
            color,
        ),
{
    let data = std::mem::take(&mut frame.data);
    let mut img = image::RgbaImage::from_raw(frame.width, frame.height, data).unwrap();
    let rect = imageproc::rect::Rect::at(left, top).of_size(w, h);
    imageproc::drawing::draw_hollow_rect_mut(&mut img, rect, image::Rgba([color.r, color.g, color.b, color.a]));
    frame.data = img.into_raw();
}

/// Draws the circle of centre `(cx, cy)` and the given radius on the frame in
/// `color`, by `imageproc::drawing::draw_hollow_circle_mut`. The frame keeps
/// its size; which pixels change is named by [`circle_outline_drawn`] and left unsaid.
#[verifier::external_body]
pub(crate) fn draw_circle_outline(frame: &mut CapturedFrame, cx: i32, cy: i32, radius: i32, color: Color)
    requires
        old(frame).wf(),
        circle_within_bounds(cx, cy, radius),
    ensures
        final(frame).width == old(frame).width,
        final(frame).height == old(frame).height,
        final(frame).data@ == circle_outline_drawn(old(frame).data@, old(frame).width, old(frame).height, cx, cy, radius, color),
        final(frame).data@.len() == old(frame).data@.len(),
{
    let data = std::mem::take(&mut frame.data);
    let mut img = image::RgbaImage::from_raw(frame.width, frame.height, data).unwrap();
    imageproc::drawing::draw_hollow_circle_mut(&mut img, (cx, cy), radius, image::Rgba([color.r, color.g, color.b, color.a]));
    frame.data = img.into_raw();
}

/// Fills the disc of centre `(cx, cy)` and the given radius on the frame in
/// `color`, by `imageproc::drawing::draw_filled_circle_mut`. The frame keeps
/// its size; which pixels change is named by [`disc_drawn`] and left unsaid.
#[verifier::external_body]
pub(crate) fn draw_disc(frame: &mut CapturedFrame, cx: i32, cy: i32, radius: i32, color: Color)
    requires
        old(frame).wf(),
        circle_within_bounds(cx, cy, radius),
    ensures
        final(frame).width == old(frame).width,
        final(frame).height == old(frame).height,
        final(frame).data@ == disc_drawn(old(frame).data@, old(frame).width, old(frame).height, cx, cy, radius, color),
        final(frame).data@.len() == old(frame).data@.len(),
{
    let data = std::mem::take(&mut frame.data);
    let mut img = image::RgbaImage::from_raw(frame.width, frame.height, data).unwrap();
    imageproc::drawing::draw_filled_circle_mut(&mut img, (cx, cy), radius, image::Rgba([color.r, color.g, color.b, color.a]));
    frame.data = img.into_raw();
}

} // verus!
