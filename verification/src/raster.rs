//! Rasterizing annotations onto the captured image.
//!
//! The capture lives in an RGBA pixel buffer of the `image` crate, and the
//! circle and square outlines are drawn onto it by the `imageproc` crate.
//! The buffer's bytes and dimensions are named, each drawing call is a
//! trusted wrapper whose effect is stated over those names, and
//! `rasterize_outlines` proves that the buffer ends up with every circle
//! and every square applied in order.

use vstd::prelude::*;
use crate::painting::Color;
use crate::geometry::{Point, IRect};

verus! {

/// Centers, radii and corners handed to the rasterizer stay below this, so
/// the drawing routines' own arithmetic stays far from overflow.
pub const RASTER_BOUND: i64 = 0x100000;

/// The capture's pixels: an RGBA buffer of the `image` crate, eight bits a
/// channel, held behind a wall Verus does not look past. Its contents and
/// dimensions are reached only through `rgba_bytes` and `rgba_dims`.
#[verifier::external_body]
pub struct RgbaBuffer {
    inner: image::ImageBuffer<image::Rgba<u8>, Vec<u8>>,
}

/// The bytes an RGBA buffer holds: four channel bytes per pixel, rows one
/// after another.
pub uninterp spec fn rgba_bytes(img: RgbaBuffer) -> Seq<u8>;

/// The width and height an RGBA buffer was made with.
pub uninterp spec fn rgba_dims(img: RgbaBuffer) -> (u32, u32);

/// The bytes of a `w` by `h` RGBA raster after the outline of the circle
/// with center `(cx, cy)` and radius `radius` is drawn on `pixels` in the
/// color `(cr, cg, cb, ca)`, clipped to the raster's bounds.
pub uninterp spec fn circle_outlined(
    pixels: Seq<u8>,
    w: u32,
    h: u32,
    cx: i32,
    cy: i32,
    radius: i32,
    cr: u8,
    cg: u8,
    cb: u8,
    ca: u8,
) -> Seq<u8>;

/// The bytes of a `w` by `h` RGBA raster after the outline of the rectangle
/// with top-left corner `(x, y)`, width `rw` and height `rh` is drawn on
/// `pixels` in the color `(cr, cg, cb, ca)`, clipped to the raster's
/// bounds.
pub uninterp spec fn rect_outlined(
    pixels: Seq<u8>,
    w: u32,
    h: u32,
    x: i32,
    y: i32,
    rw: u32,
    rh: u32,
    cr: u8,
    cg: u8,
    cb: u8,
    ca: u8,
) -> Seq<u8>;

/// The bytes of the rectangle cut out of a `w` by `h` RGBA raster at
/// `(x, y)` with size `(cw, ch)`, after the cut is clamped to the raster's
/// bounds.
pub uninterp spec fn cropped_rgba(
    pixels: Seq<u8>,
    w: u32,
    h: u32,
    x: u32,
    y: u32,
    cw: u32,
    ch: u32,
) -> Seq<u8>;

/// Relies on `image::ImageBuffer::new`: a `w` by `h` RGBA buffer whose
/// pixels are all zeroed.
#[verifier::external_body]
pub fn new_rgba_buffer(w: u32, h: u32) -> (r: RgbaBuffer)
    requires
        w as nat * h as nat * 4 <= usize::MAX as nat,
    ensures
        rgba_dims(r) == (w, h),
        rgba_bytes(r).len() == w as nat * h as nat * 4,
        forall|i: int| 0 <= i < rgba_bytes(r).len() ==> rgba_bytes(r)[i] == 0u8,
{
    RgbaBuffer { inner: image::ImageBuffer::new(w, h) }
}

/// Relies on `image::ImageBuffer::from_raw`: wraps the bytes as a `w` by
/// `h` buffer exactly when they are long enough for it.
#[verifier::external_body]
pub fn rgba_buffer_from_bytes(w: u32, h: u32, bytes: Vec<u8>) -> (r: Option<RgbaBuffer>)
    ensures
        r is Some <==> w as nat * h as nat * 4 <= bytes@.len(),
        r is Some ==> rgba_dims(r.unwrap()) == (w, h) && rgba_bytes(r.unwrap()) == bytes@,
{
    image::ImageBuffer::from_raw(w, h, bytes).map(|inner| RgbaBuffer { inner })
}

/// Relies on `image::ImageBuffer::width`.
#[verifier::external_body]
pub fn buffer_width(img: &RgbaBuffer) -> (r: u32)
    ensures
        r == rgba_dims(*img).0,
{
    img.inner.width()
}

/// Relies on `image::ImageBuffer::height`.
#[verifier::external_body]
pub fn buffer_height(img: &RgbaBuffer) -> (r: u32)
    ensures
        r == rgba_dims(*img).1,
{
    img.inner.height()
}

/// Relies on `image::ImageBuffer::as_raw`: the buffer's raw bytes.
#[verifier::external_body]
pub fn buffer_bytes(img: &RgbaBuffer) -> (r: Vec<u8>)
    ensures
        r@ == rgba_bytes(*img),
{
    img.inner.as_raw().clone()
}

/// Where the channel bytes of the pixel at `(x, y)` start in the raw bytes
/// of a raster `width` pixels wide: four bytes a pixel, rows one after
/// another.
pub open spec fn pixel_base(width: u32, x: u32, y: u32) -> int {
    4 * (y as int * width as int + x as int)
}

/// Relies on `image::ImageBuffer::get_pixel`: the four channel bytes of the
/// pixel at `(x, y)`, which sit at `4 * (y * width + x)` in the raw bytes.
#[verifier::external_body]
pub fn pixel_at(img: &RgbaBuffer, x: u32, y: u32) -> (r: (
    u8,
    u8,
    u8,
    u8,
))
    requires
        x < rgba_dims(*img).0,
        y < rgba_dims(*img).1,
        rgba_bytes(*img).len() == rgba_dims(*img).0 as nat * rgba_dims(*img).1 as nat * 4,
    ensures
        r.0 == rgba_bytes(*img)[pixel_base(rgba_dims(*img).0, x, y)],
        r.1 == rgba_bytes(*img)[pixel_base(rgba_dims(*img).0, x, y) + 1],
        r.2 == rgba_bytes(*img)[pixel_base(rgba_dims(*img).0, x, y) + 2],
        r.3 == rgba_bytes(*img)[pixel_base(rgba_dims(*img).0, x, y) + 3],
{
    let p = img.inner.get_pixel(x, y);
    (p.0[0], p.0[1], p.0[2], p.0[3])
}

/// Relies on `imageproc::drawing::draw_hollow_circle_mut`: draws as much of
/// the circle's outline as lies inside the image bounds, leaving the
/// dimensions alone.
#[verifier::external_body]
pub fn draw_hollow_circle(
    img: &mut RgbaBuffer,
    cx: i32,
    cy: i32,
    radius: i32,
    c: Color,
)
    requires
        -RASTER_BOUND <= cx <= RASTER_BOUND,
        -RASTER_BOUND <= cy <= RASTER_BOUND,
        0 <= radius <= RASTER_BOUND,
    ensures
        rgba_dims(*final(img)) == rgba_dims(*old(img)),
        rgba_bytes(*final(img)) == circle_outlined(
            rgba_bytes(*old(img)),
            rgba_dims(*old(img)).0,
            rgba_dims(*old(img)).1,
            cx,
            cy,
            radius,
            c.r,
            c.g,
            c.b,
            c.a,
        ),
{
    imageproc::drawing::draw_hollow_circle_mut(
        &mut img.inner,
        (cx, cy),
        radius,
        image::Rgba([c.r, c.g, c.b, c.a]),
    );
}

/// Relies on `imageproc::drawing::draw_hollow_rect_mut`: draws as much of
/// the rectangle's outline as lies inside the image bounds, leaving the
/// dimensions alone. The rectangle's sides must be strictly positive.
#[verifier::external_body]
pub fn draw_hollow_rect(
    img: &mut RgbaBuffer,
    x: i32,
    y: i32,
    rw: u32,
    rh: u32,
    c: Color,
)
    requires
        -RASTER_BOUND <= x <= RASTER_BOUND,
        -RASTER_BOUND <= y <= RASTER_BOUND,
        1 <= rw <= RASTER_BOUND,
        1 <= rh <= RASTER_BOUND,
    ensures
        rgba_dims(*final(img)) == rgba_dims(*old(img)),
        rgba_bytes(*final(img)) == rect_outlined(
            rgba_bytes(*old(img)),
            rgba_dims(*old(img)).0,
            rgba_dims(*old(img)).1,
            x,
            y,
            rw,
            rh,
            c.r,
            c.g,
            c.b,
            c.a,
        ),
{
    let rect = imageproc::rect::Rect::at(x, y).of_size(rw, rh);
    imageproc::drawing::draw_hollow_rect_mut(&mut img.inner, rect, image::Rgba([c.r, c.g, c.b, c.a]));
}

/// The offset the crop starts at after clamping: capped at the raster's
/// extent on that axis.
pub open spec fn crop_offset(extent: u32, o: u32) -> int {
    if o <= extent {
        o as int
    } else {
        extent as int
    }
}

/// The span the crop keeps after clamping: capped at what remains of the
/// raster past the clamped offset.
pub open spec fn crop_span(extent: u32, o: u32, span: u32) -> int {
    if span <= extent - crop_offset(extent, o) {
        span as int
    } else {
        extent - crop_offset(extent, o)
    }
}

/// Relies on `image::DynamicImage::crop_imm`: cuts the rectangle out of the
/// image after clamping it to the image bounds — the offset is capped at
/// the image size and the span at what remains.
#[verifier::external_body]
pub fn crop_rgba(img: &RgbaBuffer, x: u32, y: u32, cw: u32, ch: u32) -> (r: RgbaBuffer)
    ensures
        rgba_dims(r).0 == crop_span(rgba_dims(*img).0, x, cw),
        rgba_dims(r).1 == crop_span(rgba_dims(*img).1, y, ch),
        rgba_bytes(r) == cropped_rgba(
            rgba_bytes(*img),
            rgba_dims(*img).0,
            rgba_dims(*img).1,
            x,
            y,
            cw,
            ch,
        ),
        rgba_bytes(r).len() == crop_span(rgba_dims(*img).0, x, cw) * crop_span(
            rgba_dims(*img).1,
            y,
            ch,
        ) * 4,
{
    let di = image::DynamicImage::ImageRgba8(img.inner.clone());
    RgbaBuffer { inner: di.crop_imm(x, y, cw, ch).to_rgba8() }
}

/// The raster after the first `n` circle outlines are drawn, in order.
pub open spec fn circles_applied(
    pixels: Seq<u8>,
    w: u32,
    h: u32,
    circles: Seq<(Point, i64, Color)>,
    n: int,
) -> Seq<u8>
    decreases n,
{
    if n <= 0 {
        pixels
    } else {
        let prev = circles_applied(pixels, w, h, circles, n - 1);
        let c = circles[n - 1];
        circle_outlined(
            prev,
            w,
            h,
            c.0.x as i32,
            c.0.y as i32,
            c.1 as i32,
            c.2.r,
            c.2.g,
            c.2.b,
            c.2.a,
        )
    }
}

/// The raster after the first `n` square outlines are drawn, in order, each
/// drawn at its top-left corner with its spanned width and height.
pub open spec fn rects_applied(
    pixels: Seq<u8>,
    w: u32,
    h: u32,
    squares: Seq<(IRect, Color)>,
    n: int,
) -> Seq<u8>
    decreases n,
{
    if n <= 0 {
        pixels
    } else {
        let prev = rects_applied(pixels, w, h, squares, n - 1);
        let s = squares[n - 1];
        rect_outlined(
            prev,
            w,
            h,
            s.0.min.x as i32,
            s.0.min.y as i32,
            (s.0.max.x - s.0.min.x) as u32,
            (s.0.max.y - s.0.min.y) as u32,
            s.1.r,
            s.1.g,
            s.1.b,
            s.1.a,
        )
    }
}

/// Every circle's center and radius is small enough to rasterize.
pub open spec fn circles_in_raster_range(circles: Seq<(Point, i64, Color)>) -> bool {
    forall|i: int|
        0 <= i < circles.len() ==> {
            &&& -RASTER_BOUND <= (#[trigger] circles[i]).0.x <= RASTER_BOUND
            &&& -RASTER_BOUND <= circles[i].0.y <= RASTER_BOUND
            &&& 0 <= circles[i].1 <= RASTER_BOUND
        }
}

/// Every square's corners are small enough to rasterize and it spans at
/// least one pixel each way.
pub open spec fn squares_in_raster_range(squares: Seq<(IRect, Color)>) -> bool {
    forall|i: int|
        0 <= i < squares.len() ==> {
            &&& -RASTER_BOUND <= (#[trigger] squares[i]).0.min.x <= RASTER_BOUND
            &&& -RASTER_BOUND <= squares[i].0.min.y <= RASTER_BOUND
            &&& -RASTER_BOUND <= squares[i].0.max.x <= RASTER_BOUND
            &&& -RASTER_BOUND <= squares[i].0.max.y <= RASTER_BOUND
            &&& squares[i].0.min.x + 1 <= squares[i].0.max.x
            &&& squares[i].0.min.y + 1 <= squares[i].0.max.y
            &&& squares[i].0.max.x - squares[i].0.min.x <= RASTER_BOUND
            &&& squares[i].0.max.y - squares[i].0.min.y <= RASTER_BOUND
        }
}

/// Draws every circle outline, then every square outline, onto the capture,
/// in the order the session collected them.
pub fn rasterize_outlines(
    img: &mut RgbaBuffer,
    circles: &Vec<(Point, i64, Color)>,
    squares: &Vec<(IRect, Color)>,
)
    requires
        circles_in_raster_range(circles@),
        squares_in_raster_range(squares@),
    ensures
        rgba_dims(*final(img)) == rgba_dims(*old(img)),
        rgba_bytes(*final(img)) == rects_applied(
            circles_applied(
                rgba_bytes(*old(img)),
                rgba_dims(*old(img)).0,
                rgba_dims(*old(img)).1,
                circles@,
                circles@.len() as int,
            ),
            rgba_dims(*old(img)).0,
            rgba_dims(*old(img)).1,
            squares@,
            squares@.len() as int,
        ),
{
    let ghost w = rgba_dims(*img).0;
    let ghost h = rgba_dims(*img).1;
    let ghost bytes0 = rgba_bytes(*img);
    let mut i: usize = 0;
    while i < circles.len()
        invariant
            circles_in_raster_range(circles@),
            0 <= i <= circles@.len(),
            rgba_dims(*img) == (w, h),
            rgba_bytes(*img) == circles_applied(bytes0, w, h, circles@, i as int),
        decreases circles@.len() - i,
    {
        let c = circles[i];
        draw_hollow_circle(img, c.0.x as i32, c.0.y as i32, c.1 as i32, c.2);
        i += 1;
    }
    let ghost bytes1 = rgba_bytes(*img);
    let mut j: usize = 0;
    while j < squares.len()
        invariant
            squares_in_raster_range(squares@),
            0 <= j <= squares@.len(),
            rgba_dims(*img) == (w, h),
            rgba_bytes(*img) == rects_applied(bytes1, w, h, squares@, j as int),
            bytes1 == circles_applied(bytes0, w, h, circles@, circles@.len() as int),
        decreases squares@.len() - j,
    {
        let s = squares[j];
        let rw = (s.0.max.x - s.0.min.x) as u32;
        let rh = (s.0.max.y - s.0.min.y) as u32;
        draw_hollow_rect(img, s.0.min.x as i32, s.0.min.y as i32, rw, rh, s.1);
        j += 1;
    }
}

} // verus!
