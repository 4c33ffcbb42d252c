//! Raster images as plain values: a width, a height, and four bytes for
//! each pixel (red, green, blue and alpha), row by row from the top left.

use vstd::arithmetic::div_mod::lemma_fundamental_div_mod;
use vstd::arithmetic::div_mod::lemma_fundamental_div_mod_converse;
use vstd::arithmetic::div_mod::lemma_mod_bound;
use vstd::prelude::*;

verus! {

/// Number of bytes of a pixel.
pub const CHANNELS: usize = 4;

/// A pixel is background where red, green and blue are all above this.
pub const BG_THRESHOLD: u8 = 240;

/// A pixel is content where its alpha is above this.
pub const CONTENT_ALPHA: u8 = 10;

/// A pixel.
#[derive(Debug, Clone, Copy, PartialEq, Eq, Structural)]
pub struct Rgba {
    pub r: u8,
    pub g: u8,
    pub b: u8,
    pub a: u8,
}

/// A raster image.
#[derive(Debug, Clone, PartialEq, Eq)]
pub struct Bitmap {
    pub width: u32,
    pub height: u32,
    /// The pixels' bytes, four for each pixel, row by row.
    pub pixels: Vec<u8>,
}

/// A raster image as plain values.
#[verifier::ext_equal]
pub struct BitmapView {
    pub width: u32,
    pub height: u32,
    pub pixels: Seq<u8>,
}

impl View for Bitmap {
    type V = BitmapView;

    open spec fn view(&self) -> BitmapView {
        BitmapView { width: self.width, height: self.height, pixels: self.pixels@ }
    }
}

/// A pixel without colour that lets everything behind it through.
pub open spec fn transparent() -> Rgba {
    Rgba { r: 0, g: 0, b: 0, a: 0 }
}

/// Whether a pixel is background: very light, near white.
pub open spec fn is_background(p: Rgba) -> bool {
    p.r > BG_THRESHOLD && p.g > BG_THRESHOLD && p.b > BG_THRESHOLD
}

/// A pixel with its background removed: a background pixel keeps its
/// colour and loses its alpha, any other pixel stays as it is.
pub open spec fn keyed_out(p: Rgba) -> Rgba {
    if is_background(p) {
        Rgba { a: 0, ..p }
    } else {
        p
    }
}

/// Whether a pixel is content: not transparent, or nearly so.
pub open spec fn is_content(p: Rgba) -> bool {
    p.a > CONTENT_ALPHA
}

impl BitmapView {
    /// The invariant of an image: it has four bytes for each pixel.
    pub open spec fn wf(self) -> bool {
        self.pixels.len() == CHANNELS * self.width * self.height
    }

    /// The number of pixels.
    pub open spec fn count(self) -> int {
        self.width * self.height
    }

    /// The pixel with the running number `k`, counting row by row.
    pub open spec fn pixel(self, k: int) -> Rgba {
        Rgba {
            r: self.pixels[CHANNELS * k],
            g: self.pixels[CHANNELS * k + 1],
            b: self.pixels[CHANNELS * k + 2],
            a: self.pixels[CHANNELS * k + 3],
        }
    }

    /// Whether the image has a pixel in column `x` of row `y`.
    pub open spec fn has(self, x: int, y: int) -> bool {
        0 <= x < self.width && 0 <= y < self.height
    }

    /// The pixel in column `x` of row `y`.
    pub open spec fn at(self, x: int, y: int) -> Rgba {
        self.pixel(y * self.width + x)
    }
}

/// A pixel of an image has a running number below the number of pixels,
/// and its four bytes lie within the image's bytes.
pub proof fn lemma_pixel_in_range(image: BitmapView, x: int, y: int)
    requires
        image.wf(),
        image.has(x, y),
    ensures
        0 <= y * image.width + x < image.count(),
        CHANNELS * (y * image.width + x) + 3 < image.pixels.len(),
{
    let w = image.width as int;
    let h = image.height as int;
    assert(y * w + x < w * h) by (nonlinear_arith)
        requires
            0 <= x < w,
            0 <= y < h,
    ;
    assert(0 <= y * w + x) by (nonlinear_arith)
        requires
            0 <= x < w,
            0 <= y < h,
    ;
    assert(4 * (w * h) == 4 * w * h) by (nonlinear_arith);
}

/// Two pixels of an image with the same running number are the same
/// pixel.
pub proof fn lemma_pixel_number_is_unique(width: int, x1: int, y1: int, x2: int, y2: int)
    requires
        0 <= x1 < width,
        0 <= x2 < width,
        0 <= y1,
        0 <= y2,
        y1 * width + x1 == y2 * width + x2,
    ensures
        x1 == x2,
        y1 == y2,
{
    if y1 < y2 {
        assert(y2 * width >= (y1 + 1) * width) by (nonlinear_arith)
            requires
                y1 + 1 <= y2,
                width > 0,
        ;
        assert((y1 + 1) * width == y1 * width + width) by (nonlinear_arith);
    } else if y2 < y1 {
        assert(y1 * width >= (y2 + 1) * width) by (nonlinear_arith)
            requires
                y2 + 1 <= y1,
                width > 0,
        ;
        assert((y2 + 1) * width == y2 * width + width) by (nonlinear_arith);
    }
}

impl Bitmap {
    /// The invariant of an image: it has four bytes for each pixel.
    pub open spec fn wf(&self) -> bool {
        self@.wf()
    }

    /// Whether the image has four bytes for each pixel.
    pub fn is_valid(&self) -> (valid: bool)
        ensures
            valid == self.wf(),
    {
        assert(0 <= self.width * self.height <= 0xffff_ffff * 0xffff_ffff) by (nonlinear_arith)
            requires
                0 <= self.width <= 0xffff_ffff,
                0 <= self.height <= 0xffff_ffff,
        ;
        let count: u64 = self.width as u64 * self.height as u64;
        assert(4 * (self.width * self.height) == 4 * self.width * self.height)
            by (nonlinear_arith);
        let len: u64 = self.pixels.len() as u64;
        len % 4 == 0 && len / 4 == count
    }

    /// The number of pixels.
    pub fn pixel_count(&self) -> (count: usize)
        requires
            self.wf(),
        ensures
            count == self@.count(),
            CHANNELS * count == self.pixels@.len(),
    {
        assert(4 * (self.width * self.height) == 4 * self.width * self.height)
            by (nonlinear_arith);
        self.pixels.len() / CHANNELS
    }

    /// The pixel with the running number `k`.
    pub fn pixel(&self, k: usize) -> (p: Rgba)
        requires
            self.wf(),
            k < self@.count(),
        ensures
            p == self@.pixel(k as int),
    {
        assert(4 * (self.width * self.height) == 4 * self.width * self.height)
            by (nonlinear_arith);
        assert(CHANNELS == 4);
        assert(self.pixels@.len() == 4 * (self.width * self.height));
        assert(4 * k + 3 < self.pixels.len());
        let base: usize = 4 * k;
        Rgba {
            r: self.pixels[base],
            g: self.pixels[base + 1],
            b: self.pixels[base + 2],
            a: self.pixels[base + 3],
        }
    }

    /// The running number of the pixel in column `x` of row `y`.
    pub fn number_of(&self, x: u32, y: u32) -> (k: usize)
        requires
            self.wf(),
            self@.has(x as int, y as int),
        ensures
            k == y * self.width + x,
            k < self@.count(),
    {
        proof {
            lemma_pixel_in_range(self@, x as int, y as int);
            assert(0 <= y * self.width) by (nonlinear_arith)
                requires
                    0 <= y,
                    0 <= self.width,
            ;
            assert(CHANNELS == 4);
            assert(self.pixels@.len() == 4 * (self.width * self.height)) by (nonlinear_arith)
                requires
                    self.pixels@.len() == 4 * self.width * self.height,
            ;
            assert(y * self.width <= y * self.width + x);
            assert(y * self.width + x < self.pixels.len());
        }
        y as usize * self.width as usize + x as usize
    }

    /// The pixel in column `x` of row `y`.
    pub fn get_pixel(&self, x: u32, y: u32) -> (p: Rgba)
        requires
            self.wf(),
            self@.has(x as int, y as int),
        ensures
            p == self@.at(x as int, y as int),
    {
        let k = self.number_of(x, y);
        self.pixel(k)
    }
}

/// An image with its background removed: the same size, and each pixel
/// keyed out.
pub open spec fn without_background(image: BitmapView) -> BitmapView {
    painting(image.width, image.height, |x: int, y: int| keyed_out(image.at(x, y)))
}

/// Removes the white or light background of an image by making those
/// pixels transparent.
pub fn remove_background(image: &Bitmap) -> (out: Bitmap)
    requires
        image.wf(),
    ensures
        out@ == without_background(image@),
        out.wf(),
{
    let count = image.pixel_count();
    let ghost paint = |x: int, y: int| keyed_out(image@.at(x, y));
    let mut pixels: Vec<u8> = Vec::new();
    let mut k: usize = 0;
    while k < count
        invariant
            k <= count,
            count == image@.count(),
            image.wf(),
            pixels@.len() == CHANNELS * k,
            paint == (|x: int, y: int| keyed_out(image@.at(x, y))),
            painted_upto(
                BitmapView { width: image.width, height: image.height, pixels: pixels@ },
                paint,
                k as int,
            ),
        decreases count - k,
    {
        let p = image.pixel(k);
        let alpha: u8 = if p.r > BG_THRESHOLD && p.g > BG_THRESHOLD && p.b > BG_THRESHOLD {
            0
        } else {
            p.a
        };
        let keyed = Rgba { r: p.r, g: p.g, b: p.b, a: alpha };
        let ghost before = BitmapView {
            width: image.width,
            height: image.height,
            pixels: pixels@,
        };
        pixels.push(keyed.r);
        pixels.push(keyed.g);
        pixels.push(keyed.b);
        pixels.push(keyed.a);
        proof {
            let ki = k as int;
            let wi = image.width as int;
            assert(wi > 0) by (nonlinear_arith)
                requires
                    ki < wi * image.height,
                    0 <= ki,
                    0 <= wi,
                    0 <= image.height,
            ;
            lemma_fundamental_div_mod(ki, wi);
            assert((ki / wi) * wi == wi * (ki / wi)) by (nonlinear_arith);
            assert(image@.at(ki % wi, ki / wi) == image@.pixel(ki));
            let after = BitmapView {
                width: image.width,
                height: image.height,
                pixels: pixels@,
            };
            lemma_paint_next(before, after, paint, ki, keyed);
        }
        k += 1;
    }
    let out = Bitmap { width: image.width, height: image.height, pixels };
    proof {
        assert(4 * (image.width * image.height) == 4 * image.width * image.height)
            by (nonlinear_arith);
        lemma_painted_all(out@, paint);
    }
    out
}

/// Whether the first `upto` pixels of `out` are those that `paint` gives
/// for their columns and rows.
pub open spec fn painted_upto(out: BitmapView, paint: spec_fn(int, int) -> Rgba, upto: int) -> bool {
    forall|k: int|
        0 <= k < upto ==> #[trigger] out.pixel(k) == paint(
            k % (out.width as int),
            k / (out.width as int),
        )
}

/// One of the four bytes of a pixel, in the order red, green, blue, alpha.
pub open spec fn channel_of(p: Rgba, channel: int) -> u8 {
    if channel == 0 {
        p.r
    } else if channel == 1 {
        p.g
    } else if channel == 2 {
        p.b
    } else {
        p.a
    }
}

/// The image of `width` by `height` pixels in which `paint` gives the
/// pixel of each column and row.
pub open spec fn painting(width: u32, height: u32, paint: spec_fn(int, int) -> Rgba) -> BitmapView {
    BitmapView {
        width,
        height,
        pixels: Seq::new(
            (CHANNELS * width * height) as nat,
            |byte: int|
                channel_of(
                    paint((byte / 4) % (width as int), (byte / 4) / (width as int)),
                    byte % 4,
                ),
        ),
    }
}

/// The column and the row of a running number.
pub proof fn lemma_column_and_row(width: int, x: int, y: int)
    requires
        0 <= x < width,
        0 <= y,
    ensures
        (y * width + x) % width == x,
        (y * width + x) / width == y,
{
    lemma_fundamental_div_mod_converse(y * width + x, width, y, x);
}

/// A painting has the pixel that it was painted with in each column and
/// row, and it has four bytes for each pixel.
pub proof fn lemma_painting_at(
    width: u32,
    height: u32,
    paint: spec_fn(int, int) -> Rgba,
    x: int,
    y: int,
)
    requires
        0 <= x < width,
        0 <= y < height,
    ensures
        painting(width, height, paint).wf(),
        painting(width, height, paint).at(x, y) == paint(x, y),
{
    let out = painting(width, height, paint);
    assert(0 <= CHANNELS * width * height) by (nonlinear_arith)
        requires
            0 <= width,
            0 <= height,
    ;
    lemma_pixel_in_range(out, x, y);
    lemma_column_and_row(width as int, x, y);
    let k = y * width + x;
    assert((4 * k) / 4 == k && (4 * k + 1) / 4 == k && (4 * k + 2) / 4 == k && (4 * k + 3) / 4
        == k);
    assert((4 * k) % 4 == 0 && (4 * k + 1) % 4 == 1 && (4 * k + 2) % 4 == 2 && (4 * k + 3) % 4
        == 3);
}

/// A painting without pixels has no bytes.
pub proof fn lemma_painting_wf(width: u32, height: u32, paint: spec_fn(int, int) -> Rgba)
    ensures
        painting(width, height, paint).wf(),
{
    assert(0 <= CHANNELS * width * height) by (nonlinear_arith)
        requires
            0 <= width,
            0 <= height,
    ;
}

/// An image whose pixels were all painted in the order of their running
/// numbers is the painting.
pub proof fn lemma_painted_all(out: BitmapView, paint: spec_fn(int, int) -> Rgba)
    requires
        out.wf(),
        painted_upto(out, paint, out.count()),
    ensures
        out == painting(out.width, out.height, paint),
{
    let target = painting(out.width, out.height, paint);
    assert(4 * (out.width * out.height) == 4 * out.width * out.height) by (nonlinear_arith);
    assert forall|byte: int| 0 <= byte < out.pixels.len() implies out.pixels[byte]
        == target.pixels[byte] by {
        let k = byte / 4;
        assert(0 <= k < out.count());
        assert(out.pixel(k) == paint(k % (out.width as int), k / (out.width as int)));
        assert(byte == 4 * k + byte % 4);
    }
    assert(out.pixels =~= target.pixels);
}

/// Appending the bytes of the next pixel keeps what was painted and
/// paints one pixel more.
pub proof fn lemma_paint_next(
    before: BitmapView,
    after: BitmapView,
    paint: spec_fn(int, int) -> Rgba,
    k: int,
    p: Rgba,
)
    requires
        0 <= k,
        before.width == after.width,
        before.pixels.len() == CHANNELS * k,
        after.pixels == before.pixels.push(p.r).push(p.g).push(p.b).push(p.a),
        painted_upto(before, paint, k),
        p == paint(k % (after.width as int), k / (after.width as int)),
    ensures
        painted_upto(after, paint, k + 1),
        after.pixels.len() == CHANNELS * (k + 1),
{
    assert forall|j: int| 0 <= j < k + 1 implies #[trigger] after.pixel(j) == paint(
        j % (after.width as int),
        j / (after.width as int),
    ) by {
        if j < k {
            assert(before.pixel(j) == paint(j % (before.width as int), j / (before.width as int)));
            assert(after.pixel(j) == before.pixel(j));
        } else {
            assert(after.pixel(k) == p);
        }
    }
}

/// The rectangle that is left of a requested one inside an image of
/// `image_width` by `image_height` pixels: the corner is moved into the
/// image, and the sides are cut to what the image has from there.
pub open spec fn clamped_rect(
    image_width: u32,
    image_height: u32,
    x: u32,
    y: u32,
    width: u32,
    height: u32,
) -> (u32, u32, u32, u32) {
    let left = if x < image_width {
        x
    } else {
        image_width
    };
    let top = if y < image_height {
        y
    } else {
        image_height
    };
    (left, top, if width < image_width - left {
        width
    } else {
        (image_width - left) as u32
    }, if height < image_height - top {
        height
    } else {
        (image_height - top) as u32
    })
}

/// The cut-out of `image` at the rectangle asked for, as far as the
/// rectangle lies inside the image.
pub open spec fn cut_out(image: BitmapView, x: u32, y: u32, width: u32, height: u32) -> BitmapView {
    let (left, top, w, h) = clamped_rect(image.width, image.height, x, y, width, height);
    painting(w, h, |i: int, j: int| image.at(left + i, top + j))
}

impl Bitmap {
    /// A copy of the image.
    pub fn duplicate(&self) -> (copy: Bitmap)
        ensures
            copy@ == self@,
    {
        let copy = Bitmap { width: self.width, height: self.height, pixels: self.pixels.clone() };
        assert(copy.pixels@ =~= self.pixels@);
        copy
    }
}

/// Cuts a rectangle out of an image. A rectangle that reaches beyond the
/// image gives what the image has of it, which may be nothing.
pub fn crop(image: &Bitmap, x: u32, y: u32, width: u32, height: u32) -> (out: Bitmap)
    requires
        image.wf(),
    ensures
        out@ == cut_out(image@, x, y, width, height),
        out.wf(),
{
    let left: u32 = if x < image.width {
        x
    } else {
        image.width
    };
    let top: u32 = if y < image.height {
        y
    } else {
        image.height
    };
    let w: u32 = if width < image.width - left {
        width
    } else {
        image.width - left
    };
    let h: u32 = if height < image.height - top {
        height
    } else {
        image.height - top
    };
    let ghost paint = |i: int, j: int| image@.at(left + i, top + j);
    proof {
        assert(0 <= w * h <= image.width * image.height) by (nonlinear_arith)
            requires
                0 <= w <= image.width,
                0 <= h <= image.height,
        ;
        assert(4 * (image.width * image.height) == 4 * image.width * image.height)
            by (nonlinear_arith);
        assert(4 * (w * h) == 4 * w * h) by (nonlinear_arith);
        assert(image.pixels.len() == image.pixels@.len());
    }
    let count: usize = w as usize * h as usize;
    let mut pixels: Vec<u8> = Vec::new();
    let mut k: usize = 0;
    while k < count
        invariant
            k <= count,
            count == w * h,
            image.wf(),
            left + w <= image.width,
            top + h <= image.height,
            pixels@.len() == CHANNELS * k,
            paint == (|i: int, j: int| image@.at(left + i, top + j)),
            painted_upto(BitmapView { width: w, height: h, pixels: pixels@ }, paint, k as int),
        decreases count - k,
    {
        proof {
            assert(w > 0) by (nonlinear_arith)
                requires
                    k < w * h,
                    0 <= k,
                    0 <= w,
                    0 <= h,
            ;
            lemma_fundamental_div_mod(k as int, w as int);
            lemma_mod_bound(k as int, w as int);
            assert(k / (w as usize) < h) by (nonlinear_arith)
                requires
                    k < w * h,
                    w > 0,
                    k == w * (k as int / w as int) + (k as int % w as int),
                    0 <= k as int % w as int,
            ;
        }
        let i: u32 = (k % (w as usize)) as u32;
        let j: u32 = (k / (w as usize)) as u32;
        let p = image.get_pixel(left + i, top + j);
        let ghost before = BitmapView { width: w, height: h, pixels: pixels@ };
        pixels.push(p.r);
        pixels.push(p.g);
        pixels.push(p.b);
        pixels.push(p.a);
        proof {
            let after = BitmapView { width: w, height: h, pixels: pixels@ };
            lemma_paint_next(before, after, paint, k as int, p);
        }
        k += 1;
    }
    let out = Bitmap { width: w, height: h, pixels };
    proof {
        assert(4 * (w * h) == 4 * w * h) by (nonlinear_arith);
        lemma_painted_all(out@, paint);
    }
    out
}

/// Whether column `x` of row `y` of `image` holds content.
pub open spec fn content_at(image: BitmapView, x: int, y: int) -> bool {
    image.has(x, y) && is_content(image.at(x, y))
}

/// Whether any pixel of `image` is content.
pub open spec fn has_content(image: BitmapView) -> bool {
    exists|x: int, y: int| content_at(image, x, y)
}

/// Whether a rectangle, given by its corner, width and height, is the
/// bounding box of the content of `image`: all content lies in it, and
/// content touches each of its four sides.
pub open spec fn is_content_box(image: BitmapView, rect: (u32, u32, u32, u32)) -> bool {
    let (left, top, width, height) = rect;
    let right = left + width - 1;
    let bottom = top + height - 1;
    &&& width >= 1
    &&& height >= 1
    &&& left + width <= image.width
    &&& top + height <= image.height
    &&& forall|x: int, y: int| #[trigger]
        content_at(image, x, y) ==> left <= x <= right && top <= y <= bottom
    &&& exists|y: int| #[trigger] content_at(image, left as int, y)
    &&& exists|y: int| #[trigger] content_at(image, right, y)
    &&& exists|x: int| #[trigger] content_at(image, x, top as int)
    &&& exists|x: int| #[trigger] content_at(image, x, bottom)
}

/// The bounding box of the content of an image, as corner, width and
/// height. An image without content has none, but for the image without
/// any pixel, which has the box of one pixel at the origin.
pub open spec fn content_bounds(image: BitmapView) -> Option<(u32, u32, u32, u32)> {
    if has_content(image) {
        Some(choose|rect: (u32, u32, u32, u32)| is_content_box(image, rect))
    } else if image.width == 0 && image.height == 0 {
        Some((0u32, 0u32, 1u32, 1u32))
    } else {
        None
    }
}

/// An image has at most one bounding box of its content.
pub proof fn lemma_content_box_is_unique(
    image: BitmapView,
    a: (u32, u32, u32, u32),
    b: (u32, u32, u32, u32),
)
    requires
        is_content_box(image, a),
        is_content_box(image, b),
    ensures
        a == b,
{
    let a_right = a.0 + a.2 - 1;
    let a_bottom = a.1 + a.3 - 1;
    let b_right = b.0 + b.2 - 1;
    let b_bottom = b.1 + b.3 - 1;
    let ya = choose|y: int| #[trigger] content_at(image, a.0 as int, y);
    let yb = choose|y: int| #[trigger] content_at(image, b.0 as int, y);
    assert(content_at(image, a.0 as int, ya));
    assert(content_at(image, b.0 as int, yb));
    let ya2 = choose|y: int| #[trigger] content_at(image, a_right, y);
    let yb2 = choose|y: int| #[trigger] content_at(image, b_right, y);
    assert(content_at(image, a_right, ya2));
    assert(content_at(image, b_right, yb2));
    let xa = choose|x: int| #[trigger] content_at(image, x, a.1 as int);
    let xb = choose|x: int| #[trigger] content_at(image, x, b.1 as int);
    assert(content_at(image, xa, a.1 as int));
    assert(content_at(image, xb, b.1 as int));
    let xa2 = choose|x: int| #[trigger] content_at(image, x, a_bottom);
    let xb2 = choose|x: int| #[trigger] content_at(image, x, b_bottom);
    assert(content_at(image, xa2, a_bottom));
    assert(content_at(image, xb2, b_bottom));
}

/// Finds the bounding box of the content of an image.
pub fn find_content_bounds(image: &Bitmap) -> (bounds: Option<(u32, u32, u32, u32)>)
    requires
        image.wf(),
    ensures
        bounds == content_bounds(image@),
        bounds matches Some(rect) ==> rect.2 >= 1 && rect.3 >= 1,
        has_content(image@) ==> bounds is Some && is_content_box(image@, bounds->0),
{
    let count = image.pixel_count();
    let w: usize = image.width as usize;
    let mut min_x: u32 = image.width;
    let mut min_y: u32 = image.height;
    let mut max_x: u32 = 0;
    let mut max_y: u32 = 0;
    let ghost mut found = false;
    let ghost mut at_min_x: int = 0;
    let ghost mut at_max_x: int = 0;
    let ghost mut at_min_y: int = 0;
    let ghost mut at_max_y: int = 0;
    let mut k: usize = 0;
    while k < count
        invariant
            k <= count,
            count == image@.count(),
            w == image.width,
            image.wf(),
            !found ==> min_x == image.width && min_y == image.height && max_x == 0 && max_y
                == 0,
            !found ==> forall|j: int| 0 <= j < k ==> !is_content(#[trigger] image@.pixel(j)),
            found ==> min_x <= max_x < image.width && min_y <= max_y < image.height,
            found ==> forall|j: int|
                0 <= j < k && is_content(#[trigger] image@.pixel(j)) ==> min_x <= j % (w as int)
                    <= max_x && min_y <= j / (w as int) <= max_y,
            found ==> content_at(image@, min_x as int, at_min_x) && content_at(
                image@,
                max_x as int,
                at_max_x,
            ) && content_at(image@, at_min_y, min_y as int) && content_at(
                image@,
                at_max_y,
                max_y as int,
            ),
        decreases count - k,
    {
        proof {
            assert(w > 0) by (nonlinear_arith)
                requires
                    k < w * image.height,
                    0 <= k,
                    0 <= w,
                    0 <= image.height,
            ;
            let ki = k as int;
            let wi = w as int;
            lemma_fundamental_div_mod(ki, wi);
            lemma_mod_bound(ki, wi);
            assert(ki / wi < image.height) by (nonlinear_arith)
                requires
                    ki < wi * image.height,
                    wi > 0,
                    ki == wi * (ki / wi) + (ki % wi),
                    0 <= ki % wi,
            ;
            assert((ki / wi) * wi == wi * (ki / wi)) by (nonlinear_arith);
        }
        let p = image.pixel(k);
        if p.a > CONTENT_ALPHA {
            let x: u32 = (k % w) as u32;
            let y: u32 = (k / w) as u32;
            assert(image@.at(x as int, y as int) == image@.pixel(k as int));
            assert(content_at(image@, x as int, y as int));
            if x < min_x {
                min_x = x;
                proof {
                    at_min_x = y as int;
                }
            }
            if y < min_y {
                min_y = y;
                proof {
                    at_min_y = x as int;
                }
            }
            proof {
                if x > max_x || !found {
                    at_max_x = y as int;
                }
                if y > max_y || !found {
                    at_max_y = x as int;
                }
            }
            if x > max_x {
                max_x = x;
            }
            if y > max_y {
                max_y = y;
            }
            proof {
                found = true;
            }
        }
        k += 1;
    }
    proof {
        if found {
            let rect = (min_x, min_y, (max_x - min_x + 1) as u32, (max_y - min_y + 1) as u32);
            assert forall|x: int, y: int| #[trigger]
                content_at(image@, x, y) implies min_x <= x <= max_x && min_y <= y <= max_y by {
                lemma_pixel_in_range(image@, x, y);
                lemma_column_and_row(image.width as int, x, y);
                assert(is_content(image@.pixel(y * image.width + x)));
            }
            assert(rect.0 + rect.2 - 1 == max_x && rect.1 + rect.3 - 1 == max_y);
            assert(content_at(image@, rect.0 as int, at_min_x));
            assert(content_at(image@, rect.0 + rect.2 - 1, at_max_x));
            assert(content_at(image@, at_min_y, rect.1 as int));
            assert(content_at(image@, at_max_y, rect.1 + rect.3 - 1));
            assert(is_content_box(image@, rect));
            assert(has_content(image@));
            lemma_content_box_is_unique(
                image@,
                rect,
                choose|r: (u32, u32, u32, u32)| is_content_box(image@, r),
            );
        } else {
            assert forall|x: int, y: int| !content_at(image@, x, y) by {
                if image@.has(x, y) {
                    lemma_pixel_in_range(image@, x, y);
                    assert(!is_content(image@.pixel(y * image.width + x)));
                }
            }
            assert(!has_content(image@));
        }
    }
    if max_x >= min_x && max_y >= min_y {
        Some((min_x, min_y, max_x - min_x + 1, max_y - min_y + 1))
    } else {
        None
    }
}

/// Half of what `target` has more than `content`, and nothing where it
/// has no more: the space to leave before content that is to sit in the
/// middle.
pub open spec fn centering_offset(target: u32, content: u32) -> u32 {
    if target > content {
        ((target - content) / 2) as u32
    } else {
        0
    }
}

/// The pixel in column `x` of row `y` of the image that shows the
/// rectangle `bounds` of `image` in the middle of `target_width` by
/// `target_height` pixels: a pixel of the rectangle where one falls there
/// and the image has it, and a transparent one anywhere else.
pub open spec fn centered_pixel(
    image: BitmapView,
    bounds: (u32, u32, u32, u32),
    target_width: u32,
    target_height: u32,
    x: int,
    y: int,
) -> Rgba {
    let (left, top, width, height) = bounds;
    let i = x - centering_offset(target_width, width);
    let j = y - centering_offset(target_height, height);
    if 0 <= i < width && 0 <= j < height && image.has(left + i, top + j) {
        image.at(left + i, top + j)
    } else {
        transparent()
    }
}

/// An image with its content centred in a frame of `target_width` by
/// `target_height` pixels. An image that has no bounding box of content is
/// left as it is.
pub open spec fn centered(image: BitmapView, target_width: u32, target_height: u32) -> BitmapView {
    match content_bounds(image) {
        None => image,
        Some(bounds) => painting(
            target_width,
            target_height,
            |x: int, y: int| centered_pixel(image, bounds, target_width, target_height, x, y),
        ),
    }
}

/// Whether an image of `width` by `height` pixels has a number of bytes
/// that fits in `usize`.
pub open spec fn fits_in_memory(width: u32, height: u32) -> bool {
    CHANNELS * width * height <= usize::MAX
}

/// Centres the content of an image in a frame of the given size, so that
/// the frames of an animation do not shift against each other.
pub fn center_content(image: &Bitmap, target_width: u32, target_height: u32) -> (out: Bitmap)
    requires
        image.wf(),
        fits_in_memory(target_width, target_height),
    ensures
        out@ == centered(image@, target_width, target_height),
        out.wf(),
{
    let bounds = match find_content_bounds(image) {
        Some(bounds) => bounds,
        None => {
            return image.duplicate();
        },
    };
    let (left, top, content_w, content_h) = bounds;
    let offset_x: u32 = target_width.saturating_sub(content_w) / 2;
    let offset_y: u32 = target_height.saturating_sub(content_h) / 2;
    let ghost paint = |x: int, y: int|
        centered_pixel(image@, bounds, target_width, target_height, x, y);
    proof {
        assert(0 <= target_width * target_height) by (nonlinear_arith)
            requires
                0 <= target_width,
                0 <= target_height,
        ;
        assert(4 * (target_width * target_height) == 4 * target_width * target_height)
            by (nonlinear_arith);
    }
    let w: usize = target_width as usize;
    let count: usize = w * target_height as usize;
    let mut pixels: Vec<u8> = Vec::new();
    let mut k: usize = 0;
    while k < count
        invariant
            k <= count,
            count == target_width * target_height,
            w == target_width,
            image.wf(),
            offset_x == centering_offset(target_width, content_w),
            offset_y == centering_offset(target_height, content_h),
            bounds == (left, top, content_w, content_h),
            pixels@.len() == CHANNELS * k,
            paint == (|x: int, y: int|
                centered_pixel(image@, bounds, target_width, target_height, x, y)),
            painted_upto(
                BitmapView { width: target_width, height: target_height, pixels: pixels@ },
                paint,
                k as int,
            ),
        decreases count - k,
    {
        proof {
            let ki = k as int;
            let wi = w as int;
            assert(wi > 0) by (nonlinear_arith)
                requires
                    ki < wi * target_height,
                    0 <= ki,
                    0 <= wi,
                    0 <= target_height,
            ;
            lemma_fundamental_div_mod(ki, wi);
            lemma_mod_bound(ki, wi);
            assert(ki / wi < target_height) by (nonlinear_arith)
                requires
                    ki < wi * target_height,
                    wi > 0,
                    ki == wi * (ki / wi) + (ki % wi),
                    0 <= ki % wi,
            ;
        }
        let x: u32 = (k % w) as u32;
        let y: u32 = (k / w) as u32;
        let mut p = Rgba { r: 0, g: 0, b: 0, a: 0 };
        if x >= offset_x && y >= offset_y {
            let i: u32 = x - offset_x;
            let j: u32 = y - offset_y;
            if i < content_w && j < content_h && left < image.width && i < image.width - left
                && top < image.height && j < image.height - top {
                p = image.get_pixel(left + i, top + j);
            }
        }
        let ghost before = BitmapView {
            width: target_width,
            height: target_height,
            pixels: pixels@,
        };
        pixels.push(p.r);
        pixels.push(p.g);
        pixels.push(p.b);
        pixels.push(p.a);
        proof {
            let after = BitmapView {
                width: target_width,
                height: target_height,
                pixels: pixels@,
            };
            lemma_paint_next(before, after, paint, k as int, p);
        }
        k += 1;
    }
    let out = Bitmap { width: target_width, height: target_height, pixels };
    proof {
        lemma_painted_all(out@, paint);
    }
    out
}

/// What the `image` crate decodes from the bytes of an image file, as
/// eight-bit RGBA pixels; `None` where it decodes nothing.
pub uninterp spec fn decoded_image(bytes: Seq<u8>) -> Option<BitmapView>;

/// The bytes of the PNG file that the `image` crate writes for an image;
/// `None` where it writes none.
pub uninterp spec fn png_encoding(image: BitmapView) -> Option<Seq<u8>>;

/// The view of an image that may be missing.
pub open spec fn view_of(image: Option<Bitmap>) -> Option<BitmapView> {
    match image {
        Some(bitmap) => Some(bitmap@),
        None => None,
    }
}

/// The contents of a byte vector that may be missing.
pub open spec fn bytes_of(bytes: Option<Vec<u8>>) -> Option<Seq<u8>> {
    match bytes {
        Some(b) => Some(b@),
        None => None,
    }
}

/// `image::load_from_memory`, with the result brought to eight-bit RGBA
/// by `DynamicImage::to_rgba8`: the decoded image, which depends on the
/// bytes alone, or nothing where the bytes are no image that the crate
/// reads.
#[verifier::external_body]
pub(crate) fn decode_rgba(bytes: &[u8]) -> (image: Option<Bitmap>)
    ensures
        view_of(image) == decoded_image(bytes@),
{
    match image::load_from_memory(bytes) {
        Ok(decoded) => {
            let rgba = decoded.to_rgba8();
            Some(Bitmap { width: rgba.width(), height: rgba.height(), pixels: rgba.into_raw() })
        },
        Err(_) => None,
    }
}

/// `DynamicImage::write_to` with `ImageFormat::Png`, on the image built by
/// `ImageBuffer::from_raw`: the bytes of the PNG file, which depend on the
/// image alone, or nothing where the crate does not write it. The image
/// must have exactly four bytes for each pixel: the encoder stops the
/// program on a buffer of any other length.
#[verifier::external_body]
pub(crate) fn encode_png(bitmap: &Bitmap) -> (bytes: Option<Vec<u8>>)
    requires
        bitmap.wf(),
    ensures
        bytes_of(bytes) == png_encoding(bitmap@),
{
    let buffer = image::RgbaImage::from_raw(bitmap.width, bitmap.height, bitmap.pixels.clone())?;
    let mut bytes = Vec::new();
    image::DynamicImage::ImageRgba8(buffer).write_to(
        &mut std::io::Cursor::new(&mut bytes),
        image::ImageFormat::Png,
    ).ok()?;
    Some(bytes)
}

/// Decodes the bytes of an image file. The result is an image with four
/// bytes for each pixel, or nothing.
pub fn decode(bytes: &[u8]) -> (image: Option<Bitmap>)
    ensures
        view_of(image) == match decoded_image(bytes@) {
            Some(decoded) => if decoded.wf() {
                Some(decoded)
            } else {
                None
            },
            None => None,
        },
        image matches Some(bitmap) ==> bitmap.wf(),
{
    match decode_rgba(bytes) {
        Some(bitmap) => if bitmap.is_valid() {
            Some(bitmap)
        } else {
            None
        },
        None => None,
    }
}

} // verus!
