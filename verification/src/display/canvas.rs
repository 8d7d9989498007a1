//! RGBA canvases that decoded images are copied into: the 800x100 touchscreen
//! strip of the Stream Deck +, assembled from segments, and the 248x58 info
//! bar of the Neo, which arrives upside down.

use vstd::prelude::*;

verus! {

/// Width of the Stream Deck + touchscreen, in pixels.
pub const LCD_WIDTH: usize = 800;
/// Height of the Stream Deck + touchscreen, in pixels.
pub const LCD_HEIGHT: usize = 100;
/// Width of the Neo info bar, in pixels.
pub const INFO_BAR_WIDTH: usize = 248;
/// Height of the Neo info bar, in pixels.
pub const INFO_BAR_HEIGHT: usize = 58;

/// Index of byte `k` of pixel (x, y) in a row-major RGBA buffer `w` pixels wide.
pub open spec fn pixel_index(w: int, x: int, y: int, k: int) -> int {
    (y * w + x) * 4 + k
}

/// Abstract canvas.
pub struct CanvasView {
    pub width: nat,
    pub height: nat,
    pub pixels: Seq<u8>,
}

/// Whether (x, y, k) names a byte of a `w` x `h` canvas.
pub open spec fn in_canvas(w: nat, h: nat, x: int, y: int, k: int) -> bool {
    0 <= x < w && 0 <= y < h && 0 <= k < 4
}

/// The canvas after copying a `img_w` x `img_h` RGBA image to (x_off, y_off):
/// the pixels under the image take the image's values, the part of the image
/// past the canvas's edges is dropped, and every other pixel keeps its value.
pub open spec fn placed(
    before: CanvasView,
    after: CanvasView,
    src: Seq<u8>,
    img_w: nat,
    img_h: nat,
    x_off: nat,
    y_off: nat,
) -> bool {
    &&& after.width == before.width
    &&& after.height == before.height
    &&& after.pixels.len() == before.pixels.len()
    &&& forall|x: int, y: int, k: int|
        #![trigger after.pixels[pixel_index(before.width as int, x, y, k)]]
        in_canvas(before.width, before.height, x, y, k) ==> after.pixels[pixel_index(before.width as int, x, y, k)] == if x_off <= x
            < x_off + img_w && y_off <= y < y_off + img_h {
            src[pixel_index(img_w as int, x - x_off, y - y_off, k)]
        } else {
            before.pixels[pixel_index(before.width as int, x, y, k)]
        }
}

/// The canvas after copying the top-left `cw` x `ch` pixels of a `img_w` wide
/// RGBA image turned by 180 degrees into its top-left corner, with
/// `cw = min(img_w, width)` and `ch = min(img_h, height)`: pixel (x, y) takes
/// image pixel (cw - 1 - x, ch - 1 - y); every other pixel keeps its value.
pub open spec fn placed_turned(before: CanvasView, after: CanvasView, src: Seq<u8>, img_w: nat, img_h: nat) -> bool {
    let cw = if img_w < before.width { img_w } else { before.width };
    let ch = if img_h < before.height { img_h } else { before.height };
    &&& after.width == before.width
    &&& after.height == before.height
    &&& after.pixels.len() == before.pixels.len()
    &&& forall|x: int, y: int, k: int|
        #![trigger after.pixels[pixel_index(before.width as int, x, y, k)]]
        in_canvas(before.width, before.height, x, y, k) ==> after.pixels[pixel_index(before.width as int, x, y, k)] == if x
            < cw && y < ch {
            src[pixel_index(img_w as int, cw - 1 - x, ch - 1 - y, k)]
        } else {
            before.pixels[pixel_index(before.width as int, x, y, k)]
        }
}

/// A byte of a pixel inside a `w` x `h` canvas lies in its buffer.
pub(crate) proof fn lemma_index_in_bounds(w: int, h: int, x: int, y: int, k: int)
    requires
        0 <= x < w,
        0 <= y < h,
        0 <= k < 4,
    ensures
        0 <= y * w,
        0 <= y * w + x < w * h,
        0 <= pixel_index(w, x, y, k) < w * h * 4,
        pixel_index(w, x, y, k) == pixel_index(w, x, y, 0) + k,
{
    assert(0 <= y * w) by (nonlinear_arith)
        requires
            0 <= y,
            0 <= w,
    ;
    assert(y * w + x < w * h) by (nonlinear_arith)
        requires
            0 <= x < w,
            0 <= y < h,
    ;
}

/// Distinct bytes of pixels inside a row of width `w` have distinct indices.
pub(crate) proof fn lemma_index_injective(w: int, x1: int, y1: int, k1: int, x2: int, y2: int, k2: int)
    requires
        0 <= x1 < w,
        0 <= x2 < w,
        0 <= y1,
        0 <= y2,
        0 <= k1 < 4,
        0 <= k2 < 4,
        pixel_index(w, x1, y1, k1) == pixel_index(w, x2, y2, k2),
    ensures
        x1 == x2 && y1 == y2 && k1 == k2,
{
    assert(y1 * w + x1 == y2 * w + x2 && k1 == k2);
    if y1 < y2 {
        assert(y1 * w + w <= y2 * w) by (nonlinear_arith)
            requires
                y1 < y2,
                0 <= w,
        ;
    } else if y2 < y1 {
        assert(y2 * w + w <= y1 * w) by (nonlinear_arith)
            requires
                y2 < y1,
                0 <= w,
        ;
    }
}

/// A fixed-size RGBA canvas, row by row, 4 bytes per pixel.
#[derive(Debug)]
pub struct PixelCanvas {
    width: usize,
    height: usize,
    pixels: Vec<u8>,
}

impl View for PixelCanvas {
    type V = CanvasView;

    closed spec fn view(&self) -> CanvasView {
        CanvasView { width: self.width as nat, height: self.height as nat, pixels: self.pixels@ }
    }
}

impl PixelCanvas {
    /// The buffer holds four bytes per pixel.
    pub open spec fn wf(&self) -> bool {
        self@.pixels.len() == self@.width * self@.height * 4
    }

    /// A black, fully transparent canvas of `width` x `height` pixels.
    pub fn new(width: usize, height: usize) -> (r: Self)
        requires
            width * height * 4 <= usize::MAX,
        ensures
            r.wf(),
            r@.width == width,
            r@.height == height,
            r@.pixels == Seq::new((width * height * 4) as nat, |i: int| 0u8),
    {
        assert(0 <= width * height) by (nonlinear_arith);
        let n: usize = width * height * 4;
        let mut pixels: Vec<u8> = Vec::new();
        while pixels.len() < n
            invariant
                pixels@.len() <= n,
                forall|i: int| 0 <= i < pixels@.len() ==> pixels@[i] == 0u8,
            decreases n - pixels@.len(),
        {
            pixels.push(0u8);
        }
        let r = PixelCanvas { width, height, pixels };
        assert(r@.pixels =~= Seq::new((width * height * 4) as nat, |i: int| 0u8));
        r
    }

    /// The black canvas of the Stream Deck + touchscreen, 800 x 100.
    pub fn touchscreen() -> (r: Self)
        ensures
            r.wf(),
            r@.width == LCD_WIDTH,
            r@.height == LCD_HEIGHT,
            r@.pixels == Seq::new((LCD_WIDTH * LCD_HEIGHT * 4) as nat, |i: int| 0u8),
    {
        PixelCanvas::new(LCD_WIDTH, LCD_HEIGHT)
    }

    /// The black canvas of the Neo info bar, 248 x 58.
    pub fn info_bar() -> (r: Self)
        ensures
            r.wf(),
            r@.width == INFO_BAR_WIDTH,
            r@.height == INFO_BAR_HEIGHT,
            r@.pixels == Seq::new((INFO_BAR_WIDTH * INFO_BAR_HEIGHT * 4) as nat, |i: int| 0u8),
    {
        PixelCanvas::new(INFO_BAR_WIDTH, INFO_BAR_HEIGHT)
    }

    /// Width in pixels.
    pub fn width(&self) -> (r: usize)
        ensures
            r == self@.width,
    {
        self.width
    }

    /// Height in pixels.
    pub fn height(&self) -> (r: usize)
        ensures
            r == self@.height,
    {
        self.height
    }

    /// The RGBA bytes, row by row: four per pixel.
    pub fn pixels(&self) -> (r: &[u8])
        ensures
            r@ == self@.pixels,
    {
        self.pixels.as_slice()
    }

    /// Writes the 4 bytes of pixel (x, y) from `src` starting at `from`.
    fn put_pixel(&mut self, x: usize, y: usize, src: &[u8], from: usize)
        requires
            old(self).wf(),
            x < old(self)@.width,
            y < old(self)@.height,
            from + 4 <= src@.len(),
        ensures
            final(self)@.width == old(self)@.width,
            final(self)@.height == old(self)@.height,
            final(self)@.pixels.len() == old(self)@.pixels.len(),
            forall|x2: int, y2: int, k: int|
                #![trigger final(self)@.pixels[pixel_index(old(self)@.width as int, x2, y2, k)]]
                in_canvas(old(self)@.width, old(self)@.height, x2, y2, k) ==> final(self)@.pixels[pixel_index(
                    old(self)@.width as int,
                    x2,
                    y2,
                    k,
                )] == if x2 == x && y2 == y {
                    src@[from + k]
                } else {
                    old(self)@.pixels[pixel_index(old(self)@.width as int, x2, y2, k)]
                },
    {
        proof {
            lemma_index_in_bounds(self.width as int, self.height as int, x as int, y as int, 3);
            lemma_index_in_bounds(self.width as int, self.height as int, x as int, y as int, 0);
        }
        let ghost before = self.pixels@;
        let buffer_len = self.pixels.len();
        assert(buffer_len == self@.width * self@.height * 4);
        let w = self.width;
        let base = (y * w + x) * 4;
        assert(base == pixel_index(w as int, x as int, y as int, 0));
        self.pixels.set(base, src[from]);
        self.pixels.set(base + 1, src[from + 1]);
        self.pixels.set(base + 2, src[from + 2]);
        self.pixels.set(base + 3, src[from + 3]);
        proof {
            assert forall|x2: int, y2: int, k: int|
                #![trigger self.pixels@[pixel_index(w as int, x2, y2, k)]]
                in_canvas(self.width as nat, self.height as nat, x2, y2, k) implies self.pixels@[pixel_index(
                    w as int,
                    x2,
                    y2,
                    k,
                )] == if x2 == x && y2 == y {
                    src@[from + k]
                } else {
                    before[pixel_index(w as int, x2, y2, k)]
                } by {
                lemma_index_in_bounds(w as int, self.height as int, x2, y2, k);
                if x2 == x && y2 == y {
                    assert(pixel_index(w as int, x2, y2, k) == base + k);
                } else {
                    let i2 = pixel_index(w as int, x2, y2, k);
                    if base <= i2 < base + 4 {
                        lemma_index_injective(w as int, x2, y2, k, x as int, y as int, i2 - base);
                    }
                }
            }
        }
    }

    /// Copies a `img_w` x `img_h` RGBA image (`src`, row by row) to
    /// (x_off, y_off), dropping what falls past the right or bottom edge.
    pub fn place(&mut self, src: &[u8], img_w: usize, img_h: usize, x_off: u16, y_off: u16)
        requires
            old(self).wf(),
            img_w * img_h * 4 <= src@.len(),
        ensures
            final(self).wf(),
            placed(old(self)@, final(self)@, src@, img_w as nat, img_h as nat, x_off as nat, y_off as nat),
    {
        let ghost start = self@;
        let src_len = src.len();
        assert(img_w * img_h * 4 <= src_len);
        let w = self.width;
        let h = self.height;
        let xo = x_off as usize;
        let yo = y_off as usize;
        let copy_w: usize = if xo >= w { 0 } else if img_w < w - xo { img_w } else { w - xo };
        let copy_h: usize = if yo >= h { 0 } else if img_h < h - yo { img_h } else { h - yo };
        let mut row: usize = 0;
        while row < copy_h
            invariant
                self@.width == w,
                self@.height == h,
                self@.pixels.len() == start.pixels.len(),
                self.wf(),
                start.width == w,
                start.height == h,
                img_w * img_h * 4 <= src@.len(),
                src@.len() <= usize::MAX,
                copy_w <= img_w,
                copy_h <= img_h,
                xo == x_off,
                yo == y_off,
                copy_w == (if xo >= w { 0 } else if img_w < w - xo { img_w as int } else { w - xo }),
                copy_h == (if yo >= h { 0 } else if img_h < h - yo { img_h as int } else { h - yo }),
                row <= copy_h,
                forall|x: int, y: int, k: int|
                    #![trigger self@.pixels[pixel_index(w as int, x, y, k)]]
                    in_canvas(w as nat, h as nat, x, y, k) ==> self@.pixels[pixel_index(w as int, x, y, k)] == if xo
                        <= x < xo + img_w && yo <= y < yo + row {
                        src@[pixel_index(img_w as int, x - xo, y - yo, k)]
                    } else {
                        start.pixels[pixel_index(w as int, x, y, k)]
                    },
            decreases copy_h - row,
        {
            let mut col: usize = 0;
            while col < copy_w
                invariant
                    self@.width == w,
                    self@.height == h,
                    self@.pixels.len() == start.pixels.len(),
                    self.wf(),
                    start.width == w,
                    start.height == h,
                    img_w * img_h * 4 <= src@.len(),
                    src@.len() <= usize::MAX,
                    copy_w <= img_w,
                    copy_h <= img_h,
                    xo == x_off,
                    yo == y_off,
                    copy_w == (if xo >= w { 0 } else if img_w < w - xo { img_w as int } else { w - xo }),
                    copy_h == (if yo >= h { 0 } else if img_h < h - yo { img_h as int } else { h - yo }),
                    row < copy_h,
                    col <= copy_w,
                    forall|x: int, y: int, k: int|
                        #![trigger self@.pixels[pixel_index(w as int, x, y, k)]]
                        in_canvas(w as nat, h as nat, x, y, k) ==> self@.pixels[pixel_index(w as int, x, y, k)] == if xo
                            <= x < xo + img_w && (yo <= y < yo + row || (y == yo + row && x < xo + col)) {
                            src@[pixel_index(img_w as int, x - xo, y - yo, k)]
                        } else {
                            start.pixels[pixel_index(w as int, x, y, k)]
                        },
                decreases copy_w - col,
            {
                proof {
                    lemma_index_in_bounds(img_w as int, img_h as int, col as int, row as int, 0);
                    lemma_index_in_bounds(img_w as int, img_h as int, col as int, row as int, 3);
                }
                let from = (row * img_w + col) * 4;
                assert(from == pixel_index(img_w as int, col as int, row as int, 0));
                self.put_pixel(xo + col, yo + row, src, from);
                proof {
                    assert forall|x: int, y: int, k: int|
                        #![trigger self@.pixels[pixel_index(w as int, x, y, k)]]
                        in_canvas(w as nat, h as nat, x, y, k) implies self@.pixels[pixel_index(w as int, x, y, k)]
                            == if xo <= x < xo + img_w && (yo <= y < yo + row || (y == yo + row && x < xo + col + 1)) {
                            src@[pixel_index(img_w as int, x - xo, y - yo, k)]
                        } else {
                            start.pixels[pixel_index(w as int, x, y, k)]
                        } by {
                        if x == xo + col && y == yo + row {
                            lemma_index_in_bounds(img_w as int, img_h as int, col as int, row as int, k);
                        }
                    }
                }
                col = col + 1;
            }
            row = row + 1;
        }
    }

    /// Copies the top-left `min(img_w, width)` x `min(img_h, height)` pixels
    /// of a `img_w` x `img_h` RGBA image (`src`, row by row) into the
    /// canvas's top-left corner, turned by 180 degrees within that area.
    pub fn place_turned(&mut self, src: &[u8], img_w: usize, img_h: usize)
        requires
            old(self).wf(),
            img_w * img_h * 4 <= src@.len(),
        ensures
            final(self).wf(),
            placed_turned(old(self)@, final(self)@, src@, img_w as nat, img_h as nat),
    {
        let ghost start = self@;
        let src_len = src.len();
        assert(img_w * img_h * 4 <= src_len);
        let w = self.width;
        let h = self.height;
        let cw: usize = if img_w < w { img_w } else { w };
        let ch: usize = if img_h < h { img_h } else { h };
        let mut row: usize = 0;
        while row < ch
            invariant
                self@.width == w,
                self@.height == h,
                self@.pixels.len() == start.pixels.len(),
                self.wf(),
                start.width == w,
                start.height == h,
                img_w * img_h * 4 <= src@.len(),
                src@.len() <= usize::MAX,
                cw == (if img_w < w { img_w } else { w }),
                ch == (if img_h < h { img_h } else { h }),
                row <= ch,
                forall|x: int, y: int, k: int|
                    #![trigger self@.pixels[pixel_index(w as int, x, y, k)]]
                    in_canvas(w as nat, h as nat, x, y, k) ==> self@.pixels[pixel_index(w as int, x, y, k)] == if x
                        < cw && ch - row <= y < ch {
                        src@[pixel_index(img_w as int, cw - 1 - x, ch - 1 - y, k)]
                    } else {
                        start.pixels[pixel_index(w as int, x, y, k)]
                    },
            decreases ch - row,
        {
            let mut col: usize = 0;
            while col < cw
                invariant
                    self@.width == w,
                    self@.height == h,
                    self@.pixels.len() == start.pixels.len(),
                    self.wf(),
                    start.width == w,
                    start.height == h,
                    img_w * img_h * 4 <= src@.len(),
                    src@.len() <= usize::MAX,
                    cw == (if img_w < w { img_w } else { w }),
                    ch == (if img_h < h { img_h } else { h }),
                    row < ch,
                    col <= cw,
                    forall|x: int, y: int, k: int|
                        #![trigger self@.pixels[pixel_index(w as int, x, y, k)]]
                        in_canvas(w as nat, h as nat, x, y, k) ==> self@.pixels[pixel_index(w as int, x, y, k)] == if x
                            < cw && (ch - row <= y < ch || (y == ch - 1 - row && cw - col <= x)) {
                            src@[pixel_index(img_w as int, cw - 1 - x, ch - 1 - y, k)]
                        } else {
                            start.pixels[pixel_index(w as int, x, y, k)]
                        },
                decreases cw - col,
            {
                proof {
                    lemma_index_in_bounds(img_w as int, img_h as int, col as int, row as int, 0);
                    lemma_index_in_bounds(img_w as int, img_h as int, col as int, row as int, 3);
                }
                let from = (row * img_w + col) * 4;
                assert(from == pixel_index(img_w as int, col as int, row as int, 0));
                self.put_pixel(cw - 1 - col, ch - 1 - row, src, from);
                proof {
                    assert forall|x: int, y: int, k: int|
                        #![trigger self@.pixels[pixel_index(w as int, x, y, k)]]
                        in_canvas(w as nat, h as nat, x, y, k) implies self@.pixels[pixel_index(w as int, x, y, k)]
                            == if x < cw && (ch - row <= y < ch || (y == ch - 1 - row && cw - (col + 1) <= x)) {
                            src@[pixel_index(img_w as int, cw - 1 - x, ch - 1 - y, k)]
                        } else {
                            start.pixels[pixel_index(w as int, x, y, k)]
                        } by {
                        if x == cw - 1 - col && y == ch - 1 - row {
                            lemma_index_in_bounds(img_w as int, img_h as int, col as int, row as int, k);
                        }
                    }
                }
                col = col + 1;
            }
            row = row + 1;
        }
    }
}

/// Placing the same image at the same offset again changes no pixel.
pub proof fn law_place_is_idempotent(
    a: CanvasView,
    b: CanvasView,
    c: CanvasView,
    src: Seq<u8>,
    img_w: nat,
    img_h: nat,
    x_off: nat,
    y_off: nat,
)
    requires
        placed(a, b, src, img_w, img_h, x_off, y_off),
        placed(b, c, src, img_w, img_h, x_off, y_off),
    ensures
        forall|x: int, y: int, k: int|
            in_canvas(a.width, a.height, x, y, k) ==> #[trigger] c.pixels[pixel_index(a.width as int, x, y, k)]
                == b.pixels[pixel_index(a.width as int, x, y, k)],
{
}

/// The four 200 x 100 segments of the Stream Deck + touchscreen, placed at
/// x = 0, 200, 400 and 600 in any earlier state of the strip, make up the
/// whole strip: pixel (x, y) is pixel (x mod 200, y) of segment x / 200.
pub proof fn law_segments_make_up_the_strip(
    c0: CanvasView,
    c1: CanvasView,
    c2: CanvasView,
    c3: CanvasView,
    c4: CanvasView,
    s0: Seq<u8>,
    s1: Seq<u8>,
    s2: Seq<u8>,
    s3: Seq<u8>,
)
    requires
        c0.width == LCD_WIDTH,
        c0.height == LCD_HEIGHT,
        placed(c0, c1, s0, 200, 100, 0, 0),
        placed(c1, c2, s1, 200, 100, 200, 0),
        placed(c2, c3, s2, 200, 100, 400, 0),
        placed(c3, c4, s3, 200, 100, 600, 0),
    ensures
        forall|x: int, y: int, k: int|
            in_canvas(c0.width, c0.height, x, y, k) ==> #[trigger] c4.pixels[pixel_index(800, x, y, k)] == (if x < 200 {
                s0[pixel_index(200, x, y, k)]
            } else if x < 400 {
                s1[pixel_index(200, x - 200, y, k)]
            } else if x < 600 {
                s2[pixel_index(200, x - 400, y, k)]
            } else {
                s3[pixel_index(200, x - 600, y, k)]
            }),
{
}

} // verus!
