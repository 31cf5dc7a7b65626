use vstd::prelude::*;
use crate::bitmap::{Bitmap, Rgb};

verus! {

/// Margin on every side of the source image, and gap above the caption block.
pub const PADDING: usize = 50;

/// Gap above and below the caption line.
pub const TEXT_MARGIN: usize = 30;

/// Pixel size of the caption font.
pub const TEXT_SIZE: usize = 60;

/// Number of concentric one-pixel outlines drawn around the image.
pub const BORDER_THICKNESS: usize = 5;

/// Width of the canvas built around an image `w` pixels wide.
pub open spec fn canvas_width(w: nat) -> nat {
    (PADDING + w + PADDING) as nat
}

/// Height of the canvas built around an image `h` pixels tall: the image, the
/// caption line with a margin above and below it, and `PADDING` above the image
/// and below the caption block.
pub open spec fn canvas_height(h: nat) -> nat {
    (PADDING + h + TEXT_MARGIN + TEXT_SIZE + TEXT_MARGIN + PADDING) as nat
}

/// The canvas for a `w` by `h` image has dimensions that fit in `usize`.
pub open spec fn frame_fits(w: nat, h: nat) -> bool {
    canvas_width(w) <= usize::MAX && canvas_height(h) <= usize::MAX
}

/// `(x, y)` lies on the one-pixel outline of the `w` by `h` rectangle whose
/// top-left corner is `(left, top)`. An empty rectangle has no outline.
pub open spec fn on_outline(x: int, y: int, left: int, top: int, w: int, h: int) -> bool {
    &&& w > 0 && h > 0
    &&& left <= x < left + w && top <= y < top + h
    &&& x == left || x == left + w - 1 || y == top || y == top + h - 1
}

/// `(x, y)` lies on the `i`-th outline drawn around a `w` by `h` image placed at
/// `(PADDING, PADDING)`: the one `i` pixels further out than the image's edge.
pub open spec fn on_ring(x: int, y: int, w: int, h: int, i: int) -> bool {
    on_outline(x, y, PADDING - i, PADDING - i, w + 2 * i, h + 2 * i)
}

/// `(x, y)` lies on one of the first `n` outlines around the image.
pub open spec fn on_rings(x: int, y: int, w: int, h: int, n: int) -> bool {
    exists|i: int| 0 <= i < n && #[trigger] on_ring(x, y, w, h, i)
}

/// `(x, y)` lies where the source image is placed on the canvas.
pub open spec fn in_interior(x: int, y: int, w: int, h: int) -> bool {
    PADDING <= x < PADDING + w && PADDING <= y < PADDING + h
}

/// The colour of pixel `(x, y)` of the canvas built around `source`: the source
/// image at `(PADDING, PADDING)`, white where a border outline was drawn and the
/// image does not cover it, black elsewhere.
pub open spec fn canvas_pixel(source: &Bitmap, x: int, y: int) -> Rgb {
    let w = source.spec_width() as int;
    let h = source.spec_height() as int;
    if in_interior(x, y, w, h) {
        source.px(x - PADDING, y - PADDING)
    } else if on_rings(x, y, w, h, BORDER_THICKNESS as int) {
        Rgb::spec_white()
    } else {
        Rgb::spec_black()
    }
}

/// Draws the one-pixel outline of the `w` by `h` rectangle at `(left, top)` in
/// `color`; every other pixel keeps its colour.
pub fn draw_hollow_rect(img: &mut Bitmap, left: usize, top: usize, w: usize, h: usize, color: Rgb)
    requires
        old(img).wf(),
        left + w <= old(img).spec_width(),
        top + h <= old(img).spec_height(),
    ensures
        final(img).wf(),
        final(img).spec_width() == old(img).spec_width(),
        final(img).spec_height() == old(img).spec_height(),
        forall|x: int, y: int|
            old(img).contains(x, y) ==> #[trigger] final(img).px(x, y) == if on_outline(
                x,
                y,
                left as int,
                top as int,
                w as int,
                h as int,
            ) {
                color
            } else {
                old(img).px(x, y)
            },
{
    proof {
        img.lemma_dims_bounded();
    }
    let right = left + w;
    let bottom = top + h;
    let mut j: usize = top;
    while j < bottom
        invariant
            right == left + w,
            bottom == top + h,
            top <= j <= bottom,
            right <= old(img).spec_width(),
            bottom <= old(img).spec_height(),
            img.wf(),
            img.spec_width() == old(img).spec_width(),
            img.spec_height() == old(img).spec_height(),
            forall|x: int, y: int|
                old(img).contains(x, y) ==> #[trigger] img.px(x, y) == if on_outline(
                    x,
                    y,
                    left as int,
                    top as int,
                    w as int,
                    h as int,
                ) && y < j {
                    color
                } else {
                    old(img).px(x, y)
                },
        decreases bottom - j,
    {
        let mut i: usize = left;
        while i < right
            invariant
                right == left + w,
                bottom == top + h,
                top <= j < bottom,
                left <= i <= right,
                right <= old(img).spec_width(),
                bottom <= old(img).spec_height(),
                img.wf(),
                img.spec_width() == old(img).spec_width(),
                img.spec_height() == old(img).spec_height(),
                forall|x: int, y: int|
                    old(img).contains(x, y) ==> #[trigger] img.px(x, y) == if on_outline(
                        x,
                        y,
                        left as int,
                        top as int,
                        w as int,
                        h as int,
                    ) && (y < j || (y == j && x < i)) {
                        color
                    } else {
                        old(img).px(x, y)
                    },
            decreases right - i,
        {
            if i == left || i == right - 1 || j == top || j == bottom - 1 {
                img.put_pixel(i, j, color);
            }
            i = i + 1;
        }
        j = j + 1;
    }
}

impl Bitmap {
    /// Overwrites the pixels under `src` placed with its top-left corner at
    /// `(x0, y0)` by the pixels of `src`; every other pixel keeps its colour.
    pub fn copy_from(&mut self, src: &Bitmap, x0: usize, y0: usize)
        requires
            old(self).wf(),
            src.wf(),
            x0 + src.spec_width() <= old(self).spec_width(),
            y0 + src.spec_height() <= old(self).spec_height(),
        ensures
            final(self).wf(),
            final(self).spec_width() == old(self).spec_width(),
            final(self).spec_height() == old(self).spec_height(),
            forall|x: int, y: int|
                old(self).contains(x, y) ==> #[trigger] final(self).px(x, y) == if src.contains(
                    x - x0,
                    y - y0,
                ) {
                    src.px(x - x0, y - y0)
                } else {
                    old(self).px(x, y)
                },
    {
        proof {
            self.lemma_dims_bounded();
        }
        let sw = src.width();
        let sh = src.height();
        let mut j: usize = 0;
        while j < sh
            invariant
                j <= sh,
                sw == src.spec_width(),
                sh == src.spec_height(),
                src.wf(),
                x0 + sw <= old(self).spec_width() <= usize::MAX,
                y0 + sh <= old(self).spec_height() <= usize::MAX,
                self.wf(),
                self.spec_width() == old(self).spec_width(),
                self.spec_height() == old(self).spec_height(),
                forall|x: int, y: int|
                    old(self).contains(x, y) ==> #[trigger] self.px(x, y) == if src.contains(
                        x - x0,
                        y - y0,
                    ) && y < y0 + j {
                        src.px(x - x0, y - y0)
                    } else {
                        old(self).px(x, y)
                    },
            decreases sh - j,
        {
            let mut i: usize = 0;
            while i < sw
                invariant
                    j < sh,
                    i <= sw,
                    sw == src.spec_width(),
                    sh == src.spec_height(),
                    src.wf(),
                    x0 + sw <= old(self).spec_width() <= usize::MAX,
                    y0 + sh <= old(self).spec_height() <= usize::MAX,
                    self.wf(),
                    self.spec_width() == old(self).spec_width(),
                    self.spec_height() == old(self).spec_height(),
                    forall|x: int, y: int|
                        old(self).contains(x, y) ==> #[trigger] self.px(x, y) == if src.contains(
                            x - x0,
                            y - y0,
                        ) && (y < y0 + j || (y == y0 + j && x < x0 + i)) {
                            src.px(x - x0, y - y0)
                        } else {
                            old(self).px(x, y)
                        },
                decreases sw - i,
            {
                let c = src.get_pixel(i, j);
                self.put_pixel(x0 + i, y0 + j, c);
                i = i + 1;
            }
            j = j + 1;
        }
    }
}

/// The canvas for `source`: `PADDING` on every side, room for one caption line
/// below, `BORDER_THICKNESS` white outlines around the image, and the image
/// itself at `(PADDING, PADDING)`. The caption area is left black.
pub fn build_canvas(source: &Bitmap) -> (r: Bitmap)
    requires
        source.wf(),
        frame_fits(source.spec_width(), source.spec_height()),
    ensures
        r.wf(),
        r.spec_width() == canvas_width(source.spec_width()),
        r.spec_height() == canvas_height(source.spec_height()),
        forall|x: int, y: int|
            r.contains(x, y) ==> #[trigger] r.px(x, y) == canvas_pixel(source, x, y),
{
    let w = source.width();
    let h = source.height();
    let cw = PADDING + w + PADDING;
    let ch = PADDING + h + TEXT_MARGIN + TEXT_SIZE + TEXT_MARGIN + PADDING;
    let mut canvas = Bitmap::new(cw, ch);
    let white = Rgb::white();
    let mut i: usize = 0;
    while i < BORDER_THICKNESS
        invariant
            i <= BORDER_THICKNESS,
            w == source.spec_width(),
            h == source.spec_height(),
            canvas.wf(),
            canvas.spec_width() == cw,
            canvas.spec_height() == ch,
            cw == canvas_width(w as nat),
            ch == canvas_height(h as nat),
            white == Rgb::spec_white(),
            forall|x: int, y: int|
                0 <= x < cw && 0 <= y < ch ==> #[trigger] canvas.px(x, y) == if on_rings(
                    x,
                    y,
                    w as int,
                    h as int,
                    i as int,
                ) {
                    Rgb::spec_white()
                } else {
                    Rgb::spec_black()
                },
        decreases BORDER_THICKNESS - i,
    {
        draw_hollow_rect(&mut canvas, PADDING - i, PADDING - i, w + 2 * i, h + 2 * i, white);
        assert forall|x: int, y: int| 0 <= x < cw && 0 <= y < ch implies #[trigger] canvas.px(x, y)
            == if on_rings(x, y, w as int, h as int, i + 1) {
            Rgb::spec_white()
        } else {
            Rgb::spec_black()
        } by {
            if on_ring(x, y, w as int, h as int, i as int) {
                assert(on_rings(x, y, w as int, h as int, i + 1));
            } else if on_rings(x, y, w as int, h as int, i + 1) {
                let k = choose|k: int|
                    0 <= k < i + 1 && #[trigger] on_ring(x, y, w as int, h as int, k);
                assert(k < i);
                assert(on_rings(x, y, w as int, h as int, i as int));
            } else {
                assert(!on_rings(x, y, w as int, h as int, i as int));
            }
        }
        i = i + 1;
    }
    canvas.copy_from(source, PADDING, PADDING);
    canvas
}

} // verus!
