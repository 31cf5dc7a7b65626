use vstd::prelude::*;
use crate::bitmap::{Bitmap, Rgb};
use crate::canvas::{
    build_canvas, canvas_height, canvas_pixel, canvas_width, frame_fits, in_interior, on_ring,
    on_rings, BORDER_THICKNESS, PADDING, TEXT_MARGIN, TEXT_SIZE,
};

verus! {

/// Left edge of a caption `text_width` pixels wide, centred on a canvas
/// `canvas_width` pixels wide (each half rounded down).
pub open spec fn spec_text_x(canvas_width: int, text_width: int) -> int {
    canvas_width / 2 - text_width / 2
}

/// Top of the caption line under an image `source_height` pixels tall.
pub open spec fn spec_text_y(source_height: int) -> int {
    PADDING + source_height + TEXT_MARGIN
}

/// Height of an image `h` pixels tall after `n` framing passes.
pub open spec fn stacked_height(h: nat, n: nat) -> nat
    decreases n,
{
    if n == 0 {
        h
    } else {
        canvas_height(stacked_height(h, (n - 1) as nat))
    }
}

/// Where a caption `text_width` pixels wide starts on a canvas `canvas_width`
/// pixels wide. It may be negative: a caption wider than the canvas is clipped.
pub fn text_x(canvas_width: usize, text_width: usize) -> (r: isize)
    ensures
        r == spec_text_x(canvas_width as int, text_width as int),
{
    let half_canvas = canvas_width / 2;
    let half_text = text_width / 2;
    assert(half_canvas <= isize::MAX && half_text <= isize::MAX);
    half_canvas as isize - half_text as isize
}

/// The row at which the caption under an image `source_height` pixels tall is drawn.
pub fn text_y(source_height: usize) -> (r: usize)
    requires
        spec_text_y(source_height as int) <= usize::MAX,
    ensures
        r == spec_text_y(source_height as int),
{
    PADDING + source_height + TEXT_MARGIN
}

/// The canvas dimensions for a `w` by `h` image, or `None` where they do not
/// fit in `usize`.
pub fn framed_size(w: usize, h: usize) -> (r: Option<(usize, usize)>)
    ensures
        r is Some <==> frame_fits(w as nat, h as nat),
        r matches Some((cw, ch)) ==> cw == canvas_width(w as nat) && ch == canvas_height(
            h as nat,
        ),
{
    let extra_w: usize = PADDING + PADDING;
    let extra_h: usize = PADDING + TEXT_MARGIN + TEXT_SIZE + TEXT_MARGIN + PADDING;
    if w > usize::MAX - extra_w || h > usize::MAX - extra_h {
        None
    } else {
        Some((PADDING + w + PADDING, PADDING + h + TEXT_MARGIN + TEXT_SIZE + TEXT_MARGIN + PADDING))
    }
}

/// One framing pass: the canvas built around the source image, and the origin
/// at which the caption is to be drawn on it.
pub struct Framed {
    pub canvas: Bitmap,
    pub text_x: isize,
    pub text_y: usize,
}

/// Frames `source` and places a caption whose rendered width is `text_width`
/// pixels: centred horizontally on the canvas, `TEXT_MARGIN` below the image.
pub fn frame_image(source: &Bitmap, text_width: usize) -> (r: Framed)
    requires
        source.wf(),
        frame_fits(source.spec_width(), source.spec_height()),
    ensures
        r.canvas.wf(),
        r.canvas.spec_width() == canvas_width(source.spec_width()),
        r.canvas.spec_height() == canvas_height(source.spec_height()),
        forall|x: int, y: int|
            r.canvas.contains(x, y) ==> #[trigger] r.canvas.px(x, y) == canvas_pixel(source, x, y),
        r.text_x == spec_text_x(canvas_width(source.spec_width()) as int, text_width as int),
        r.text_y == spec_text_y(source.spec_height() as int),
{
    let canvas = build_canvas(source);
    let tx = text_x(canvas.width(), text_width);
    let ty = text_y(source.height());
    Framed { canvas, text_x: tx, text_y: ty }
}

/// Every canvas pixel where the image is placed is the source pixel; every
/// other pixel fewer than `BORDER_THICKNESS` pixels away from the image, across
/// or along, is white; every pixel further away is black.
pub proof fn lemma_border_band(source: &Bitmap, x: int, y: int)
    requires
        source.wf(),
        0 <= x < canvas_width(source.spec_width()),
        0 <= y < canvas_height(source.spec_height()),
    ensures
        ({
            let w = source.spec_width() as int;
            let h = source.spec_height() as int;
            let near = PADDING - BORDER_THICKNESS < x < PADDING + w + BORDER_THICKNESS - 1
                && PADDING - BORDER_THICKNESS < y < PADDING + h + BORDER_THICKNESS - 1;
            &&& in_interior(x, y, w, h) ==> canvas_pixel(source, x, y) == source.px(
                x - PADDING,
                y - PADDING,
            )
            &&& !in_interior(x, y, w, h) && near ==> canvas_pixel(source, x, y)
                == Rgb::spec_white()
            &&& !near ==> canvas_pixel(source, x, y) == Rgb::spec_black()
        }),
{
    let w = source.spec_width() as int;
    let h = source.spec_height() as int;
    let near = PADDING - BORDER_THICKNESS < x < PADDING + w + BORDER_THICKNESS - 1
        && PADDING - BORDER_THICKNESS < y < PADDING + h + BORDER_THICKNESS - 1;
    if !in_interior(x, y, w, h) && near {
        let a = PADDING - x;
        let b = x - (PADDING + w - 1);
        let c = PADDING - y;
        let d = y - (PADDING + h - 1);
        let ab = if a >= b { a } else { b };
        let cd = if c >= d { c } else { d };
        let i = if ab >= cd { ab } else { cd };
        assert(on_ring(x, y, w, h, i));
        assert(on_rings(x, y, w, h, BORDER_THICKNESS as int));
    }
    if !near {
        assert(!on_rings(x, y, w, h, BORDER_THICKNESS as int));
    }
}

/// The caption's left edge lies within half a pixel of `(c - m) / 2`, for a
/// caption `m` pixels wide on a canvas `c` pixels wide: the space left of it
/// and the space right of it differ by at most one pixel.
pub proof fn lemma_caption_centered(c: nat, m: nat)
    ensures
        c - m - 1 <= 2 * spec_text_x(c as int, m as int) <= c - m + 1,
        -1 <= (c - (spec_text_x(c as int, m as int) + m)) - spec_text_x(c as int, m as int) <= 1,
{
}

/// Each further framing pass makes the image taller: stacking `n + 1`
/// captions gives a taller result than stacking `n`.
pub proof fn lemma_more_captions_taller(h: nat, n: nat)
    ensures
        stacked_height(h, n + 1) > stacked_height(h, n),
{
    assert(stacked_height(h, n + 1) == canvas_height(stacked_height(h, n)));
}

} // verus!
