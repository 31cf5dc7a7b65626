use vstd::prelude::*;

verus! {

/// One pixel, 8 bits per channel.
#[derive(Clone, Copy, Debug, PartialEq, Eq, Structural)]
pub struct Rgb {
    pub r: u8,
    pub g: u8,
    pub b: u8,
}

impl Rgb {
    pub fn new(r: u8, g: u8, b: u8) -> (c: Rgb)
        ensures
            c.r == r && c.g == g && c.b == b,
    {
        Rgb { r, g, b }
    }

    pub open spec fn spec_white() -> Rgb {
        Rgb { r: 255, g: 255, b: 255 }
    }

    pub open spec fn spec_black() -> Rgb {
        Rgb { r: 0, g: 0, b: 0 }
    }

    /// The colour of the border and of the caption.
    pub fn white() -> (c: Rgb)
        ensures
            c == Rgb::spec_white(),
    {
        Rgb { r: 255, g: 255, b: 255 }
    }

    /// The colour a fresh canvas is filled with.
    pub fn black() -> (c: Rgb)
        ensures
            c == Rgb::spec_black(),
    {
        Rgb { r: 0, g: 0, b: 0 }
    }
}

/// A row-major grid of RGB pixels, `width` wide and `height` tall.
pub struct Bitmap {
    width: usize,
    height: usize,
    rows: Vec<Vec<Rgb>>,
}

impl Bitmap {
    pub closed spec fn spec_width(&self) -> nat {
        self.width as nat
    }

    pub closed spec fn spec_height(&self) -> nat {
        self.height as nat
    }

    /// Every row holds `width` pixels and there are `height` rows.
    pub closed spec fn wf(&self) -> bool {
        &&& self.rows@.len() == self.height
        &&& forall|y: int| 0 <= y < self.height ==> #[trigger] self.rows@[y]@.len() == self.width
    }

    /// `(x, y)` is the position of one of the pixels.
    pub open spec fn contains(&self, x: int, y: int) -> bool {
        0 <= x < self.spec_width() && 0 <= y < self.spec_height()
    }

    /// Both dimensions are `usize` values.
    pub proof fn lemma_dims_bounded(&self)
        ensures
            self.spec_width() <= usize::MAX,
            self.spec_height() <= usize::MAX,
    {
    }

    /// The pixel in column `x` of row `y`.
    pub closed spec fn px(&self, x: int, y: int) -> Rgb {
        self.rows@[y]@[x]
    }

    /// A bitmap of the given size with every pixel set to `color`.
    pub fn filled(width: usize, height: usize, color: Rgb) -> (r: Bitmap)
        ensures
            r.wf(),
            r.spec_width() == width,
            r.spec_height() == height,
            forall|x: int, y: int|
                0 <= x < width && 0 <= y < height ==> #[trigger] r.px(x, y) == color,
    {
        let mut rows: Vec<Vec<Rgb>> = Vec::new();
        let mut j: usize = 0;
        while j < height
            invariant
                j <= height,
                rows@.len() == j,
                forall|y: int| 0 <= y < j ==> #[trigger] rows@[y]@.len() == width,
                forall|x: int, y: int|
                    0 <= x < width && 0 <= y < j ==> #[trigger] rows@[y]@[x] == color,
            decreases height - j,
        {
            let mut row: Vec<Rgb> = Vec::new();
            let mut i: usize = 0;
            while i < width
                invariant
                    i <= width,
                    row@.len() == i,
                    forall|x: int| 0 <= x < i ==> #[trigger] row@[x] == color,
                decreases width - i,
            {
                row.push(color);
                i = i + 1;
            }
            rows.push(row);
            j = j + 1;
        }
        Bitmap { width, height, rows }
    }

    /// A black bitmap of the given size.
    pub fn new(width: usize, height: usize) -> (r: Bitmap)
        ensures
            r.wf(),
            r.spec_width() == width,
            r.spec_height() == height,
            forall|x: int, y: int|
                0 <= x < width && 0 <= y < height ==> #[trigger] r.px(x, y) == Rgb::spec_black(),
    {
        Bitmap::filled(width, height, Rgb::black())
    }

    pub fn width(&self) -> (r: usize)
        ensures
            r == self.spec_width(),
    {
        self.width
    }

    pub fn height(&self) -> (r: usize)
        ensures
            r == self.spec_height(),
    {
        self.height
    }

    pub fn get_pixel(&self, x: usize, y: usize) -> (c: Rgb)
        requires
            self.wf(),
            x < self.spec_width(),
            y < self.spec_height(),
        ensures
            c == self.px(x as int, y as int),
    {
        self.rows[y][x]
    }

    /// Sets one pixel and leaves every other pixel as it was.
    pub fn put_pixel(&mut self, x: usize, y: usize, color: Rgb)
        requires
            old(self).wf(),
            x < old(self).spec_width(),
            y < old(self).spec_height(),
        ensures
            final(self).wf(),
            final(self).spec_width() == old(self).spec_width(),
            final(self).spec_height() == old(self).spec_height(),
            final(self).px(x as int, y as int) == color,
            forall|i: int, j: int|
                old(self).contains(i, j) && (i != x || j != y) ==> #[trigger] final(self).px(i, j)
                    == old(self).px(i, j),
    {
        self.rows[y][x] = color;
        assert(forall|j: int|
            0 <= j < self.height ==> #[trigger] self.rows@[j]@.len() == self.width);
    }
}

} // verus!
