use vstd::prelude::*;

verus! {

/// A raster of `width * height` pixels, stored row after row.
#[derive(Clone, Debug)]
pub struct Image<P> {
    pub width: usize,
    pub height: usize,
    pub pixels: Vec<P>,
}

impl<P: Copy> Image<P> {
    /// The position of pixel `(x, y)` in the row-major buffer.
    pub open spec fn index_of(&self, x: int, y: int) -> int {
        y * self.width + x
    }

    /// The buffer holds exactly one pixel for each position of the raster.
    pub open spec fn is_complete(&self) -> bool {
        self.pixels@.len() == self.width * self.height
    }

    /// An empty raster of the given size; pixels are added by `set_pixel`.
    pub fn new(width: usize, height: usize) -> (r: Self)
        ensures
            r.width == width,
            r.height == height,
            r.pixels@.len() == 0,
    {
        Image { width, height, pixels: Vec::new() }
    }

    /// Writes the pixel at `(x, y)`. A position that the buffer already
    /// holds is overwritten; any other position appends the pixel, so that
    /// writing the raster row by row, left to right, fills it in order.
    pub fn set_pixel(&mut self, x: usize, y: usize, color: P)
        requires
            old(self).index_of(x as int, y as int) <= usize::MAX,
        ensures
            final(self).width == old(self).width,
            final(self).height == old(self).height,
            ({
                let i = old(self).index_of(x as int, y as int);
                if i < old(self).pixels@.len() {
                    final(self).pixels@ == old(self).pixels@.update(i, color)
                } else {
                    final(self).pixels@ == old(self).pixels@.push(color)
                }
            }),
    {
        let idx = y * self.width + x;
        if idx < self.pixels.len() {
            self.pixels.set(idx, color);
        } else {
            self.pixels.push(color);
        }
    }

    /// The raster whose row `y` is `rows[y]`: the rows are written top to
    /// bottom, each left to right, so every pixel lands at its own position
    /// whatever order the rows were computed in.
    pub fn from_rows(width: usize, rows: &Vec<Vec<P>>) -> (r: Self)
        requires
            forall|k: int| 0 <= k < rows@.len() ==> (#[trigger] rows@[k])@.len() == width,
            width * rows@.len() <= usize::MAX,
        ensures
            r.width == width,
            r.height == rows@.len(),
            r.is_complete(),
            forall|x: int, y: int|
                0 <= x < width && 0 <= y < rows@.len() ==> r.pixels@[#[trigger] r.index_of(x, y)]
                    == rows@[y]@[x],
    {
        let height = rows.len();
        let mut image = Image::new(width, height);
        let mut y: usize = 0;
        while y < height
            invariant
                image.width == width,
                image.height == height,
                height == rows@.len(),
                y <= height,
                forall|k: int| 0 <= k < rows@.len() ==> (#[trigger] rows@[k])@.len() == width,
                width * height <= usize::MAX,
                image.pixels@.len() == y * width,
                forall|i: int, j: int|
                    0 <= i < width && 0 <= j < y ==> image.pixels@[j * width + i]
                        == #[trigger] rows@[j]@[i],
            decreases height - y,
        {
            let row = &rows[y];
            assert((y + 1) * width <= width * height) by (nonlinear_arith)
                requires
                    y < height,
            ;
            let mut x: usize = 0;
            while x < width
                invariant
                    image.width == width,
                    image.height == height,
                    height == rows@.len(),
                    y < height,
                    row@ == rows@[y as int]@,
                    row@.len() == width,
                    (y + 1) * width <= usize::MAX,
                    x <= width,
                    image.pixels@.len() == y * width + x,
                    forall|i: int, j: int|
                        0 <= i < width && 0 <= j < y ==> image.pixels@[j * width + i]
                            == #[trigger] rows@[j]@[i],
                    forall|i: int| 0 <= i < x ==> image.pixels@[y * width + i] == #[trigger] row@[i],
                decreases width - x,
            {
                assert(y * width + x < (y + 1) * width) by (nonlinear_arith)
                    requires
                        x < width,
                ;
                let ghost before = image.pixels@;
                image.set_pixel(x, y, row[x]);
                assert forall|i: int, j: int|
                    0 <= i < width && 0 <= j < y implies image.pixels@[j * width + i]
                        == #[trigger] rows@[j]@[i] by {
                    assert(j * width + i < y * width) by (nonlinear_arith)
                        requires
                            i < width,
                            j < y,
                    ;
                }
                x = x + 1;
            }
            assert forall|i: int, j: int|
                0 <= i < width && 0 <= j < y + 1 implies image.pixels@[j * width + i]
                    == #[trigger] rows@[j]@[i] by {
                if j == y {
                    assert(row@[i] == rows@[j]@[i]);
                }
            }
            assert((y + 1) * width == y * width + width) by (nonlinear_arith);
            y = y + 1;
        }
        assert(image.pixels@.len() == width * height) by (nonlinear_arith)
            requires
                image.pixels@.len() == y * width,
                y == height,
        ;
        image
    }

    /// The pixel at `(x, y)`.
    pub fn get_pixel(&self, x: usize, y: usize) -> (r: P)
        requires
            self.index_of(x as int, y as int) < self.pixels@.len(),
        ensures
            r == self.pixels@[self.index_of(x as int, y as int)],
    {
        let n = self.pixels.len();
        assert(y * self.width <= self.index_of(x as int, y as int) < n);
        self.pixels[y * self.width + x]
    }
}

} // verus!
