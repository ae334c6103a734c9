//! A row-major grid of pixels.
use vstd::prelude::*;

verus! {

/// An image of `height` rows and `width` columns, stored row by row.
///
/// The pixel in row `i` and column `j` is the `i * width + j`-th of the sequence.
pub struct Image<T> {
    lines: Vec<T>,
    height: usize,
    width: usize,
}

impl<T> Image<T> {
    #[verifier::type_invariant]
    spec fn shaped(self) -> bool {
        &&& self.lines@.len() == self.height * self.width
        &&& self.height * self.width <= usize::MAX
    }

    /// The number of rows.
    pub closed spec fn rows(&self) -> nat {
        self.height as nat
    }

    /// The number of columns.
    pub closed spec fn cols(&self) -> nat {
        self.width as nat
    }

    /// All pixels, row after row.
    pub closed spec fn pixels(&self) -> Seq<T> {
        self.lines@
    }

    /// The pixel in row `row` and column `col`.
    pub open spec fn at(&self, row: int, col: int) -> T {
        self.pixels()[row * self.cols() + col]
    }

    /// The number of pixels, one for each row and column.
    pub fn size(&self) -> (r: usize)
        ensures
            r == self.pixels().len(),
            r == self.rows() * self.cols(),
    {
        proof {
            use_type_invariant(self);
        }
        self.lines.len()
    }

    /// Creates an image of `height` rows and `width` columns, each pixel `fill`.
    pub fn init(height: usize, width: usize, fill: T) -> (r: Self) where T: Copy
        requires
            height * width <= usize::MAX,
        ensures
            r.rows() == height,
            r.cols() == width,
            r.pixels() == Seq::new((height * width) as nat, |k: int| fill),
    {
        let n: usize = height * width;
        let mut lines: Vec<T> = Vec::new();
        while lines.len() < n
            invariant
                lines@.len() <= n,
                lines@ == Seq::new(lines@.len(), |k: int| fill),
            decreases n - lines@.len(),
        {
            lines.push(fill);
        }
        Image { lines, height, width }
    }

    /// Takes `pixels` as the rows of an image `width` pixels wide, one after the other.
    /// Returns `None` where their number is not `height * width`.
    pub fn from_pixels(height: usize, width: usize, pixels: Vec<T>) -> (r: Option<Self>)
        ensures
            r is Some <==> pixels@.len() == height * width,
            r matches Some(image) ==> image.rows() == height && image.cols() == width
                && image.pixels() == pixels@,
    {
        let len = pixels.len();
        match height.checked_mul(width) {
            Some(n) => {
                if len == n {
                    Some(Image { lines: pixels, height, width })
                } else {
                    None
                }
            },
            None => None,
        }
    }

    /// The number of rows, the image's height in pixels.
    pub fn height(&self) -> (r: usize)
        ensures
            r == self.rows(),
    {
        self.height
    }

    /// The number of columns, the image's width in pixels.
    pub fn width(&self) -> (r: usize)
        ensures
            r == self.cols(),
    {
        self.width
    }

    /// The row and column of the `k`-th pixel in row-major order.
    pub fn position(&self, k: usize) -> (r: (usize, usize))
        requires
            k < self.rows() * self.cols(),
        ensures
            r.0 < self.rows(),
            r.1 < self.cols(),
            r.0 * self.cols() + r.1 == k,
    {
        let w = self.width;
        let row = k / w;
        let col = k % w;
        proof {
            assert(row * w + col == k) by (nonlinear_arith)
                requires
                    w > 0,
                    row == k / w,
                    col == k % w,
            ;
            assert(row < self.height) by (nonlinear_arith)
                requires
                    w > 0,
                    row * w + col == k,
                    col >= 0,
                    k < self.height * w,
            ;
        }
        (row, col)
    }

    /// The pixel in row `row` and column `col`.
    pub fn get(&self, row: usize, col: usize) -> (r: &T)
        requires
            row < self.rows(),
            col < self.cols(),
        ensures
            *r == self.at(row as int, col as int),
    {
        proof {
            use_type_invariant(self);
            lemma_in_grid(row as int, col as int, self.height as int, self.width as int);
        }
        &self.lines[row * self.width + col]
    }

    /// Replaces the pixel in row `row` and column `col` with `value`, leaving the others.
    pub fn set(&mut self, row: usize, col: usize, value: T)
        requires
            row < old(self).rows(),
            col < old(self).cols(),
        ensures
            final(self).rows() == old(self).rows(),
            final(self).cols() == old(self).cols(),
            final(self).pixels() == old(self).pixels().update(
                row * old(self).cols() + col,
                value,
            ),
    {
        proof {
            use_type_invariant(&*self);
            lemma_in_grid(row as int, col as int, self.height as int, self.width as int);
        }
        let k = row * self.width + col;
        let mut taken = Image { lines: Vec::new(), height: 0, width: 0 };
        std::mem::swap(&mut taken, self);
        let Image { mut lines, height, width } = taken;
        lines.set(k, value);
        *self = Image { lines, height, width };
    }
}

/// A row and column inside a grid name a pixel inside its row-major sequence.
proof fn lemma_in_grid(row: int, col: int, height: int, width: int)
    requires
        0 <= row < height,
        0 <= col < width,
    ensures
        0 <= row * width + col < height * width,
{
    assert(row * width + col < height * width) by (nonlinear_arith)
        requires
            0 <= row < height,
            0 <= col < width,
    ;
    assert(0 <= row * width) by (nonlinear_arith)
        requires
            0 <= row,
            0 <= col < width,
    ;
}

} // verus!
