//! Window dimensions and the row-major layout of every per-pixel array.

use vstd::prelude::*;

verus! {

/// Why a window or a buffer was rejected.
#[derive(Clone, Copy, Debug, PartialEq, Eq, Structural)]
pub enum GeometryError {
    /// The width or the height is zero.
    EmptyAxis,
    /// `width * height` does not fit in `usize`.
    TooLarge,
    /// A buffer's length differs from `width * height`.
    LengthMismatch,
}

/// Position of pixel `(x, y)` in a row-major array whose rows hold `width` pixels.
pub open spec fn flat_index(width: int, x: int, y: int) -> int {
    y * width + x
}

/// The pixel `(x, y)` that stands at `index` of a row-major array.
pub open spec fn grid_position(width: int, index: int) -> (int, int) {
    (index % width, index / width)
}

/// The sample of an axis of `n` samples that counts as its centre.
pub open spec fn centre_sample(n: int) -> int {
    n / 2
}

/// The size of a tracking window: both axes positive, the pixel count within `usize`.
#[derive(Clone, Copy, Debug)]
pub struct WindowSize {
    width: usize,
    height: usize,
}

impl WindowSize {
    #[verifier::type_invariant]
    closed spec fn inv(self) -> bool {
        &&& self.width >= 1
        &&& self.height >= 1
        &&& self.width * self.height <= usize::MAX
    }

    /// Pixels per row, as a number.
    pub closed spec fn w(self) -> int {
        self.width as int
    }

    /// Number of rows, as a number.
    pub closed spec fn h(self) -> int {
        self.height as int
    }

    /// Number of pixels, the length of every per-pixel array.
    pub open spec fn len(self) -> int {
        self.w() * self.h()
    }

    /// Accepts `(width, height)` when both are positive and their product fits in `usize`.
    pub fn new(width: usize, height: usize) -> (r: Result<WindowSize, GeometryError>)
        ensures
            match r {
                Ok(size) => width >= 1 && height >= 1 && width * height <= usize::MAX && size.w()
                    == width && size.h() == height,
                Err(GeometryError::EmptyAxis) => width == 0 || height == 0,
                Err(GeometryError::TooLarge) => width >= 1 && height >= 1 && width * height
                    > usize::MAX,
                Err(GeometryError::LengthMismatch) => false,
            },
    {
        if width == 0 || height == 0 {
            return Err(GeometryError::EmptyAxis);
        }
        match width.checked_mul(height) {
            None => Err(GeometryError::TooLarge),
            Some(_) => Ok(WindowSize { width, height }),
        }
    }

    /// Pixels per row.
    pub fn width(&self) -> (r: usize)
        ensures
            r == self.w(),
            r >= 1,
            self.len() <= usize::MAX,
    {
        proof {
            use_type_invariant(self);
        }
        self.width
    }

    /// Number of rows.
    pub fn height(&self) -> (r: usize)
        ensures
            r == self.h(),
            r >= 1,
            self.len() <= usize::MAX,
    {
        proof {
            use_type_invariant(self);
        }
        self.height
    }

    /// The pixel count `width * height`.
    pub fn length(&self) -> (r: usize)
        ensures
            r == self.len(),
            r >= 1,
    {
        proof {
            use_type_invariant(self);
            assert(self.width * self.height >= 1) by (nonlinear_arith)
                requires
                    self.width >= 1,
                    self.height >= 1,
            ;
        }
        self.width * self.height
    }

    /// Row-major index of pixel `(x, y)`, for a pixel inside the window.
    pub fn index(&self, x: usize, y: usize) -> (r: Option<usize>)
        ensures
            r.is_some() <==> x < self.w() && y < self.h(),
            r matches Some(i) ==> i == flat_index(self.w(), x as int, y as int) && i < self.len(),
    {
        proof {
            use_type_invariant(self);
        }
        if x < self.width && y < self.height {
            proof {
                lemma_flat_index_in_range(self.w(), self.h(), x as int, y as int);
            }
            Some(y * self.width + x)
        } else {
            None
        }
    }

    /// The pixel `(x, y)` that stands at `index`, for an index below the pixel count.
    pub fn position(&self, index: usize) -> (r: Option<(usize, usize)>)
        ensures
            r.is_some() <==> index < self.len(),
            r matches Some(p) ==> (p.0 as int, p.1 as int) == grid_position(self.w(), index as int)
                && p.0 < self.w() && p.1 < self.h(),
    {
        proof {
            use_type_invariant(self);
        }
        if index < self.width * self.height {
            proof {
                lemma_grid_position_in_range(self.w(), self.h(), index as int);
            }
            Some((index % self.width, index / self.width))
        } else {
            None
        }
    }

    /// The half-open index range `[start, end)` that row `y` occupies.
    pub fn row_span(&self, y: usize) -> (r: Option<(usize, usize)>)
        ensures
            r.is_some() <==> y < self.h(),
            r matches Some(s) ==> s.0 == y * self.w() && s.1 == s.0 + self.w() && s.1 <= self.len(),
    {
        proof {
            use_type_invariant(self);
        }
        if y < self.height {
            proof {
                lemma_flat_index_in_range(self.w(), self.h(), self.w() - 1, y as int);
            }
            let start: usize = y * self.width;
            Some((start, start + self.width))
        } else {
            None
        }
    }

    /// The centre pixel `(width / 2, height / 2)`.
    pub fn centre(&self) -> (r: (usize, usize))
        ensures
            r.0 == centre_sample(self.w()),
            r.1 == centre_sample(self.h()),
            r.0 < self.w(),
            r.1 < self.h(),
    {
        proof {
            use_type_invariant(self);
        }
        (self.width / 2, self.height / 2)
    }

    /// Row-major index of the centre pixel.
    pub fn centre_index(&self) -> (r: usize)
        ensures
            r == flat_index(self.w(), centre_sample(self.w()), centre_sample(self.h())),
            r < self.len(),
    {
        proof {
            use_type_invariant(self);
            lemma_flat_index_in_range(self.w(), self.h(), self.w() / 2, self.h() / 2);
        }
        (self.height / 2) * self.width + self.width / 2
    }

    /// Accepts a buffer length exactly when it equals the pixel count.
    pub fn check_length(&self, buffer_len: usize) -> (r: Result<(), GeometryError>)
        ensures
            buffer_len == self.len() ==> r == Ok::<(), GeometryError>(()),
            buffer_len != self.len() ==> r == Err::<(), GeometryError>(
                GeometryError::LengthMismatch,
            ),
    {
        proof {
            use_type_invariant(self);
        }
        if buffer_len == self.width * self.height {
            Ok(())
        } else {
            Err(GeometryError::LengthMismatch)
        }
    }
}

/// A pixel inside a `width` by `height` grid has its row-major index, and the
/// end of its row, within the pixel count.
pub proof fn lemma_flat_index_in_range(width: int, height: int, x: int, y: int)
    requires
        0 <= x < width,
        0 <= y < height,
    ensures
        0 <= y * width,
        0 <= flat_index(width, x, y) < width * height,
        y * width + width <= width * height,
{
    assert(0 <= y * width && y * width + width <= width * height) by (nonlinear_arith)
        requires
            0 <= y < height,
            0 < width,
    ;
}

/// An index below the pixel count names a pixel inside the grid.
pub proof fn lemma_grid_position_in_range(width: int, height: int, index: int)
    requires
        0 < width,
        0 <= index < width * height,
    ensures
        0 <= grid_position(width, index).0 < width,
        0 <= grid_position(width, index).1 < height,
{
    assert(0 <= index % width < width && 0 <= index / width < height) by (nonlinear_arith)
        requires
            0 < width,
            0 <= index < width * height,
    ;
}

/// Index and position are inverse to each other on the grid: the pixel found
/// at the index of `(x, y)` is `(x, y)`.
pub proof fn law_position_of_index(width: int, height: int, x: int, y: int)
    requires
        0 <= x < width,
        0 <= y < height,
    ensures
        grid_position(width, flat_index(width, x, y)) == (x, y),
{
    vstd::arithmetic::div_mod::lemma_fundamental_div_mod_converse(y * width + x, width, y, x);
}

/// Index and position are inverse to each other on the grid: the index of the
/// pixel found at `index` is `index`.
pub proof fn law_index_of_position(width: int, height: int, index: int)
    requires
        0 < width,
        0 <= index < width * height,
    ensures
        flat_index(width, grid_position(width, index).0, grid_position(width, index).1) == index,
{
    vstd::arithmetic::div_mod::lemma_fundamental_div_mod(index, width);
    assert((index / width) * width == width * (index / width)) by (nonlinear_arith);
}

/// Rows do not overlap: an index inside the span of row `y` belongs to no
/// other row, and `y` is the row that `grid_position` finds for it.
pub proof fn law_rows_are_disjoint(width: int, y: int, index: int)
    requires
        0 < width,
        0 <= y,
        y * width <= index < y * width + width,
    ensures
        grid_position(width, index).1 == y,
        grid_position(width, index).0 == index - y * width,
{
    vstd::arithmetic::div_mod::lemma_fundamental_div_mod_converse(
        index,
        width,
        y,
        index - y * width,
    );
}

} // verus!
