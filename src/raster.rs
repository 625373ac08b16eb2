use vstd::prelude::*;

use crate::error::ExportError;

verus! {

/// One 8-bit RGB sample.
#[derive(Clone, Copy, Debug, PartialEq, Eq, Structural)]
pub struct Rgb {
    pub r: u8,
    pub g: u8,
    pub b: u8,
}

/// A width x height grid of RGB samples stored row by row.
#[derive(Debug)]
pub struct Raster {
    pub width: usize,
    pub height: usize,
    pub pixels: Vec<Rgb>,
}

impl Raster {
    /// The raster holds at least one pixel and exactly `width * height` of them.
    pub open spec fn wf(&self) -> bool {
        &&& self.width >= 1
        &&& self.height >= 1
        &&& self.pixels@.len() == self.width * self.height
    }

    /// The sample at column `x`, row `y`.
    pub open spec fn pixel_at(&self, x: int, y: int) -> Rgb {
        self.pixels@[y * self.width + x]
    }

    /// Builds a raster from row-major samples; fails with `InvalidDimensions`
    /// unless both sides are non-zero and the sample count is `width * height`.
    pub fn new(width: usize, height: usize, pixels: Vec<Rgb>) -> (r: Result<Raster, ExportError>)
        ensures
            (width >= 1 && height >= 1 && pixels@.len() == width * height) <==> r is Ok,
            r is Ok ==> ({
                let ras = r->Ok_0;
                &&& ras.wf()
                &&& ras.width == width
                &&& ras.height == height
                &&& ras.pixels@ == pixels@
            }),
            r is Err ==> r->Err_0 == ExportError::InvalidDimensions,
    {
        if width == 0 || height == 0 {
            return Err(ExportError::InvalidDimensions);
        }
        let count = pixels.len();
        match width.checked_mul(height) {
            Some(n) if n == count => Ok(Raster { width, height, pixels }),
            _ => Err(ExportError::InvalidDimensions),
        }
    }

    /// The sample at column `x`, row `y`.
    pub fn get_pixel(&self, x: usize, y: usize) -> (p: Rgb)
        requires
            self.wf(),
            x < self.width,
            y < self.height,
        ensures
            p == self.pixel_at(x as int, y as int),
    {
        let n = self.pixels.len();
        proof {
            lemma_row_major_index_bound(self.width as int, self.height as int, x as int, y as int);
        }
        self.pixels[y * self.width + x]
    }
}

/// A grid position `(x, y)` maps to a row-major index below `width * height`.
pub proof fn lemma_row_major_index_bound(width: int, height: int, x: int, y: int)
    requires
        0 <= x < width,
        0 <= y < height,
    ensures
        0 <= y * width + x < width * height,
{
    assert(y * width <= (height - 1) * width) by (nonlinear_arith)
        requires
            0 <= y < height,
            0 <= width,
    ;
    assert((height - 1) * width + width == width * height) by (nonlinear_arith);
    assert(0 <= y * width) by (nonlinear_arith)
        requires
            0 <= y,
            0 <= width,
    ;
}

} // verus!
