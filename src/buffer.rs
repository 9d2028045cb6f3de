//! RGBA image buffers.
use vstd::prelude::*;
use crate::pixel::Pixel;
use crate::channel::lemma_mul_bound;

verus! {

/// Why an operation refused its buffers.
#[derive(Clone, Copy, Debug, PartialEq, Eq, Structural)]
pub enum EngineError {
    /// A width or height of zero, or a pixel count that differs from
    /// `width * height`.
    InvalidDimensions,
    /// Two buffers of a binary operation differ in width or height.
    DimensionMismatch,
}

/// A width by height grid of pixels, stored row by row.
#[derive(Clone, Debug)]
pub struct Image {
    pub width: u32,
    pub height: u32,
    pub pixels: Vec<Pixel>,
}

/// Whether `width` by `height` pixels make a non-degenerate buffer of `len` pixels.
pub open spec fn valid_dimensions(width: int, height: int, len: int) -> bool {
    width > 0 && height > 0 && len == width * height
}

impl Image {
    /// The buffer is not degenerate and holds exactly one pixel per cell.
    pub open spec fn wf(&self) -> bool {
        valid_dimensions(self.width as int, self.height as int, self.pixels@.len() as int)
    }

    pub open spec fn same_size(&self, other: &Image) -> bool {
        self.width == other.width && self.height == other.height
    }

    /// Checks the dimensions against the pixel count.
    pub fn is_well_formed(&self) -> (r: bool)
        ensures
            r == self.wf(),
    {
        proof {
            lemma_mul_bound(self.width as int, self.height as int, u32::MAX as int, u32::MAX as int);
        }
        self.width > 0 && self.height > 0
            && (self.width as u64) * (self.height as u64) == self.pixels.len() as u64
    }

    /// Builds a buffer from its pixels, given row by row.
    pub fn new(width: u32, height: u32, pixels: Vec<Pixel>) -> (r: Result<Image, EngineError>)
        ensures
            r is Ok <==> valid_dimensions(width as int, height as int, pixels@.len() as int),
            r is Ok ==> r->Ok_0.width == width && r->Ok_0.height == height
                && r->Ok_0.pixels@ == pixels@ && r->Ok_0.wf(),
            r is Err ==> r->Err_0 == EngineError::InvalidDimensions,
    {
        let img = Image { width, height, pixels };
        if img.is_well_formed() {
            Ok(img)
        } else {
            Err(EngineError::InvalidDimensions)
        }
    }

    /// Whether two buffers have the same width and height.
    pub fn has_same_size(&self, other: &Image) -> (r: bool)
        ensures
            r == self.same_size(other),
    {
        self.width == other.width && self.height == other.height
    }

    pub fn dimensions(&self) -> (r: (u32, u32))
        ensures
            r == (self.width, self.height),
    {
        (self.width, self.height)
    }

    /// The pixel in column `x` of row `y`.
    pub fn get_pixel(&self, x: u32, y: u32) -> (p: Pixel)
        requires
            self.wf(),
            x < self.width,
            y < self.height,
        ensures
            p == self.pixels@[y * self.width + x],
    {
        let n = self.pixels.len();
        proof {
            assert(y * self.width + x < self.width * self.height) by (nonlinear_arith)
                requires
                    x < self.width,
                    y < self.height,
            ;
        }
        assert(y * self.width + x < n);
        self.pixels[y as usize * self.width as usize + x as usize]
    }
}

} // verus!
