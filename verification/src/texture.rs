//! A rectangular grid of samples addressed by integer texel coordinates.
use vstd::prelude::*;

use crate::geometry::Dimensions;

verus! {

/// A `width x height` grid of samples stored row-major. The sample count
/// always equals `width * height`; construction enforces it.
pub struct Texture<T> {
    size: Dimensions,
    pixels: Vec<T>,
}

impl<T> Texture<T> {
    /// The sample count matches the declared extent.
    #[verifier::type_invariant]
    pub closed spec fn wf(&self) -> bool {
        self.pixels@.len() == self.size.width * self.size.height
    }

    /// The samples of the texture, row-major.
    pub closed spec fn spec_pixels(&self) -> Seq<T> {
        self.pixels@
    }

    /// The declared extent of the texture.
    pub closed spec fn spec_size(&self) -> Dimensions {
        self.size
    }

    /// Wraps a row-major sample grid; the sample count must match the
    /// declared extent.
    pub fn new(pixels: Vec<T>, size: Dimensions) -> (r: Texture<T>)
        requires
            pixels@.len() == size.width * size.height,
        ensures
            r.spec_pixels() == pixels@,
            r.spec_size() == size,
    {
        Texture { size, pixels }
    }

    /// The extent of the texture.
    pub fn size(&self) -> (r: Dimensions)
        ensures
            r == self.spec_size(),
    {
        self.size
    }
}

impl<T: Copy> Texture<T> {
    /// The sample at integer texel coordinate `(x, y)`, column `x` of row
    /// `y` of the row-major grid.
    pub fn texel(&self, x: u32, y: u32) -> (r: T)
        requires
            x < self.spec_size().width,
            y < self.spec_size().height,
        ensures
            r == self.spec_pixels()[y * self.spec_size().width + x],
    {
        proof {
            use_type_invariant(self);
            assert((y as int) * (self.size.width as int) + (x as int)
                < (self.size.width as int) * (self.size.height as int)) by (nonlinear_arith)
                requires
                    (x as int) < (self.size.width as int),
                    (y as int) < (self.size.height as int),
            ;
        }
        // binding the length brings its usize bound into scope, which the
        // index computation below needs to be free of overflow
        let _n: usize = self.pixels.len();
        let idx: usize = (y as usize) * (self.size.width as usize) + (x as usize);
        self.pixels[idx]
    }
}

impl<T: Clone> Clone for Texture<T> {
    /// A clone keeps the extent, and clones the samples one by one.
    fn clone(&self) -> (r: Self)
        ensures
            r.spec_size() == self.spec_size(),
            r.spec_pixels().len() == self.spec_pixels().len(),
            forall|i: int|
                0 <= i < self.spec_pixels().len() ==> vstd::pervasive::cloned::<T>(
                    self.spec_pixels()[i],
                    #[trigger] r.spec_pixels()[i],
                ),
    {
        proof {
            use_type_invariant(self);
        }
        Texture { size: self.size, pixels: self.pixels.clone() }
    }
}

} // verus!
