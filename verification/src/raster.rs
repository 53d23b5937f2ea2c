use vstd::prelude::*;

use crate::glyph::glyph_of;
use crate::params::Dimensions;

verus! {

/// What a raster holds, as mathematics: the grid's size and, row by row from
/// the top left, the luma and the gradient of every cell.
pub struct RasterView {
    pub width: nat,
    pub height: nat,
    pub luma: Seq<u8>,
    pub gradient: Seq<u8>,
}

impl RasterView {
    /// Both sides are at least 1 and both planes hold one byte per cell.
    pub open spec fn wf(self) -> bool {
        &&& self.width > 0
        &&& self.height > 0
        &&& self.luma.len() == self.width * self.height
        &&& self.gradient.len() == self.width * self.height
    }

    /// Where the cell in column `x` of row `y` lies in the two planes.
    pub open spec fn offset(self, x: int, y: int) -> int {
        y * self.width + x
    }

    /// The glyph of the cell in column `x` of row `y` under a tone curve.
    pub open spec fn glyph_at(self, curve: Seq<u8>, x: int, y: int) -> char {
        glyph_of(curve, self.luma[self.offset(x, y)], self.gradient[self.offset(x, y)])
    }
}

/// Every cell of a well-formed raster has its own place in the planes.
pub proof fn lemma_offset_in_range(width: nat, height: nat, x: int, y: int)
    requires
        0 <= x < width,
        0 <= y < height,
    ensures
        0 <= y * width + x < width * height,
        y * width + x < (y + 1) * width <= width * height,
{
    assert(y * width + x < (y + 1) * width) by (nonlinear_arith)
        requires
            0 <= x < width,
    ;
    assert((y + 1) * width <= height * width) by (nonlinear_arith)
        requires
            0 <= y < height,
            0 < width,
    ;
    assert(width * height == height * width) by (nonlinear_arith);
    assert(0 <= y * width) by (nonlinear_arith)
        requires
            0 <= y,
            0 <= width,
    ;
}

/// A resized image as the glyph mapper sees it: a luma plane and a gradient
/// plane of one and the same size.
#[derive(Debug, PartialEq, Eq)]
pub struct Raster {
    dims: Dimensions,
    luma: Vec<u8>,
    gradient: Vec<u8>,
}

impl View for Raster {
    type V = RasterView;

    closed spec fn view(&self) -> RasterView {
        RasterView {
            width: self.dims.spec_width(),
            height: self.dims.spec_height(),
            luma: self.luma@,
            gradient: self.gradient@,
        }
    }
}

impl Raster {
    #[verifier::type_invariant]
    spec fn planes_fit(self) -> bool {
        &&& self.dims.spec_width() > 0
        &&& self.dims.spec_height() > 0
        &&& self.luma@.len() == self.dims.spec_cells()
        &&& self.gradient@.len() == self.dims.spec_cells()
    }

    /// Puts two planes together, given row by row from the top left.  They
    /// are accepted when each holds exactly one byte per cell of `dims`.
    pub fn new(dims: Dimensions, luma: Vec<u8>, gradient: Vec<u8>) -> (res: Option<Raster>)
        ensures
            res is Some <==> (luma@.len() == dims.spec_cells() && gradient@.len()
                == dims.spec_cells()),
            res matches Some(raster) ==> {
                &&& raster@.wf()
                &&& raster@.width == dims.spec_width()
                &&& raster@.height == dims.spec_height()
                &&& raster@.luma == luma@
                &&& raster@.gradient == gradient@
            },
    {
        let cells = dims.cells();
        if luma.len() as u64 == cells && gradient.len() as u64 == cells {
            Some(Raster { dims, luma, gradient })
        } else {
            None
        }
    }

    /// The size of the grid.
    pub fn dimensions(&self) -> (dims: Dimensions)
        ensures
            dims.spec_width() == self@.width,
            dims.spec_height() == self@.height,
            self@.wf(),
    {
        proof {
            use_type_invariant(self);
        }
        self.dims
    }

    /// The luma plane, row by row from the top left.
    pub fn luma(&self) -> (plane: &Vec<u8>)
        ensures
            plane@ == self@.luma,
            self@.wf(),
    {
        proof {
            use_type_invariant(self);
        }
        &self.luma
    }

    /// The gradient plane, row by row from the top left.
    pub fn gradient(&self) -> (plane: &Vec<u8>)
        ensures
            plane@ == self@.gradient,
            self@.wf(),
    {
        proof {
            use_type_invariant(self);
        }
        &self.gradient
    }

    /// The luma of the cell in column `x` of row `y`, if there is such a cell.
    pub fn luma_at(&self, x: u32, y: u32) -> (luma: Option<u8>)
        ensures
            luma is Some <==> (x < self@.width && y < self@.height),
            luma matches Some(v) ==> v == self@.luma[self@.offset(x as int, y as int)],
    {
        match self.index_of(x, y) {
            Some(i) => Some(self.luma[i]),
            None => None,
        }
    }

    /// The gradient of the cell in column `x` of row `y`, if there is such a
    /// cell.
    pub fn gradient_at(&self, x: u32, y: u32) -> (gradient: Option<u8>)
        ensures
            gradient is Some <==> (x < self@.width && y < self@.height),
            gradient matches Some(v) ==> v == self@.gradient[self@.offset(x as int, y as int)],
    {
        match self.index_of(x, y) {
            Some(i) => Some(self.gradient[i]),
            None => None,
        }
    }

    fn index_of(&self, x: u32, y: u32) -> (index: Option<usize>)
        ensures
            index is Some <==> (x < self@.width && y < self@.height),
            index matches Some(i) ==> {
                &&& i == self@.offset(x as int, y as int)
                &&& i < self.luma@.len()
                &&& i < self.gradient@.len()
            },
    {
        proof {
            use_type_invariant(self);
        }
        let width = self.dims.width();
        let height = self.dims.height();
        if x < width && y < height {
            proof {
                assert(self.luma@.len() == self.luma.len() <= usize::MAX);
                lemma_offset_in_range(width as nat, height as nat, x as int, y as int);
                assert(0 <= y * width <= y * width + x) by (nonlinear_arith)
                    requires
                        0 <= y,
                        0 <= width,
                        0 <= x,
                ;
            }
            Some(y as usize * width as usize + x as usize)
        } else {
            None
        }
    }
}

} // verus!
