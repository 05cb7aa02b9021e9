use vstd::prelude::*;
use crate::error::PipelineError;
use crate::matrix::{Matrix, uniform_vectors};

verus! {

/// The layout of a gradient-histogram descriptor over one detection window:
/// window, block, block stride and cell sizes in pixels, and the number of
/// orientation bins per cell.
#[derive(Debug, Clone, Copy, PartialEq, Eq, Structural)]
pub struct HogGeometry {
    pub win_width: usize,
    pub win_height: usize,
    pub block_width: usize,
    pub block_height: usize,
    pub stride_width: usize,
    pub stride_height: usize,
    pub cell_width: usize,
    pub cell_height: usize,
    pub nbins: usize,
}

/// The reference layout: a 64 x 64 window, 16 x 16 blocks moved 4 pixels at a
/// time, 4 x 4 cells and 9 bins.
pub open spec fn reference_geometry() -> HogGeometry {
    HogGeometry {
        win_width: 64,
        win_height: 64,
        block_width: 16,
        block_height: 16,
        stride_width: 4,
        stride_height: 4,
        cell_width: 4,
        cell_height: 4,
        nbins: 9,
    }
}

impl HogGeometry {
    /// Every size is positive, a block fits in the window and is tiled by whole
    /// cells, and the blocks, moved by the stride, end on the window's edge.
    pub open spec fn valid(&self) -> bool {
        &&& self.win_width > 0 && self.win_height > 0
        &&& self.block_width > 0 && self.block_height > 0
        &&& self.stride_width > 0 && self.stride_height > 0
        &&& self.cell_width > 0 && self.cell_height > 0
        &&& self.nbins > 0
        &&& self.block_width <= self.win_width && self.block_height <= self.win_height
        &&& self.block_width % self.cell_width == 0 && self.block_height % self.cell_height == 0
        &&& (self.win_width - self.block_width) % self.stride_width as int == 0
        &&& (self.win_height - self.block_height) % self.stride_height as int == 0
    }

    /// Cells per block times bins per cell.
    pub open spec fn block_len(&self) -> int {
        self.nbins * (self.block_width / self.cell_width) as int * (self.block_height
            / self.cell_height) as int
    }

    /// Block positions across the window, horizontally and vertically.
    pub open spec fn blocks_across(&self) -> int {
        (self.win_width - self.block_width) / self.stride_width as int + 1
    }

    pub open spec fn blocks_down(&self) -> int {
        (self.win_height - self.block_height) / self.stride_height as int + 1
    }

    /// The number of values in one descriptor of this layout.
    pub open spec fn spec_descriptor_len(&self) -> int {
        self.block_len() * self.blocks_across() * self.blocks_down()
    }

    /// The reference layout; see `reference_geometry`.
    pub fn reference() -> (r: HogGeometry)
        ensures
            r == reference_geometry(),
            r.valid(),
    {
        HogGeometry {
            win_width: 64,
            win_height: 64,
            block_width: 16,
            block_height: 16,
            stride_width: 4,
            stride_height: 4,
            cell_width: 4,
            cell_height: 4,
            nbins: 9,
        }
    }

    /// Whether the layout is valid; see `valid`.
    pub fn is_valid(&self) -> (r: bool)
        ensures
            r == self.valid(),
    {
        self.win_width > 0 && self.win_height > 0 && self.block_width > 0 && self.block_height > 0
            && self.stride_width > 0 && self.stride_height > 0 && self.cell_width > 0
            && self.cell_height > 0 && self.nbins > 0 && self.block_width <= self.win_width
            && self.block_height <= self.win_height && self.block_width % self.cell_width == 0
            && self.block_height % self.cell_height == 0 && (self.win_width - self.block_width)
            % self.stride_width == 0 && (self.win_height - self.block_height) % self.stride_height
            == 0
    }

    /// The length of every descriptor of this layout: `None` for an invalid
    /// layout or a length beyond `usize`.
    pub fn descriptor_len(&self) -> (r: Option<usize>)
        ensures
            r == (if self.valid() && self.spec_descriptor_len() <= usize::MAX {
                Some(self.spec_descriptor_len() as usize)
            } else {
                None::<usize>
            }),
    {
        if !self.is_valid() {
            return None;
        }
        let a = self.nbins;
        let b = self.block_width / self.cell_width;
        let c = self.block_height / self.cell_height;
        let d = (self.win_width - self.block_width) / self.stride_width + 1;
        let e = (self.win_height - self.block_height) / self.stride_height + 1;
        proof {
            assert(self.block_width / self.cell_width >= 1) by (nonlinear_arith)
                requires
                    self.block_width > 0,
                    self.cell_width > 0,
                    self.block_width % self.cell_width == 0,
            ;
            assert(self.block_height / self.cell_height >= 1) by (nonlinear_arith)
                requires
                    self.block_height > 0,
                    self.cell_height > 0,
                    self.block_height % self.cell_height == 0,
            ;
            let (ai, bi, ci, di, ei) = (a as int, b as int, c as int, d as int, e as int);
            lemma_grow(ai, bi);
            lemma_grow(ai * bi, ci);
            lemma_grow(ai * bi * ci, di);
            lemma_grow(ai * bi * ci * di, ei);
        }
        let ab = match a.checked_mul(b) {
            Some(x) => x,
            None => return None,
        };
        let abc = match ab.checked_mul(c) {
            Some(x) => x,
            None => return None,
        };
        let abcd = match abc.checked_mul(d) {
            Some(x) => x,
            None => return None,
        };
        match abcd.checked_mul(e) {
            Some(x) => Some(x),
            None => None,
        }
    }
}

proof fn lemma_grow(x: int, y: int)
    requires
        x >= 0,
        y >= 1,
    ensures
        x * y >= x,
{
    assert(x * y >= x) by (nonlinear_arith)
        requires
            x >= 0,
            y >= 1,
    ;
}

/// Every descriptor of the reference layout holds 24336 values: 13 x 13 block
/// positions, 16 cells per block, 9 bins per cell.
pub proof fn lemma_reference_descriptor_len()
    ensures
        reference_geometry().valid(),
        reference_geometry().spec_descriptor_len() == 24336,
{
    let g = reference_geometry();
    assert(g.block_len() == 144);
    assert(g.blocks_across() == 13);
    assert(g.blocks_down() == 13);
    assert(144 * 13 * 13 == 24336int);
}

/// Accepts what a descriptor primitive computed for one sample under `geometry`,
/// as the column vector it hands back, when it holds exactly the layout's
/// number of values; anything else is the primitive's failure.
pub fn sample_descriptor<T>(geometry: &HogGeometry, values: Vec<T>) -> (r: Result<
    Matrix<T>,
    PipelineError,
>)
    ensures
        geometry.valid() && values@.len() == geometry.spec_descriptor_len() ==> (r matches Ok(m)
            && m.rows == values@.len() && m.cols == 1 && m.data@ == values@ && m.wf()),
        !(geometry.valid() && values@.len() == geometry.spec_descriptor_len()) ==> r == Err::<
            Matrix<T>,
            PipelineError,
        >(PipelineError::CollaboratorFailure),
{
    let len = values.len();
    match geometry.descriptor_len() {
        Some(n) => {
            if len == n {
                Ok(Matrix::column(values))
            } else {
                Err(PipelineError::CollaboratorFailure)
            }
        },
        None => Err(PipelineError::CollaboratorFailure),
    }
}

/// Descriptors extracted under one layout all have its length, whatever the
/// image: any sequence of them, each a column as `sample_descriptor` gives it,
/// stacks into a training matrix without a shape mismatch.
pub proof fn lemma_descriptors_stack<T>(geometry: HogGeometry, s: Seq<Matrix<T>>)
    requires
        forall|i: int|
            0 <= i < s.len() ==> (#[trigger] s[i]).cols == 1 && s[i].rows == s[i].data@.len()
                && s[i].data@.len() == geometry.spec_descriptor_len(),
    ensures
        uniform_vectors(s),
{
}

} // verus!
