//! The target raster surface: a packed-RGB color buffer with a parallel
//! per-pixel depth buffer and a "current draw color" register.
//!
//! `point` is the single write gate: a pixel is overwritten exactly when
//! the incoming depth is strictly smaller than the stored depth, so equal
//! depths keep the first writer and draw order matters only for exact ties.

use vstd::prelude::*;
use vstd::pervasive::VecAdditionalExecFns;

verus! {

/// The depth every cell is reset to by `clear`: larger than any
/// representable depth, so the first fragment at a pixel always wins.
pub const DEPTH_INF: i64 = 0x7fff_ffff_ffff_ffff;

/// The color every pixel is reset to by `clear` (black space background).
pub const BACKGROUND: u32 = 0x000000;

/// Color + depth raster surface with fixed dimensions.
pub struct Framebuffer {
    pub width: usize,
    pub height: usize,
    pub color: Vec<u32>,
    pub depth: Vec<i64>,
    pub current_color: u32,
}

/// The color buffer after one depth-tested write of `c` at cell `i`.
pub open spec fn write_color_s(colors: Seq<u32>, depths: Seq<i64>, i: int, c: u32, d: i64) -> Seq<
    u32,
> {
    if d < depths[i] {
        colors.update(i, c)
    } else {
        colors
    }
}

/// The depth buffer after one depth-tested write at cell `i`.
pub open spec fn write_depth_s(depths: Seq<i64>, i: int, d: i64) -> Seq<i64> {
    if d < depths[i] {
        depths.update(i, d)
    } else {
        depths
    }
}

impl Framebuffer {
    /// Both buffers cover exactly `width * height` cells.
    pub open spec fn wf(self) -> bool {
        &&& self.color.len() == self.width * self.height
        &&& self.depth.len() == self.width * self.height
    }

    /// The buffer cell holding pixel `(x, y)`, row-major.
    pub open spec fn cell(self, x: int, y: int) -> int {
        y * self.width + x
    }

    /// A pixel position inside the surface.
    pub open spec fn in_bounds(self, x: int, y: int) -> bool {
        0 <= x < self.width && 0 <= y < self.height
    }

    /// Row-major cells of in-bounds pixels are valid buffer indices.
    pub proof fn lemma_cell_in_range(self, x: int, y: int)
        requires
            self.wf(),
            self.in_bounds(x, y),
        ensures
            0 <= self.cell(x, y) < self.color.len(),
            0 <= self.cell(x, y) < self.depth.len(),
    {
        assert(y * self.width + x < self.width * self.height) by (nonlinear_arith)
            requires
                0 <= x < self.width,
                0 <= y < self.height,
        ;
        assert(0 <= y * self.width) by (nonlinear_arith)
            requires
                0 <= y,
                0 <= self.width,
        ;
    }

    /// Allocate a surface of fixed dimensions, fully cleared.
    pub fn new(width: usize, height: usize) -> (r: Framebuffer)
        requires
            width * height <= usize::MAX,
        ensures
            r.wf(),
            r.width == width,
            r.height == height,
            r.current_color == BACKGROUND,
            forall|i: int| 0 <= i < r.color.len() ==> r.color@[i] == BACKGROUND,
            forall|i: int| 0 <= i < r.depth.len() ==> r.depth@[i] == DEPTH_INF,
    {
        let n: usize = width * height;
        let mut color: Vec<u32> = Vec::new();
        let mut depth: Vec<i64> = Vec::new();
        let mut i: usize = 0;
        while i < n
            invariant
                i <= n,
                color.len() == i,
                depth.len() == i,
                forall|j: int| 0 <= j < i ==> color@[j] == BACKGROUND,
                forall|j: int| 0 <= j < i ==> depth@[j] == DEPTH_INF,
            decreases n - i,
        {
            color.push(BACKGROUND);
            depth.push(DEPTH_INF);
            i = i + 1;
        }
        Framebuffer { width, height, color, depth, current_color: BACKGROUND }
    }

    /// Reset every pixel to the background color and every depth cell to
    /// `DEPTH_INF`; runs on every frame boundary.
    pub fn clear(&mut self)
        requires
            old(self).wf(),
        ensures
            final(self).wf(),
            final(self).width == old(self).width,
            final(self).height == old(self).height,
            final(self).current_color == old(self).current_color,
            forall|i: int|
                0 <= i < final(self).color.len() ==> final(self).color@[i] == BACKGROUND,
            forall|i: int|
                0 <= i < final(self).depth.len() ==> final(self).depth@[i] == DEPTH_INF,
    {
        let n: usize = self.color.len();
        let mut i: usize = 0;
        while i < n
            invariant
                i <= n,
                self.color.len() == n,
                self.depth.len() == n,
                self.width == old(self).width,
                self.height == old(self).height,
                self.current_color == old(self).current_color,
                old(self).wf(),
                n == old(self).color.len(),
                forall|j: int| 0 <= j < i ==> self.color@[j] == BACKGROUND,
                forall|j: int| 0 <= j < i ==> self.depth@[j] == DEPTH_INF,
            decreases n - i,
        {
            self.color.set(i, BACKGROUND);
            self.depth.set(i, DEPTH_INF);
            i = i + 1;
        }
    }

    /// Set the scalar color register consulted by `point`.
    pub fn set_current_color(&mut self, c: u32)
        ensures
            final(self).current_color == c,
            final(self).width == old(self).width,
            final(self).height == old(self).height,
            final(self).color == old(self).color,
            final(self).depth == old(self).depth,
    {
        self.current_color = c;
    }

    /// Depth-tested pixel write: strictly nearer fragments overwrite color
    /// and depth, everything else leaves the surface untouched.  Callers
    /// reject out-of-bounds positions before calling.
    pub fn point(&mut self, x: usize, y: usize, depth: i64)
        requires
            old(self).wf(),
            x < old(self).width,
            y < old(self).height,
        ensures
            final(self).wf(),
            final(self).width == old(self).width,
            final(self).height == old(self).height,
            final(self).current_color == old(self).current_color,
            final(self).color@ == write_color_s(
                old(self).color@,
                old(self).depth@,
                old(self).cell(x as int, y as int),
                old(self).current_color,
                depth,
            ),
            final(self).depth@ == write_depth_s(
                old(self).depth@,
                old(self).cell(x as int, y as int),
                depth,
            ),
    {
        proof {
            old(self).lemma_cell_in_range(x as int, y as int);
            assert((y * self.width + x) as int == old(self).cell(x as int, y as int));
        }
        let i: usize = y * self.width + x;
        if depth < self.depth[i] {
            let c: u32 = self.current_color;
            self.color.set(i, c);
            self.depth.set(i, depth);
        }
    }
}

/// How any sequence of depth-tested writes relates a later buffer state
/// to an earlier one: no depth ever grows, and a pixel whose depth did
/// not change keeps its color.
pub open spec fn depth_gated(
    colors0: Seq<u32>,
    depths0: Seq<i64>,
    colors1: Seq<u32>,
    depths1: Seq<i64>,
) -> bool {
    &&& colors1.len() == colors0.len()
    &&& depths1.len() == depths0.len()
    &&& colors0.len() == depths0.len()
    &&& forall|i: int| 0 <= i < depths0.len() ==> #[trigger] depths1[i] <= depths0[i]
    &&& forall|i: int|
        0 <= i < depths0.len() && #[trigger] depths1[i] == depths0[i] ==> colors1[i] == colors0[i]
}

/// One depth-tested write satisfies `depth_gated`.
pub proof fn lemma_write_depth_gated(colors: Seq<u32>, depths: Seq<i64>, i: int, c: u32, d: i64)
    requires
        0 <= i < depths.len(),
        colors.len() == depths.len(),
    ensures
        depth_gated(
            colors,
            depths,
            write_color_s(colors, depths, i, c, d),
            write_depth_s(depths, i, d),
        ),
{
}

/// `depth_gated` is transitive, so it holds of a whole pass when it
/// holds of every write.
pub proof fn lemma_depth_gated_trans(
    colors0: Seq<u32>,
    depths0: Seq<i64>,
    colors1: Seq<u32>,
    depths1: Seq<i64>,
    colors2: Seq<u32>,
    depths2: Seq<i64>,
)
    requires
        depth_gated(colors0, depths0, colors1, depths1),
        depth_gated(colors1, depths1, colors2, depths2),
    ensures
        depth_gated(colors0, depths0, colors2, depths2),
{
}

/// Depth-test monotonicity: after two depth-tested writes at the same
/// cell, both passing against the stored depth, the surviving color is the
/// one with the strictly smaller depth whichever write came first, and an
/// exact tie keeps the first writer.  Instantiating this lemma with the
/// writes in either order shows the final color does not depend on draw
/// order except for ties.
pub proof fn lemma_depth_test_monotonic(
    colors: Seq<u32>,
    depths: Seq<i64>,
    i: int,
    c1: u32,
    d1: i64,
    c2: u32,
    d2: i64,
)
    requires
        0 <= i < colors.len(),
        depths.len() == colors.len(),
        d1 < depths[i],
        d2 < depths[i],
    ensures
        ({
            let colors1 = write_color_s(colors, depths, i, c1, d1);
            let depths1 = write_depth_s(depths, i, d1);
            let colors2 = write_color_s(colors1, depths1, i, c2, d2);
            let depths2 = write_depth_s(depths1, i, d2);
            &&& (d1 <= d2 ==> colors2[i] == c1)
            &&& (d2 < d1 ==> colors2[i] == c2)
            &&& depths2[i] == if d1 <= d2 {
                d1
            } else {
                d2
            }
        }),
{
}

} // verus!
