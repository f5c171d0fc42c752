//! Image accumulation bookkeeping of the parallel engine.
//!
//! Workers hand finished photons back to a single aggregating thread;
//! the colour sums it keeps are floating point and live with the
//! renderer, but the per-pixel hit counts that normalize them, and the
//! total photon tally, are exact and kept here.  Cells are stored
//! row-major; every count is bounded by the photon tally.
use vstd::prelude::*;

verus! {

/// Per-pixel hit counts of one accumulation buffer, plus the total
/// number of photons merged into it.
pub struct HitCounts {
    pub width: usize,
    pub height: usize,
    pub counts: Vec<u64>,
    pub photons: u64,
}

impl HitCounts {
    pub open spec fn wf(self) -> bool {
        &&& self.counts@.len() == self.width * self.height
        &&& forall|i: int|
            0 <= i < self.counts@.len() ==> #[trigger] self.counts@[i] <= self.photons
    }

    /// Row-major cell index of a pixel.
    pub open spec fn cell_index(self, row: int, col: int) -> int {
        row * self.width + col
    }

    pub fn new(width: usize, height: usize) -> (g: HitCounts)
        requires
            width * height <= usize::MAX,
        ensures
            g.wf(),
            g.width == width,
            g.height == height,
            g.photons == 0,
            forall|i: int| 0 <= i < width * height ==> #[trigger] g.counts@[i] == 0,
    {
        let total: usize = width * height;
        let mut counts: Vec<u64> = Vec::new();
        let mut i: usize = 0;
        while i < total
            invariant
                i <= total,
                counts@.len() == i,
                forall|j: int| 0 <= j < i ==> #[trigger] counts@[j] == 0,
            decreases total - i,
        {
            counts.push(0);
            i = i + 1;
        }
        HitCounts { width, height, counts, photons: 0 }
    }

    /// Merge one finished photon's hit into its pixel: that cell and
    /// the photon tally go up by one, every other cell is unchanged.
    pub fn record_hit(&mut self, row: usize, col: usize)
        requires
            old(self).wf(),
            row < old(self).height,
            col < old(self).width,
            old(self).photons < u64::MAX,
        ensures
            final(self).wf(),
            final(self).width == old(self).width,
            final(self).height == old(self).height,
            final(self).photons == old(self).photons + 1,
            final(self).counts@ == old(self).counts@.update(
                old(self).cell_index(row as int, col as int),
                (old(self).counts@[old(self).cell_index(row as int, col as int)] + 1) as u64,
            ),
    {
        // Reading the length as a usize also bounds the row-major index
        // below within the machine's address range.
        let len: usize = self.counts.len();
        proof {
            assert(len == self.counts@.len());
            assert(row * self.width + col < self.width * self.height) by (nonlinear_arith)
                requires
                    row < self.height,
                    col < self.width,
            ;
        }
        let idx: usize = row * self.width + col;
        let c: u64 = self.counts[idx];
        self.counts.set(idx, c + 1);
        self.photons = self.photons + 1;
    }

    /// The hit count accumulated at one pixel.
    pub fn get(&self, row: usize, col: usize) -> (n: u64)
        requires
            self.wf(),
            row < self.height,
            col < self.width,
        ensures
            n == self.counts@[self.cell_index(row as int, col as int)],
    {
        // Reading the length as a usize also bounds the row-major index
        // below within the machine's address range.
        let len: usize = self.counts.len();
        proof {
            assert(len == self.counts@.len());
            assert(row * self.width + col < self.width * self.height) by (nonlinear_arith)
                requires
                    row < self.height,
                    col < self.width,
            ;
        }
        let idx: usize = row * self.width + col;
        self.counts[idx]
    }
}

} // verus!
