//! The observer's pixel sampling plan and progress accounting.
//!
//! Pixel samples are drawn over a pyramid of progressively smaller,
//! centred covers of the image: every pixel of a cover receives
//! `NUM_COVERS_PER` consecutive sample counts, the first cover is the
//! whole image, and each of the `NUM_SLICES` covers shrinks both
//! dimensions to nine tenths.  This module maps a running sample count
//! to the cell it samples and to the image pixel that accumulates it
//! (always in range), builds whole batches of such cells, and converts
//! sample counts to the progress percentage whose reaching 100 stops
//! the run.  Turning a cell into an initial photon position and
//! velocity is camera geometry, outside this crate.
use vstd::prelude::*;

verus! {

use vstd::arithmetic::div_mod::{
    lemma_div_is_ordered,
    lemma_div_pos_is_pos,
    lemma_mod_division_less_than_divisor,
    lemma_multiply_divide_lt,
};
use vstd::arithmetic::mul::lemma_mul_upper_bound;

pub const SIZE: usize = 32;

/// Image width in pixels.
pub const WIDTH: usize = 16 * SIZE;

/// Image height in pixels.
pub const HEIGHT: usize = 9 * SIZE;

/// Photons handed to a worker at a time.
pub const PHOTON_BATCH_SIZE: usize = 256;

/// Consecutive sample counts given to one cell of a cover.
pub const NUM_COVERS_PER: usize = 10;

/// Number of covers in the pyramid.
pub const NUM_SLICES: usize = 7;

/// Denominator of the progress percentage.
pub const MAX_COUNTS: usize = WIDTH * HEIGHT * NUM_SLICES * NUM_COVERS_PER;

/// One cell of the sampling plan: its position and dimensions within
/// its cover, and the image pixel that accumulates the sample.
pub struct SampleCell {
    pub row: usize,
    pub col: usize,
    pub cover_width: usize,
    pub cover_height: usize,
    pub pix_row: usize,
    pub pix_col: usize,
}

/// Walk the cover pyramid: if the (already per-cell) count falls inside
/// the current `w` by `h` cover, it samples that cover's cell
/// `(count / w, count % w)`; otherwise move past this cover to the next,
/// nine-tenths-sized one, until the covers or the minimum height run
/// out.
pub open spec fn locate_spec(count: int, index: int, w: int, h: int) -> Option<
    (int, int, int, int),
>
    decreases NUM_SLICES - index,
{
    if count < w * h {
        Some((count / w, count % w, w, h))
    } else if index + 1 >= NUM_SLICES || (h * 9) / 10 <= 2 {
        None
    } else {
        locate_spec(count - w * h, index + 1, (w * 9) / 10, (h * 9) / 10)
    }
}

/// The cell sampled by a raw count, if the plan has not run out.
pub open spec fn plan_cell_spec(count: int) -> Option<(int, int, int, int)> {
    locate_spec(count / (NUM_COVERS_PER as int), 0, WIDTH as int, HEIGHT as int)
}

/// What `pixel_from_count` returns: the planned cell, with the image
/// pixel centred by half the margin of its cover and always inside the
/// image.
pub open spec fn cell_ok(oc: Option<SampleCell>, count: int) -> bool {
    match oc {
        Some(c) => {
            &&& plan_cell_spec(count) == Some(
                (c.row as int, c.col as int, c.cover_width as int, c.cover_height as int),
            )
            &&& c.pix_row == c.row + (HEIGHT - c.cover_height) / 2
            &&& c.pix_col == c.col + (WIDTH - c.cover_width) / 2
            &&& c.pix_row < HEIGHT
            &&& c.pix_col < WIDTH
        },
        None => plan_cell_spec(count) is None,
    }
}

/// Map a raw sample count to its cell and image pixel, or `None` once
/// the plan is exhausted.
pub fn pixel_from_count(count: usize) -> (cell: Option<SampleCell>)
    ensures
        cell_ok(cell, count as int),
{
    let mut c: usize = count / NUM_COVERS_PER;
    let mut w: usize = WIDTH;
    let mut h: usize = HEIGHT;
    let mut index: usize = 0;
    loop
        invariant
            3 <= h <= w,
            w <= WIDTH,
            h <= HEIGHT,
            index < NUM_SLICES,
            plan_cell_spec(count as int) == locate_spec(c as int, index as int, w as int,
                h as int),
        decreases NUM_SLICES - index,
    {
        proof {
            lemma_mul_upper_bound(w as int, WIDTH as int, h as int, HEIGHT as int);
        }
        if c < w * h {
            let row: usize = c / w;
            let col: usize = c % w;
            proof {
                lemma_multiply_divide_lt(c as int, w as int, h as int);
                lemma_div_pos_is_pos(c as int, w as int);
                lemma_mod_division_less_than_divisor(c as int, w as int);
            }
            return Some(
                SampleCell {
                    row,
                    col,
                    cover_width: w,
                    cover_height: h,
                    pix_row: row + (HEIGHT - h) / 2,
                    pix_col: col + (WIDTH - w) / 2,
                },
            );
        }
        let w2: usize = (w * 9) / 10;
        let h2: usize = (h * 9) / 10;
        if index + 1 >= NUM_SLICES || h2 <= 2 {
            return None;
        }
        proof {
            lemma_div_is_ordered(h as int * 9, w as int * 9, 10);
            lemma_div_is_ordered(w as int * 9, w as int * 10, 10);
            lemma_div_is_ordered(h as int * 9, h as int * 10, 10);
            assert(w as int * 10 / 10 == w as int);
            assert(h as int * 10 / 10 == h as int);
        }
        c = c - w * h;
        w = w2;
        h = h2;
        index = index + 1;
    }
}

/// The progress percentage reported after `num_counts` samples have
/// been issued; the run stops once it reaches 100.  The bound on
/// `num_counts` keeps the arithmetic in range and is far beyond any
/// count the engine can issue before stopping.
pub fn progress_percent(num_counts: usize) -> (pct: u32)
    requires
        num_counts <= 100 * MAX_COUNTS,
    ensures
        pct == num_counts * 100 / (MAX_COUNTS as int),
{
    proof {
        assert(num_counts as int * 100 <= 10_000 * (MAX_COUNTS as int));
        vstd::arithmetic::div_mod::lemma_div_by_multiple(10_000, MAX_COUNTS as int);
        lemma_div_is_ordered(num_counts as int * 100, 10_000 * (MAX_COUNTS as int),
            MAX_COUNTS as int);
        lemma_div_pos_is_pos(num_counts as int * 100, MAX_COUNTS as int);
    }
    let pct64: u64 = (num_counts as u64) * 100 / (MAX_COUNTS as u64);
    pct64 as u32
}

/// Whether the run is finished: the documented stop rule is reaching
/// (or, with worker overshoot, exceeding) one hundred percent.
pub fn run_finished(percent: u32) -> (done: bool)
    ensures
        done <==> percent >= 100,
{
    percent >= 100
}

/// Plan one batch: the cells sampled by `PHOTON_BATCH_SIZE` consecutive
/// counts starting at `start`, with `None` marking slots past the end
/// of the plan.  Every planned pixel lies inside the image.
pub fn batch_cells(start: usize) -> (cells: Vec<Option<SampleCell>>)
    requires
        start + PHOTON_BATCH_SIZE <= usize::MAX,
    ensures
        cells@.len() == PHOTON_BATCH_SIZE,
        forall|k: int|
            0 <= k < PHOTON_BATCH_SIZE ==> cell_ok(#[trigger] cells@[k], start + k),
{
    let mut cells: Vec<Option<SampleCell>> = Vec::new();
    let mut k: usize = 0;
    while k < PHOTON_BATCH_SIZE
        invariant
            k <= PHOTON_BATCH_SIZE,
            start + PHOTON_BATCH_SIZE <= usize::MAX,
            cells@.len() == k,
            forall|j: int| 0 <= j < k ==> cell_ok(#[trigger] cells@[j], start + j),
        decreases PHOTON_BATCH_SIZE - k,
    {
        let cell = pixel_from_count(start + k);
        cells.push(cell);
        k = k + 1;
    }
    cells
}

} // verus!
