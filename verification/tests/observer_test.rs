use raytracer::observer::{
    batch_cells, pixel_from_count, progress_percent, run_finished, HEIGHT, MAX_COUNTS,
    NUM_COVERS_PER, PHOTON_BATCH_SIZE, WIDTH,
};

// Cells per cover, from (512, 288) shrinking to nine tenths six times:
// 512*288 + 460*259 + 414*233 + 372*209 + 334*188 + 300*169 + 270*152.
const PLAN_CELLS: usize = 595_338;

#[test]
fn first_count_samples_the_corner() {
    let c = pixel_from_count(0).unwrap();
    assert_eq!((c.row, c.col), (0, 0));
    assert_eq!((c.cover_width, c.cover_height), (WIDTH, HEIGHT));
    assert_eq!((c.pix_row, c.pix_col), (0, 0));
}

#[test]
fn ten_counts_per_cell() {
    let a = pixel_from_count(9).unwrap();
    assert_eq!((a.row, a.col), (0, 0));
    let b = pixel_from_count(10).unwrap();
    assert_eq!((b.row, b.col), (0, 1));
    assert_eq!((b.pix_row, b.pix_col), (0, 1));
}

#[test]
fn second_cover_is_centred() {
    // The first count past the full-image cover.
    let count = WIDTH * HEIGHT * NUM_COVERS_PER;
    let c = pixel_from_count(count).unwrap();
    assert_eq!((c.cover_width, c.cover_height), (460, 259));
    assert_eq!((c.row, c.col), (0, 0));
    assert_eq!((c.pix_row, c.pix_col), ((HEIGHT - 259) / 2, (WIDTH - 460) / 2));
    assert_eq!((c.pix_row, c.pix_col), (14, 26));
}

#[test]
fn plan_exhausts_after_the_last_cover() {
    let last = pixel_from_count(PLAN_CELLS * NUM_COVERS_PER - 1).unwrap();
    assert_eq!((last.cover_width, last.cover_height), (270, 152));
    assert_eq!((last.row, last.col), (151, 269));
    assert!(pixel_from_count(PLAN_CELLS * NUM_COVERS_PER).is_none());
    assert!(pixel_from_count(usize::MAX / 2).is_none());
}

#[test]
fn planned_pixels_stay_inside_the_image() {
    let mut count: usize = 0;
    while count < PLAN_CELLS * NUM_COVERS_PER {
        if let Some(c) = pixel_from_count(count) {
            assert!(c.pix_row < HEIGHT);
            assert!(c.pix_col < WIDTH);
        } else {
            panic!("plan ended early at {count}");
        }
        count += 9_999;
    }
}

#[test]
fn batches_have_full_size_with_end_sentinels() {
    let batch = batch_cells(0);
    assert_eq!(batch.len(), PHOTON_BATCH_SIZE);
    assert!(batch.iter().all(|c| c.is_some()));

    let tail_start = PLAN_CELLS * NUM_COVERS_PER - 180;
    let tail = batch_cells(tail_start);
    assert_eq!(tail.len(), PHOTON_BATCH_SIZE);
    for (k, cell) in tail.iter().enumerate() {
        assert_eq!(cell.is_some(), k < 180);
        if let Some(c) = cell {
            assert!(c.pix_row < HEIGHT && c.pix_col < WIDTH);
        }
    }
}

#[test]
fn progress_reaches_one_hundred() {
    assert_eq!(progress_percent(0), 0);
    assert_eq!(progress_percent(MAX_COUNTS / 2), 50);
    assert_eq!(progress_percent(MAX_COUNTS - 1), 99);
    assert_eq!(progress_percent(MAX_COUNTS), 100);
    assert_eq!(progress_percent(MAX_COUNTS + MAX_COUNTS / 10), 110);
    assert!(!run_finished(99));
    assert!(run_finished(100));
    assert!(run_finished(110));
}
