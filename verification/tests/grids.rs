use lfit_rs::brightspot::{spot_count, strip_layout, StripSlot};
use lfit_rs::disc::{ring_count, ring_tile_counts};
use lfit_rs::donor::{checked_grid_size, grid_mode, longitude_count};

#[test]
fn ring_count_default_disc() {
    // 25 rings hold 25 * 76 / 2 = 950 tiles; 26 rings would hold 1027.
    assert_eq!(ring_count(1000), 25);
}

#[test]
fn ring_count_small_sizes() {
    assert_eq!(ring_count(0), 0);
    assert_eq!(ring_count(1), 0);
    assert_eq!(ring_count(2), 1);
    assert_eq!(ring_count(6), 1);
    assert_eq!(ring_count(7), 2);
}

#[test]
fn ring_count_matches_closed_form() {
    for size in 0usize..5000 {
        let expected = ((-1.0 + (1.0 + 24.0 * size as f64).sqrt()) / 6.0) as usize;
        assert_eq!(ring_count(size), expected, "size {}", size);
    }
}

#[test]
fn ring_tile_counts_three_rings() {
    assert_eq!(ring_tile_counts(3), vec![6, 5, 4]);
    assert_eq!(ring_tile_counts(0), Vec::<usize>::new());
}

#[test]
fn disc_grid_total_fits_request() {
    for size in [1usize, 10, 100, 1000, 12345] {
        let n = ring_count(size);
        let rings = ring_tile_counts(n);
        let total: usize = rings.iter().sum();
        assert_eq!(2 * total, n * (3 * n + 1));
        assert!(total <= size);
        assert!(2 * size < (n + 1) * (3 * n + 4));
        for w in rings.windows(2) {
            assert!(w[0] > w[1]);
        }
    }
}

#[test]
fn spot_count_clamps() {
    assert_eq!(spot_count(0), 200);
    assert_eq!(spot_count(50), 200);
    assert_eq!(spot_count(200), 200);
    assert_eq!(spot_count(500), 500);
    assert_eq!(spot_count(1000), 1000);
    assert_eq!(spot_count(5000), 1000);
}

#[test]
fn strip_layout_four_elements() {
    let t = StripSlot::Tilted;
    let p = StripSlot::Parallel;
    let f = StripSlot::Filler;
    let expected = vec![
        t(0), t(1), t(2), t(3), f, f, f, p(3), p(2), p(1), p(0), f, f, f, f, f,
    ];
    assert_eq!(strip_layout(4), expected);
}

#[test]
fn strip_layout_tilted_first() {
    let n = 200;
    let grid = strip_layout(n);
    assert_eq!(grid.len(), 4 * n);
    for (k, slot) in grid.iter().enumerate() {
        match slot {
            StripSlot::Tilted(i) => {
                assert!(k < n);
                assert_eq!(*i, k);
            }
            StripSlot::Parallel(i) => assert_eq!(k, 3 * n - 2 - i),
            StripSlot::Filler => assert!(k >= n),
        }
    }
    let fillers = grid.iter().filter(|s| **s == StripSlot::Filler).count();
    assert_eq!(fillers, 2 * n);
}

#[test]
fn strip_layout_empty() {
    assert!(strip_layout(0).is_empty());
}

#[test]
fn donor_grid_mode() {
    assert_eq!(grid_mode(0), (true, 2));
    assert_eq!(grid_mode(20), (false, 20));
}

#[test]
fn donor_longitude_count() {
    assert_eq!(longitude_count(0), 16);
    assert_eq!(longitude_count(3), 16);
    assert_eq!(longitude_count(16), 16);
    assert_eq!(longitude_count(40), 40);
}

#[test]
fn donor_grid_size() {
    assert_eq!(checked_grid_size(&vec![1, 20, 3]), Some(52));
    assert_eq!(checked_grid_size(&vec![]), Some(0));
    assert_eq!(checked_grid_size(&vec![usize::MAX, 1]), None);
    assert_eq!(checked_grid_size(&vec![usize::MAX - 16]), Some(usize::MAX - 16));
    let wanted = vec![0usize; 7];
    assert_eq!(checked_grid_size(&wanted), Some(16 * 7));
}
