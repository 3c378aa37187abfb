use rusty_live2d::runtime::{WarpInterpolation, warp_cell_corners};

#[test]
fn finds_the_corners_of_warp_grid_cells() {
    assert_eq!(warp_cell_corners(9, 2, 2, 0, 0), Some([0, 1, 3, 4]));
    assert_eq!(warp_cell_corners(9, 2, 2, 1, 1), Some([4, 5, 7, 8]));
    assert_eq!(warp_cell_corners(12, 3, 2, 2, 0), Some([2, 3, 6, 7]));
    assert_eq!(warp_cell_corners(100, 2, 2, 1, 1), Some([4, 5, 7, 8]));
}

#[test]
fn rejects_cells_outside_the_grid() {
    assert_eq!(warp_cell_corners(9, 2, 2, 2, 0), None);
    assert_eq!(warp_cell_corners(9, 2, 2, 0, 2), None);
    assert_eq!(warp_cell_corners(8, 2, 2, 0, 0), None);
    assert_eq!(warp_cell_corners(9, 0, 2, 0, 0), None);
    assert_eq!(warp_cell_corners(usize::MAX, usize::MAX, 1, 0, 0), None);
    assert_eq!(warp_cell_corners(usize::MAX, 1, usize::MAX, 0, 0), None);
    assert_eq!(warp_cell_corners(usize::MAX, usize::MAX / 2, 3, 0, 0), None);
}

#[test]
fn warp_interpolations_are_distinct() {
    assert_ne!(WarpInterpolation::Quad, WarpInterpolation::Triangle);
}
