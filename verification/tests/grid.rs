use life_gl::grid::GridSize;

#[test]
fn one_pixel_cells_match_the_window() {
    assert_eq!(GridSize::new(640, 480, 1), GridSize { cells_wide: 640, cells_high: 480 });
}

#[test]
fn larger_cells_round_down() {
    assert_eq!(GridSize::new(640, 480, 2), GridSize { cells_wide: 320, cells_high: 240 });
    assert_eq!(GridSize::new(640, 480, 3), GridSize { cells_wide: 213, cells_high: 160 });
    assert_eq!(GridSize::new(5, 5, 10), GridSize { cells_wide: 0, cells_high: 0 });
}

#[test]
fn target_extent_is_sixteen_bit() {
    let g = GridSize { cells_wide: 640, cells_high: 480 };
    assert_eq!(g.target_extent(), (640, 480));
    let big = GridSize { cells_wide: 70000, cells_high: 65536 };
    assert_eq!(big.target_extent(), (4464, 0));
}
