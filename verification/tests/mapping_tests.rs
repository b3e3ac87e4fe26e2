use minesweeper::coords::{map_axis, map_click, tile_center, NormCoord};

fn nc(num: i64, den: i64) -> NormCoord {
    NormCoord::new(num, den).unwrap()
}

#[test]
fn lower_left_corner_maps_to_origin_cell() {
    // x = -1.0, y = -1.0 on a 10x10 board.
    let r = map_click(nc(-1, 1), nc(-1, 1), 10, 10);
    assert_eq!(r, Some((0, 0)));
}

#[test]
fn near_upper_right_corner_maps_to_last_cell() {
    // x = 0.999, y = 0.999 on a 10x10 board.
    let r = map_click(nc(999, 1000), nc(999, 1000), 10, 10);
    assert_eq!(r, Some((9, 9)));
}

#[test]
fn exact_upper_edge_is_outside() {
    // x = 1.0 puts col at width, which is out of range.
    assert_eq!(map_axis(nc(1, 1), 10), None);
    assert_eq!(map_click(nc(1, 1), nc(0, 1), 10, 10), None);
}

#[test]
fn below_lower_edge_is_outside() {
    // x = -1.5 puts col below zero.
    assert_eq!(map_axis(nc(-3, 2), 10), None);
    assert_eq!(map_click(nc(-3, 2), nc(0, 1), 10, 10), None);
}

#[test]
fn formula_matches_floor() {
    // floor((x + 1) / 2 * width): x = 0 on width 10 gives cell 5,
    // x = -0.05 gives floor(4.75) = 4, x = 0.2 on width 7 gives floor(4.2) = 4.
    assert_eq!(map_axis(nc(0, 1), 10), Some(5));
    assert_eq!(map_axis(nc(-5, 100), 10), Some(4));
    assert_eq!(map_axis(nc(1, 5), 7), Some(4));
}

#[test]
fn rectangular_board_maps_each_axis_with_its_own_size() {
    // width 4, height 8: x = 0.1 gives col floor(2.2) = 2,
    // y = 0.1 gives row floor(4.4) = 4.
    assert_eq!(map_click(nc(1, 10), nc(1, 10), 4, 8), Some((2, 4)));
}

#[test]
fn invalid_denominator_is_rejected() {
    assert_eq!(NormCoord::new(1, 0), None);
    assert_eq!(NormCoord::new(1, -5), None);
}

#[test]
fn tile_center_uses_placement_formula() {
    // Cell 3 of 10: 2 * ((3 + 0.5) / 10) - 1 = -0.3 = -3/10.
    let c = tile_center(3, 10);
    assert_eq!((c.num, c.den), (-3, 10));
}

#[test]
fn tile_center_maps_back_to_its_cell() {
    for size in [1u32, 2, 5, 10, 33] {
        for k in 0..size {
            let c = tile_center(k, size);
            assert_eq!(map_axis(c, size), Some(k));
        }
    }
}
