use minesweeper::board::Minesweeper;
use minesweeper::coords::NormCoord;
use minesweeper::game::{ClickTile, MinesweeperPlugin, BOARD_SIDE};
use minesweeper::tiles::TileState;

fn nc(num: i64, den: i64) -> NormCoord {
    NormCoord::new(num, den).unwrap()
}

#[test]
fn initialize_builds_a_cleared_board_with_one_tile_per_cell() {
    let (board, tiles) = MinesweeperPlugin::initialize();
    assert_eq!(board.width(), BOARD_SIDE);
    assert_eq!(board.height(), BOARD_SIDE);
    assert_eq!(tiles.len(), (BOARD_SIDE * BOARD_SIDE) as usize);
    for (i, tile) in tiles.iter().enumerate() {
        let i = i as u32;
        assert_eq!(tile.pos, (i % BOARD_SIDE, i / BOARD_SIDE));
    }
    for row in 0..BOARD_SIDE {
        for col in 0..BOARD_SIDE {
            assert!(!board.is_revealed(col, row));
            assert!(!board.is_flagged(col, row));
            assert!(!board.is_mined(col, row));
        }
    }
}

#[test]
fn click_inside_emits_uncover_for_the_resolved_cell() {
    let board = Minesweeper::empty(10, 10).unwrap();
    let action = MinesweeperPlugin::handle_click(&board, nc(-98, 100), nc(-98, 100));
    assert_eq!(action, Some(ClickTile::Uncover { pos: (0, 0) }));
}

#[test]
fn click_outside_emits_nothing() {
    let board = Minesweeper::empty(10, 10).unwrap();
    // x = 1.5 lies beyond the right board edge.
    assert_eq!(MinesweeperPlugin::handle_click(&board, nc(3, 2), nc(0, 1)), None);
}

#[test]
fn uncover_action_reveals_the_cell_and_reports_empty() {
    let mut board = Minesweeper::empty(10, 10).unwrap();
    let action = ClickTile::Uncover { pos: (5, 6) };
    let state = MinesweeperPlugin::apply_action(&mut board, &action);
    assert!(board.is_revealed(5, 6));
    assert_eq!(state, TileState::Empty);
}

#[test]
fn uncover_twice_is_idempotent() {
    let mut board = Minesweeper::empty(10, 10).unwrap();
    let action = ClickTile::Uncover { pos: (2, 3) };
    let first = MinesweeperPlugin::apply_action(&mut board, &action);
    assert!(board.is_revealed(2, 3));
    let second = MinesweeperPlugin::apply_action(&mut board, &action);
    assert!(board.is_revealed(2, 3));
    assert_eq!(first, TileState::Empty);
    assert_eq!(second, TileState::Empty);
}

#[test]
fn place_flag_action_toggles_the_flag() {
    let mut board = Minesweeper::empty(10, 10).unwrap();
    let action = ClickTile::PlaceFlag { pos: (1, 1) };
    let state = MinesweeperPlugin::apply_action(&mut board, &action);
    assert!(board.is_flagged(1, 1));
    assert_eq!(state, TileState::Flag);
    let state = MinesweeperPlugin::apply_action(&mut board, &action);
    assert!(!board.is_flagged(1, 1));
    assert_eq!(state, TileState::Covered);
}

#[test]
fn cycle_applies_clicks_in_emission_order() {
    let mut board = Minesweeper::empty(10, 10).unwrap();
    let clicks = vec![
        (nc(-98, 100), nc(-98, 100)), // cell (0, 0)
        (nc(3, 2), nc(0, 1)),         // outside the board
        (nc(-98, 100), nc(-98, 100)), // cell (0, 0) again
        (nc(1, 10), nc(1, 10)),       // cell (5, 5)
    ];
    let updates = MinesweeperPlugin::run_cycle(&mut board, &clicks);
    assert_eq!(updates.len(), 4);
    assert_eq!(updates[0], Some(((0, 0), TileState::Empty)));
    assert_eq!(updates[1], None);
    assert_eq!(updates[2], Some(((0, 0), TileState::Empty)));
    assert_eq!(updates[3], Some(((5, 5), TileState::Empty)));
    assert!(board.is_revealed(0, 0));
    assert!(board.is_revealed(5, 5));
    assert!(!board.is_revealed(1, 0));
}

#[test]
fn end_to_end_click_scenario() {
    // 10x10 board, all cells unrevealed, unflagged, unmined.
    let (mut board, _tiles) = MinesweeperPlugin::initialize();

    // A click at (-0.98, -0.98) lands inside cell (0, 0): it is uncovered
    // and its visual state becomes Empty.
    let r = MinesweeperPlugin::process_click(&mut board, nc(-98, 100), nc(-98, 100));
    assert_eq!(r, Some(((0, 0), TileState::Empty)));
    assert!(board.is_revealed(0, 0));
    assert_eq!(board.cell_visual(0, 0), TileState::Empty);

    // A click at (1.5, 0.0) is outside the board: no action, no change.
    let r = MinesweeperPlugin::process_click(&mut board, nc(3, 2), nc(0, 1));
    assert_eq!(r, None);
    for row in 0..10 {
        for col in 0..10 {
            let expect_revealed = col == 0 && row == 0;
            assert_eq!(board.is_revealed(col, row), expect_revealed);
            assert!(!board.is_flagged(col, row));
            assert!(!board.is_mined(col, row));
        }
    }
}
