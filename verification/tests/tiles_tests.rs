use minesweeper::tiles::{visual_state, Tile, TileState, TileStateTable};

#[test]
fn visual_state_covers_every_bit_combination() {
    // (mined, flagged, revealed) -> state, per the decision order.
    assert_eq!(visual_state(false, false, false), TileState::Covered);
    assert_eq!(visual_state(false, false, true), TileState::Empty);
    assert_eq!(visual_state(false, true, false), TileState::Flag);
    assert_eq!(visual_state(false, true, true), TileState::Empty);
    assert_eq!(visual_state(true, false, false), TileState::Covered);
    assert_eq!(visual_state(true, false, true), TileState::Bomb);
    assert_eq!(visual_state(true, true, false), TileState::Flag);
    assert_eq!(visual_state(true, true, true), TileState::Bomb);
}

#[test]
fn table_lookup_is_total_and_returns_the_stored_handle() {
    let table = TileStateTable::new("grey", "dark", "green", "red");
    assert_eq!(*table.lookup(TileState::Covered), "grey");
    assert_eq!(*table.lookup(TileState::Empty), "dark");
    assert_eq!(*table.lookup(TileState::Flag), "green");
    assert_eq!(*table.lookup(TileState::Bomb), "red");
}

#[test]
fn table_handles_are_value_shared() {
    // Handles are stored once and handed out by reference, not re-created.
    let table = TileStateTable::new(7u64, 8, 9, 10);
    let first = table.lookup(TileState::Flag);
    let second = table.lookup(TileState::Flag);
    assert!(std::ptr::eq(first, second));
}

#[test]
fn tile_carries_its_cell() {
    let t = Tile { pos: (4, 7) };
    assert_eq!(t.pos, (4, 7));
}
