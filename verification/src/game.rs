//! The event-driven pipeline: a raw click becomes a typed board action
//! through the coordinate mapper (input dispatch), and an action becomes a
//! board mutation plus the affected cell's new visual state (board update).

use vstd::prelude::*;
use crate::board::{BoardModel, Minesweeper};
use crate::coords::{map_click, spec_cell, NormCoord};
use crate::tiles::{Tile, TileState};

verus! {

/// A transient board action targeting one cell, produced by the dispatcher
/// and consumed by the board update system within the same cycle.
#[derive(Clone, Copy, Debug, PartialEq, Eq)]
pub enum ClickTile {
    Uncover { pos: (u32, u32) },
    PlaceFlag { pos: (u32, u32) },
}

impl ClickTile {
    /// The cell the action targets.
    pub open spec fn spec_pos(self) -> (u32, u32) {
        match self {
            ClickTile::Uncover { pos } => pos,
            ClickTile::PlaceFlag { pos } => pos,
        }
    }

    /// The cell the action targets.
    pub fn pos(&self) -> (r: (u32, u32))
        ensures
            r == self.spec_pos(),
    {
        match self {
            ClickTile::Uncover { pos } => *pos,
            ClickTile::PlaceFlag { pos } => *pos,
        }
    }
}

/// The board core: session setup, input dispatch and board update.
pub struct MinesweeperPlugin;

/// The board side every session starts with.
pub const BOARD_SIDE: u32 = 10;

impl MinesweeperPlugin {
    /// Sets up a session: a `BOARD_SIDE` x `BOARD_SIDE` board with every
    /// bit clear, and one tile per cell, in row-major order with the column
    /// varying fastest.
    pub fn initialize() -> (r: (Minesweeper, Vec<Tile>))
        ensures
            r.0@.wf(),
            r.0@.width == BOARD_SIDE,
            r.0@.height == BOARD_SIDE,
            r.0@.all_clear(),
            r.1@.len() == BOARD_SIDE * BOARD_SIDE,
            forall|i: int|
                0 <= i < BOARD_SIDE * BOARD_SIDE ==> (#[trigger] r.1@[i]).pos == (
                    (i % (BOARD_SIDE as int)) as u32,
                    (i / (BOARD_SIDE as int)) as u32,
                ),
    {
        let board = Minesweeper::empty(BOARD_SIDE, BOARD_SIDE).unwrap();
        let mut tiles: Vec<Tile> = Vec::new();
        let mut row: u32 = 0;
        while row < BOARD_SIDE
            invariant
                row <= BOARD_SIDE,
                tiles@.len() == row * BOARD_SIDE,
                forall|i: int|
                    0 <= i < tiles@.len() ==> (#[trigger] tiles@[i]).pos == (
                        (i % (BOARD_SIDE as int)) as u32,
                        (i / (BOARD_SIDE as int)) as u32,
                    ),
            decreases BOARD_SIDE - row,
        {
            let mut col: u32 = 0;
            while col < BOARD_SIDE
                invariant
                    row < BOARD_SIDE,
                    col <= BOARD_SIDE,
                    tiles@.len() == row * BOARD_SIDE + col,
                    forall|i: int|
                        0 <= i < tiles@.len() ==> (#[trigger] tiles@[i]).pos == (
                            (i % (BOARD_SIDE as int)) as u32,
                            (i / (BOARD_SIDE as int)) as u32,
                        ),
                decreases BOARD_SIDE - col,
            {
                proof {
                    lemma_tile_index(row as int, col as int, BOARD_SIDE as int);
                }
                tiles.push(Tile { pos: (col, row) });
                col = col + 1;
            }
            row = row + 1;
        }
        (board, tiles)
    }

    /// Input dispatcher for one raw left-click at normalized position
    /// `(x, y)`: resolves it through the coordinate mapper and emits exactly
    /// one Uncover action for the resolved cell, or nothing when the click
    /// lies outside the board. The emitted action always targets an
    /// in-bounds cell.
    pub fn handle_click(board: &Minesweeper, x: NormCoord, y: NormCoord) -> (r: Option<ClickTile>)
        requires
            board@.wf(),
            x.wf(),
            y.wf(),
        ensures
            ({
                let col = spec_cell(x.num as int, x.den as int, board@.width);
                let row = spec_cell(y.num as int, y.den as int, board@.height);
                &&& (r is Some <==> board@.in_bounds(col, row))
                &&& (r matches Some(a) ==> a == (ClickTile::Uncover {
                    pos: (col as u32, row as u32),
                }))
            }),
            (r matches Some(a) ==> board@.in_bounds(
                a.spec_pos().0 as int,
                a.spec_pos().1 as int,
            )),
    {
        match map_click(x, y, board.width(), board.height()) {
            Some(pos) => Some(ClickTile::Uncover { pos }),
            None => None,
        }
    }

    /// Board update system for one action: Uncover reveals the cell,
    /// PlaceFlag toggles its flag; no other bit of the board changes. The
    /// returned value is the affected cell's new visual state, ready for the
    /// appearance-table lookup.
    pub fn apply_action(board: &mut Minesweeper, action: &ClickTile) -> (state: TileState)
        requires
            old(board)@.wf(),
            old(board)@.in_bounds(action.spec_pos().0 as int, action.spec_pos().1 as int),
        ensures
            final(board)@.wf(),
            (action matches ClickTile::Uncover { pos } ==> final(board)@ == old(board)@.uncover(
                pos.0 as int,
                pos.1 as int,
            )),
            (action matches ClickTile::PlaceFlag { pos } ==> final(board)@ == old(
                board,
            )@.toggle_flag(pos.0 as int, pos.1 as int)),
            state == final(board)@.visual_at(
                action.spec_pos().0 as int,
                action.spec_pos().1 as int,
            ),
    {
        match action {
            ClickTile::Uncover { pos } => {
                let (col, row) = *pos;
                board.set_revealed(col, row, true);
                board.cell_visual(col, row)
            },
            ClickTile::PlaceFlag { pos } => {
                let (col, row) = *pos;
                let flagged = board.is_flagged(col, row);
                board.set_flagged(col, row, !flagged);
                board.cell_visual(col, row)
            },
        }
    }

    /// One full cycle for one raw click: map, dispatch, update. When the
    /// click resolves to a cell, that cell is uncovered and its new visual
    /// state is returned with it; when it lies outside the board, the board
    /// is left exactly as it was.
    pub fn process_click(board: &mut Minesweeper, x: NormCoord, y: NormCoord) -> (r: Option<
        ((u32, u32), TileState),
    >)
        requires
            old(board)@.wf(),
            x.wf(),
            y.wf(),
        ensures
            final(board)@.wf(),
            ({
                let col = spec_cell(x.num as int, x.den as int, old(board)@.width);
                let row = spec_cell(y.num as int, y.den as int, old(board)@.height);
                if old(board)@.in_bounds(col, row) {
                    &&& final(board)@ == old(board)@.uncover(col, row)
                    &&& r == Some(
                        ((col as u32, row as u32), final(board)@.visual_at(col, row)),
                    )
                } else {
                    &&& final(board)@ == old(board)@
                    &&& r is None
                }
            }),
    {
        match Self::handle_click(board, x, y) {
            Some(action) => {
                let pos = action.pos();
                let state = Self::apply_action(board, &action);
                Some((pos, state))
            },
            None => None,
        }
    }
}

/// The model after one raw click: the cell the click resolves to is
/// uncovered; a click outside the board changes nothing.
pub open spec fn spec_click(m: BoardModel, c: (NormCoord, NormCoord)) -> BoardModel {
    let col = spec_cell(c.0.num as int, c.0.den as int, m.width);
    let row = spec_cell(c.1.num as int, c.1.den as int, m.height);
    if m.in_bounds(col, row) {
        m.uncover(col, row)
    } else {
        m
    }
}

/// What one raw click reports: the resolved cell with its new visual state,
/// or nothing for a click outside the board.
pub open spec fn spec_click_update(m: BoardModel, c: (NormCoord, NormCoord)) -> Option<
    ((u32, u32), TileState),
> {
    let col = spec_cell(c.0.num as int, c.0.den as int, m.width);
    let row = spec_cell(c.1.num as int, c.1.den as int, m.height);
    if m.in_bounds(col, row) {
        Some(((col as u32, row as u32), m.uncover(col, row).visual_at(col, row)))
    } else {
        None
    }
}

/// The model after a whole cycle's clicks, applied in emission order.
pub open spec fn spec_cycle(m: BoardModel, clicks: Seq<(NormCoord, NormCoord)>) -> BoardModel
    decreases clicks.len(),
{
    if clicks.len() == 0 {
        m
    } else {
        spec_cycle(spec_click(m, clicks[0]), clicks.skip(1))
    }
}

/// Appending one click to a cycle applies it after the rest.
proof fn lemma_cycle_snoc(m: BoardModel, s: Seq<(NormCoord, NormCoord)>, c: (NormCoord, NormCoord))
    ensures
        spec_cycle(m, s.push(c)) == spec_click(spec_cycle(m, s), c),
    decreases s.len(),
{
    if s.len() == 0 {
        assert(s.push(c)[0] == c);
        assert(s.push(c).skip(1) =~= Seq::<(NormCoord, NormCoord)>::empty());
        assert(spec_cycle(m, s.push(c)) == spec_cycle(spec_click(m, c), s.push(c).skip(1)));
    } else {
        assert(s.push(c)[0] == s[0]);
        assert(s.push(c).skip(1) =~= s.skip(1).push(c));
        lemma_cycle_snoc(spec_click(m, s[0]), s.skip(1), c);
        assert(spec_cycle(m, s.push(c)) == spec_cycle(spec_click(m, s[0]), s.skip(1).push(c)));
        assert(spec_cycle(m, s) == spec_cycle(spec_click(m, s[0]), s.skip(1)));
    }
}

impl MinesweeperPlugin {
    /// One full processing cycle: the drained raw clicks of a frame are
    /// resolved and applied to the board strictly in the order they were
    /// emitted (FIFO, no reordering). Entry `i` of the result is what click
    /// `i` reported against the board state the clicks before it produced.
    pub fn run_cycle(board: &mut Minesweeper, clicks: &Vec<(NormCoord, NormCoord)>) -> (updates:
        Vec<Option<((u32, u32), TileState)>>)
        requires
            old(board)@.wf(),
            forall|i: int|
                0 <= i < clicks@.len() ==> (#[trigger] clicks@[i]).0.wf() && clicks@[i].1.wf(),
        ensures
            final(board)@.wf(),
            final(board)@ == spec_cycle(old(board)@, clicks@),
            updates@.len() == clicks@.len(),
            forall|i: int|
                0 <= i < clicks@.len() ==> #[trigger] updates@[i] == spec_click_update(
                    spec_cycle(old(board)@, clicks@.take(i)),
                    clicks@[i],
                ),
    {
        let ghost m0 = board@;
        let mut updates: Vec<Option<((u32, u32), TileState)>> = Vec::new();
        let mut i: usize = 0;
        while i < clicks.len()
            invariant
                board@.wf(),
                i <= clicks@.len(),
                updates@.len() == i,
                board@ == spec_cycle(m0, clicks@.take(i as int)),
                forall|j: int|
                    0 <= j < i ==> #[trigger] updates@[j] == spec_click_update(
                        spec_cycle(m0, clicks@.take(j)),
                        clicks@[j],
                    ),
                forall|j: int|
                    0 <= j < clicks@.len() ==> (#[trigger] clicks@[j]).0.wf() && clicks@[j].1.wf(),
            decreases clicks@.len() - i,
        {
            let (x, y) = clicks[i];
            let ghost prev = board@;
            let r = Self::process_click(board, x, y);
            updates.push(r);
            proof {
                assert(board@ == spec_click(prev, clicks@[i as int]));
                assert(r == spec_click_update(prev, clicks@[i as int]));
                assert(clicks@.take(i as int + 1) =~= clicks@.take(i as int).push(
                    clicks@[i as int],
                ));
                lemma_cycle_snoc(m0, clicks@.take(i as int), clicks@[i as int]);
            }
            i = i + 1;
        }
        proof {
            assert(clicks@.take(clicks@.len() as int) =~= clicks@);
        }
        updates
    }
}

/// For a cell at `(col, row)` of a square board of side `n`, the flat index
/// `row * n + col` decomposes back into the cell by division and remainder.
proof fn lemma_tile_index(row: int, col: int, n: int)
    requires
        0 <= row < n,
        0 <= col < n,
    ensures
        (row * n + col) % n == col,
        (row * n + col) / n == row,
{
    vstd::arithmetic::div_mod::lemma_fundamental_div_mod_converse(row * n + col, n, row, col);
}

} // verus!
