//! Tile visual states and the table that maps each state to an appearance
//! handle, plus the per-cell render identity.

use vstd::prelude::*;

verus! {

/// How a cell is currently drawn. A closed set: exactly these four states.
#[derive(Clone, Copy, Debug, PartialEq, Eq, Structural)]
pub enum TileState {
    Covered,
    Empty,
    Flag,
    Bomb,
}

/// Decision order for a cell's visual state: Bomb if mined and revealed,
/// Flag if flagged and not revealed, Empty if revealed, Covered otherwise.
pub open spec fn spec_visual_state(mined: bool, flagged: bool, revealed: bool) -> TileState {
    if mined && revealed {
        TileState::Bomb
    } else if flagged && !revealed {
        TileState::Flag
    } else if revealed {
        TileState::Empty
    } else {
        TileState::Covered
    }
}

/// Translates a cell's three attribute bits into its visual state.
pub fn visual_state(mined: bool, flagged: bool, revealed: bool) -> (r: TileState)
    ensures
        r == spec_visual_state(mined, flagged, revealed),
{
    if mined && revealed {
        TileState::Bomb
    } else if flagged && !revealed {
        TileState::Flag
    } else if revealed {
        TileState::Empty
    } else {
        TileState::Covered
    }
}

/// One appearance handle per visual state, resolved once at startup and
/// shared thereafter.
pub struct TileStateTable<T> {
    pub covered: T,
    pub empty: T,
    pub flag: T,
    pub bomb: T,
}

impl<T> TileStateTable<T> {
    /// The handle the table holds for `state`.
    pub open spec fn spec_lookup(self, state: TileState) -> T {
        match state {
            TileState::Covered => self.covered,
            TileState::Empty => self.empty,
            TileState::Flag => self.flag,
            TileState::Bomb => self.bomb,
        }
    }

    /// Stores exactly four handles, indexed by the closed state set.
    pub fn new(covered: T, empty: T, flag: T, bomb: T) -> (r: Self)
        ensures
            r == (TileStateTable { covered, empty, flag, bomb }),
    {
        TileStateTable { covered, empty, flag, bomb }
    }

    /// Total lookup: every state resolves to the handle stored for it.
    pub fn lookup(&self, state: TileState) -> (r: &T)
        ensures
            *r == self.spec_lookup(state),
    {
        match state {
            TileState::Covered => &self.covered,
            TileState::Empty => &self.empty,
            TileState::Flag => &self.flag,
            TileState::Bomb => &self.bomb,
        }
    }
}

/// The renderable identity of one board cell, carrying its `(col, row)`.
#[derive(Clone, Copy, Debug, PartialEq, Eq)]
pub struct Tile {
    pub pos: (u32, u32),
}

} // verus!
