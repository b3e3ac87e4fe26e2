//! Board state: a fixed-size grid whose cells carry three independent bits
//! (mined, flagged, revealed), stored densely as one bit per cell per
//! attribute. The mathematical model is `BoardModel`: the dimensions plus one
//! boolean sequence per attribute, indexed by `row * width + col`.

use vstd::prelude::*;
use crate::bits::{bit_seq, Bits};
use crate::tiles::{spec_visual_state, visual_state, TileState};

verus! {

/// Mathematical model of a board.
#[verifier::ext_equal]
pub ghost struct BoardModel {
    pub width: int,
    pub height: int,
    pub mined: Seq<bool>,
    pub flagged: Seq<bool>,
    pub revealed: Seq<bool>,
}

impl BoardModel {
    /// Well-formedness: positive dimensions, a cell count a machine index can
    /// hold, and one bit per cell in each attribute sequence.
    pub open spec fn wf(self) -> bool {
        &&& 1 <= self.width <= u32::MAX
        &&& 1 <= self.height <= u32::MAX
        &&& self.width * self.height <= usize::MAX
        &&& self.mined.len() == self.width * self.height
        &&& self.flagged.len() == self.width * self.height
        &&& self.revealed.len() == self.width * self.height
    }

    pub open spec fn in_bounds(self, col: int, row: int) -> bool {
        &&& 0 <= col < self.width
        &&& 0 <= row < self.height
    }

    /// Flat index of cell `(col, row)`.
    pub open spec fn idx(self, col: int, row: int) -> int {
        row * self.width + col
    }

    pub open spec fn mined_at(self, col: int, row: int) -> bool {
        self.mined[self.idx(col, row)]
    }

    pub open spec fn flagged_at(self, col: int, row: int) -> bool {
        self.flagged[self.idx(col, row)]
    }

    pub open spec fn revealed_at(self, col: int, row: int) -> bool {
        self.revealed[self.idx(col, row)]
    }

    /// Every bit of every attribute is clear.
    pub open spec fn all_clear(self) -> bool {
        forall|i: int|
            0 <= i < self.width * self.height ==> !self.mined[i] && !self.flagged[i]
                && !self.revealed[i]
    }

    /// The board after cell `(col, row)` is uncovered.
    pub open spec fn uncover(self, col: int, row: int) -> BoardModel {
        BoardModel { revealed: self.revealed.update(self.idx(col, row), true), ..self }
    }

    /// The board after the flag on cell `(col, row)` is toggled.
    pub open spec fn toggle_flag(self, col: int, row: int) -> BoardModel {
        BoardModel {
            flagged: self.flagged.update(self.idx(col, row), !self.flagged_at(col, row)),
            ..self
        }
    }

    /// The visual state cell `(col, row)` should currently show.
    pub open spec fn visual_at(self, col: int, row: int) -> TileState {
        spec_visual_state(
            self.mined_at(col, row),
            self.flagged_at(col, row),
            self.revealed_at(col, row),
        )
    }
}

/// The flat index of an in-bounds cell lies within the cell count.
pub proof fn lemma_idx_in_range(m: BoardModel, col: int, row: int)
    requires
        m.wf(),
        m.in_bounds(col, row),
    ensures
        0 <= m.idx(col, row) < m.width * m.height,
{
    assert(0 <= row * m.width + col < m.width * m.height) by (nonlinear_arith)
        requires
            0 <= col < m.width,
            0 <= row < m.height,
    ;
}

/// Distinct in-bounds cells have distinct flat indices.
pub proof fn lemma_idx_injective(m: BoardModel, c1: int, r1: int, c2: int, r2: int)
    requires
        m.wf(),
        m.in_bounds(c1, r1),
        m.in_bounds(c2, r2),
        m.idx(c1, r1) == m.idx(c2, r2),
    ensures
        c1 == c2 && r1 == r2,
{
    assert(c1 == c2 && r1 == r2) by (nonlinear_arith)
        requires
            0 <= c1 < m.width,
            0 <= c2 < m.width,
            0 <= r1 < m.height,
            0 <= r2 < m.height,
            r1 * m.width + c1 == r2 * m.width + c2,
    ;
}

/// Law: uncovering a cell leaves it revealed, and uncovering it a second
/// time changes nothing at all.
pub proof fn lemma_uncover_idempotent(m: BoardModel, col: int, row: int)
    requires
        m.wf(),
        m.in_bounds(col, row),
    ensures
        m.uncover(col, row).revealed_at(col, row),
        m.uncover(col, row).uncover(col, row) == m.uncover(col, row),
{
    lemma_idx_in_range(m, col, row);
    assert(m.uncover(col, row).uncover(col, row).revealed =~= m.uncover(col, row).revealed);
    assert(m.uncover(col, row).uncover(col, row) =~= m.uncover(col, row));
}

/// Law: uncovering one cell, or toggling its flag, changes no attribute of
/// any other cell.
pub proof fn lemma_mutation_isolated(m: BoardModel, col: int, row: int, c: int, r: int)
    requires
        m.wf(),
        m.in_bounds(col, row),
        m.in_bounds(c, r),
        !(c == col && r == row),
    ensures
        m.uncover(col, row).mined_at(c, r) == m.mined_at(c, r),
        m.uncover(col, row).flagged_at(c, r) == m.flagged_at(c, r),
        m.uncover(col, row).revealed_at(c, r) == m.revealed_at(c, r),
        m.toggle_flag(col, row).mined_at(c, r) == m.mined_at(c, r),
        m.toggle_flag(col, row).flagged_at(c, r) == m.flagged_at(c, r),
        m.toggle_flag(col, row).revealed_at(c, r) == m.revealed_at(c, r),
{
    lemma_idx_in_range(m, col, row);
    lemma_idx_in_range(m, c, r);
    if m.idx(c, r) == m.idx(col, row) {
        lemma_idx_injective(m, c, r, col, row);
    }
}

/// Law: on a board with every bit clear, every cell shows Covered.
pub proof fn lemma_all_clear_covered(m: BoardModel, col: int, row: int)
    requires
        m.wf(),
        m.all_clear(),
        m.in_bounds(col, row),
    ensures
        m.visual_at(col, row) == TileState::Covered,
{
    lemma_idx_in_range(m, col, row);
}

/// Law: after uncovering a non-mined cell, that cell shows Empty.
pub proof fn lemma_uncover_shows_empty(m: BoardModel, col: int, row: int)
    requires
        m.wf(),
        m.in_bounds(col, row),
        !m.mined_at(col, row),
    ensures
        m.uncover(col, row).visual_at(col, row) == TileState::Empty,
{
    lemma_idx_in_range(m, col, row);
}

/// Board state: three per-cell bitsets and the fixed dimensions.
pub struct Minesweeper {
    bombs: Bits,
    flags: Bits,
    revealed: Bits,
    width: u32,
    height: u32,
}

impl View for Minesweeper {
    type V = BoardModel;

    closed spec fn view(&self) -> BoardModel {
        BoardModel {
            width: self.width as int,
            height: self.height as int,
            mined: bit_seq(self.bombs),
            flagged: bit_seq(self.flags),
            revealed: bit_seq(self.revealed),
        }
    }
}

impl Minesweeper {
    /// Creates a board with every bit clear. Fails exactly on invalid
    /// dimensions: a zero side, or a cell count beyond the bitsets'
    /// encodable capacity of an eighth of the index space.
    pub fn empty(width: u32, height: u32) -> (r: Option<Minesweeper>)
        ensures
            match r {
                Some(b) => {
                    &&& width >= 1
                    &&& height >= 1
                    &&& width * height <= usize::MAX / 8
                    &&& b@.wf()
                    &&& b@.width == width
                    &&& b@.height == height
                    &&& b@.all_clear()
                },
                None => width == 0 || height == 0 || width * height > usize::MAX / 8,
            },
    {
        if width == 0 || height == 0 {
            return None;
        }
        proof {
            assert((width as int) * (height as int) <= 0xffff_ffff * 0xffff_ffff)
                by (nonlinear_arith)
                requires
                    width <= 0xffff_ffffu32,
                    height <= 0xffff_ffffu32,
            ;
        }
        let size64: u64 = (width as u64) * (height as u64);
        if size64 > (usize::MAX / 8) as u64 {
            return None;
        }
        let size: usize = size64 as usize;
        Some(
            Minesweeper {
                bombs: Bits::repeat(false, size),
                flags: Bits::repeat(false, size),
                revealed: Bits::repeat(false, size),
                width,
                height,
            },
        )
    }

    pub fn width(&self) -> (r: u32)
        ensures
            r == self@.width,
    {
        self.width
    }

    pub fn height(&self) -> (r: u32)
        ensures
            r == self@.height,
    {
        self.height
    }

    /// Flat index of an in-bounds cell.
    fn cell_index(&self, col: u32, row: u32) -> (i: usize)
        requires
            self@.wf(),
            self@.in_bounds(col as int, row as int),
        ensures
            i == self@.idx(col as int, row as int),
            i < self@.width * self@.height,
    {
        proof {
            lemma_idx_in_range(self@, col as int, row as int);
        }
        (row as usize) * (self.width as usize) + (col as usize)
    }

    /// Reads the mined bit of an in-bounds cell.
    pub fn is_mined(&self, col: u32, row: u32) -> (r: bool)
        requires
            self@.wf(),
            self@.in_bounds(col as int, row as int),
        ensures
            r == self@.mined_at(col as int, row as int),
    {
        let i = self.cell_index(col, row);
        self.bombs.get(i)
    }

    /// Reads the flagged bit of an in-bounds cell.
    pub fn is_flagged(&self, col: u32, row: u32) -> (r: bool)
        requires
            self@.wf(),
            self@.in_bounds(col as int, row as int),
        ensures
            r == self@.flagged_at(col as int, row as int),
    {
        let i = self.cell_index(col, row);
        self.flags.get(i)
    }

    /// Reads the revealed bit of an in-bounds cell.
    pub fn is_revealed(&self, col: u32, row: u32) -> (r: bool)
        requires
            self@.wf(),
            self@.in_bounds(col as int, row as int),
        ensures
            r == self@.revealed_at(col as int, row as int),
    {
        let i = self.cell_index(col, row);
        self.revealed.get(i)
    }

    /// Writes the flagged bit of an in-bounds cell; no other bit changes.
    pub fn set_flagged(&mut self, col: u32, row: u32, value: bool)
        requires
            old(self)@.wf(),
            old(self)@.in_bounds(col as int, row as int),
        ensures
            final(self)@.wf(),
            final(self)@ == (BoardModel {
                flagged: old(self)@.flagged.update(
                    old(self)@.idx(col as int, row as int),
                    value,
                ),
                ..old(self)@
            }),
    {
        let i = self.cell_index(col, row);
        self.flags.set(i, value);
    }

    /// Writes the revealed bit of an in-bounds cell; no other bit changes.
    pub fn set_revealed(&mut self, col: u32, row: u32, value: bool)
        requires
            old(self)@.wf(),
            old(self)@.in_bounds(col as int, row as int),
        ensures
            final(self)@.wf(),
            final(self)@ == (BoardModel {
                revealed: old(self)@.revealed.update(
                    old(self)@.idx(col as int, row as int),
                    value,
                ),
                ..old(self)@
            }),
    {
        let i = self.cell_index(col, row);
        self.revealed.set(i, value);
    }

    /// The visual state of an in-bounds cell.
    pub fn cell_visual(&self, col: u32, row: u32) -> (r: TileState)
        requires
            self@.wf(),
            self@.in_bounds(col as int, row as int),
        ensures
            r == self@.visual_at(col as int, row as int),
    {
        visual_state(
            self.is_mined(col, row),
            self.is_flagged(col, row),
            self.is_revealed(col, row),
        )
    }
}

} // verus!
