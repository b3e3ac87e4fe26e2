//! Coordinate mapping: a pointer position in the normalized,
//! aspect-ratio-corrected screen space (the board spans [-1, 1] on each
//! axis) is resolved to the integer grid cell it falls in, or to "outside
//! the board". Positions are held exactly as rationals, so the mapping is
//! reproducible: `col = floor((x + 1) / 2 * width)` and likewise for rows.

use vstd::prelude::*;
use vstd::arithmetic::div_mod::lemma_fundamental_div_mod;
use vstd::arithmetic::div_mod::lemma_fundamental_div_mod_converse;

verus! {

/// A normalized pointer coordinate, held exactly as the rational
/// `num / den`.
#[derive(Clone, Copy, Debug, PartialEq, Eq, Structural)]
pub struct NormCoord {
    pub num: i64,
    pub den: i64,
}

impl NormCoord {
    /// Well-formedness: a positive denominator.
    pub open spec fn wf(self) -> bool {
        self.den >= 1
    }

    /// Builds the coordinate `num / den`; fails exactly when the denominator
    /// is not positive.
    pub fn new(num: i64, den: i64) -> (r: Option<NormCoord>)
        ensures
            match r {
                Some(c) => den >= 1 && c == (NormCoord { num, den }),
                None => den < 1,
            },
    {
        if den >= 1 {
            Some(NormCoord { num, den })
        } else {
            None
        }
    }
}

/// The cell index the axis formula assigns to coordinate `num / den` on an
/// axis of `size` cells: floor((x + 1) / 2 * size).
pub open spec fn spec_cell(num: int, den: int, size: int) -> int {
    ((num + den) * size) / (2 * den)
}

/// The axis formula sends a coordinate below the lower board edge to a
/// negative cell index.
proof fn lemma_cell_negative(num: int, den: int, size: int)
    requires
        den >= 1,
        size >= 1,
        num + den < 0,
    ensures
        spec_cell(num, den, size) < 0,
{
    assert((num + den) * size < 0) by (nonlinear_arith)
        requires
            num + den < 0,
            size >= 1,
    ;
    let a = (num + den) * size;
    let d = 2 * den;
    lemma_fundamental_div_mod(a, d);
    if a / d >= 0 {
        assert(d * (a / d) + (a % d) >= 0) by (nonlinear_arith)
            requires
                d >= 1,
                a / d >= 0,
                a % d >= 0,
        ;
    }
}

/// Maps one axis of a pointer position to a cell index: the result is the
/// axis formula's cell exactly when that cell lies within [0, size).
pub fn map_axis(coord: NormCoord, size: u32) -> (r: Option<u32>)
    requires
        coord.wf(),
        size >= 1,
    ensures
        ({
            let cell = spec_cell(coord.num as int, coord.den as int, size as int);
            &&& (r is Some <==> 0 <= cell && cell < size)
            &&& (r matches Some(c) ==> c == cell)
        }),
{
    let s: i128 = (coord.num as i128) + (coord.den as i128);
    if s < 0 {
        proof {
            lemma_cell_negative(coord.num as int, coord.den as int, size as int);
        }
        return None;
    }
    proof {
        assert((s as int) * (size as int) <= 0x20000000000000000 * 0x100000000)
            by (nonlinear_arith)
            requires
                0 <= s <= 0x20000000000000000,
                0 <= size <= 0x100000000,
        ;
    }
    let t: u128 = (s as u128) * (size as u128) / (2 * (coord.den as u128));
    if t < (size as u128) {
        Some(t as u32)
    } else {
        None
    }
}

/// Coordinate mapper: resolves a normalized pointer position to the grid
/// cell it falls in, or to None when the position lies outside the board.
/// The result is `Some((col, row))` with `col = floor((x + 1) / 2 * width)`
/// and `row = floor((y + 1) / 2 * height)` exactly when both fall inside
/// the board's bounds.
pub fn map_click(x: NormCoord, y: NormCoord, width: u32, height: u32) -> (r: Option<(u32, u32)>)
    requires
        x.wf(),
        y.wf(),
        width >= 1,
        height >= 1,
    ensures
        ({
            let col = spec_cell(x.num as int, x.den as int, width as int);
            let row = spec_cell(y.num as int, y.den as int, height as int);
            &&& (r is Some <==> 0 <= col && col < width && 0 <= row && row < height)
            &&& (r matches Some(p) ==> p.0 == col && p.1 == row)
        }),
{
    let col = map_axis(x, width);
    let row = map_axis(y, height);
    match (col, row) {
        (Some(c), Some(r)) => Some((c, r)),
        _ => None,
    }
}

/// The normalized center of cell `k` on an axis of `size` cells:
/// `(2k + 1 - size) / size`, the placement formula the render side uses to
/// put a tile's drawable at `2 * ((k + 0.5) / size) - 1`.
pub fn tile_center(k: u32, size: u32) -> (r: NormCoord)
    requires
        k < size,
    ensures
        r.wf(),
        r.num == 2 * (k as int) + 1 - size,
        r.den == size,
{
    NormCoord { num: 2 * (k as i64) + 1 - (size as i64), den: size as i64 }
}

/// Law: the center of a cell maps back to exactly that cell.
pub proof fn lemma_center_maps_back(k: int, size: int)
    requires
        0 <= k < size,
    ensures
        spec_cell(2 * k + 1 - size, size, size) == k,
{
    assert((2 * k + 1) * size == k * (2 * size) + size) by (nonlinear_arith);
    let num = 2 * k + 1 - size;
    assert(num + size == 2 * k + 1);
    lemma_fundamental_div_mod_converse((num + size) * size, 2 * size, k, size);
}

} // verus!
