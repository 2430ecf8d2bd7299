//! Win/draw detection on a 3x3 grid, shared by both board levels.
//!
//! A grid is a sequence of 9 cells, cell `(x, y)` at index `x * 3 + y`.
//! The 8 winning lines (3 columns, 3 rows, 2 diagonals) are scanned in a
//! fixed order; the first line whose three cells carry the same piece
//! decides the winner. If no line wins and every cell is filled, the grid
//! is a draw; otherwise it is still undecided.

use vstd::prelude::*;

use crate::squares::{FilledSquare, GameOverResult, Piece};

verus! {

/// The cell of grid `g` at column `x`, row `y`.
pub open spec fn grid_cell<T: FilledSquare>(g: Seq<T>, x: int, y: int) -> T {
    g[x * 3 + y]
}

/// The three cell positions of winning line `l`, for `l` in `[0, 8)`:
/// columns 0-2, then rows 0-2, then the two diagonals.
pub open spec fn line_coords(l: int) -> (int, int, int, int, int, int) {
    if l == 0 {
        (0, 0, 0, 1, 0, 2)
    } else if l == 1 {
        (1, 0, 1, 1, 1, 2)
    } else if l == 2 {
        (2, 0, 2, 1, 2, 2)
    } else if l == 3 {
        (0, 0, 1, 0, 2, 0)
    } else if l == 4 {
        (0, 1, 1, 1, 2, 1)
    } else if l == 5 {
        (0, 2, 1, 2, 2, 2)
    } else if l == 6 {
        (0, 0, 1, 1, 2, 2)
    } else {
        (0, 2, 1, 1, 2, 0)
    }
}

/// The piece winning line `l` of grid `g`, if its three cells carry the
/// same piece.
pub open spec fn line_winner_at<T: FilledSquare>(g: Seq<T>, l: int) -> Option<Piece> {
    let (x0, y0, x1, y1, x2, y2) = line_coords(l);
    let a = grid_cell(g, x0, y0).spec_piece();
    if a is Some && grid_cell(g, x1, y1).spec_piece() == a && grid_cell(g, x2, y2).spec_piece()
        == a {
        a
    } else {
        None
    }
}

/// The winner of the first winning line at or after `l`, in scan order.
pub open spec fn first_winner_from<T: FilledSquare>(g: Seq<T>, l: int) -> Option<Piece>
    decreases 8 - l,
{
    if l < 0 || l >= 8 {
        None
    } else if line_winner_at(g, l) is Some {
        line_winner_at(g, l)
    } else {
        first_winner_from(g, l + 1)
    }
}

/// The winner of the first winning line of `g`, if any line wins.
pub open spec fn first_winner<T: FilledSquare>(g: Seq<T>) -> Option<Piece> {
    first_winner_from(g, 0)
}

/// Whether every cell of the grid is filled.
pub open spec fn all_filled<T: FilledSquare>(g: Seq<T>) -> bool {
    forall|i: int| 0 <= i < 9 ==> (#[trigger] g[i]).spec_filled()
}

/// The outcome of a 3x3 grid: the first winning line's piece, a draw once
/// every cell is filled, or nothing while the grid is still undecided.
pub open spec fn grid_result<T: FilledSquare>(g: Seq<T>) -> Option<GameOverResult> {
    match first_winner(g) {
        Some(p) => Some(GameOverResult::Winner(p)),
        None => if all_filled(g) {
            Some(GameOverResult::Draw)
        } else {
            None
        },
    }
}

/// Whether piece `p` holds some complete line of grid `g`, regardless of
/// scan order.
pub open spec fn has_line<T: FilledSquare>(g: Seq<T>, p: Piece) -> bool {
    exists|l: int| 0 <= l < 8 && #[trigger] line_winner_at(g, l) == Some(p)
}

/// The cell positions of line `l`, as checked bounded integers.
fn line_coords_at(l: usize) -> (r: (usize, usize, usize, usize, usize, usize))
    requires
        l < 8,
    ensures
        r.0 < 3 && r.1 < 3 && r.2 < 3 && r.3 < 3 && r.4 < 3 && r.5 < 3,
        (r.0 as int, r.1 as int, r.2 as int, r.3 as int, r.4 as int, r.5 as int) == line_coords(
            l as int,
        ),
{
    if l == 0 {
        (0, 0, 0, 1, 0, 2)
    } else if l == 1 {
        (1, 0, 1, 1, 1, 2)
    } else if l == 2 {
        (2, 0, 2, 1, 2, 2)
    } else if l == 3 {
        (0, 0, 1, 0, 2, 0)
    } else if l == 4 {
        (0, 1, 1, 1, 2, 1)
    } else if l == 5 {
        (0, 2, 1, 2, 2, 2)
    } else if l == 6 {
        (0, 0, 1, 1, 2, 2)
    } else {
        (0, 2, 1, 1, 2, 0)
    }
}

/// Checks whether line `l` of `cells` is won, and by which piece.
fn check_line<T: FilledSquare>(cells: &[T; 9], l: usize) -> (r: Option<Piece>)
    requires
        l < 8,
    ensures
        r == line_winner_at(cells@, l as int),
{
    let (x0, y0, x1, y1, x2, y2) = line_coords_at(l);
    let a = cells[x0 * 3 + y0].filling_piece();
    let b = cells[x1 * 3 + y1].filling_piece();
    let c = cells[x2 * 3 + y2].filling_piece();
    if let (Some(pa), Some(pb), Some(pc)) = (a, b, c) {
        if pa == pb && pb == pc {
            return Some(pa);
        }
    }
    None
}

/// Evaluates a 3x3 grid: the 8 winning lines in fixed order, then the draw
/// scan over all 9 cells.
pub fn check_result<T: FilledSquare>(cells: &[T; 9]) -> (r: Option<GameOverResult>)
    ensures
        r == grid_result(cells@),
{
    let mut l: usize = 0;
    while l < 8
        invariant
            l <= 8,
            first_winner(cells@) == first_winner_from(cells@, l as int),
        decreases 8 - l,
    {
        if let Some(winner) = check_line(cells, l) {
            return Some(GameOverResult::Winner(winner));
        }
        l += 1;
    }
    let mut i: usize = 0;
    while i < 9
        invariant
            i <= 9,
            first_winner(cells@) is None,
            forall|j: int| 0 <= j < i ==> (#[trigger] cells@[j]).spec_filled(),
        decreases 9 - i,
    {
        if !cells[i].is_filled() {
            return None;
        }
        i += 1;
    }
    Some(GameOverResult::Draw)
}

/// Law: a grid where piece `p` holds a line and its opponent holds none is
/// won by `p`, wherever `p`'s line stands in the scan order.
pub proof fn lemma_line_gives_winner<T: FilledSquare>(g: Seq<T>, p: Piece)
    requires
        has_line(g, p),
        !has_line(g, p.spec_opposite()),
    ensures
        grid_result(g) == Some(GameOverResult::Winner(p)),
{
    assert forall|l: int|
        0 <= l < 8 implies (#[trigger] line_winner_at(g, l)) is None || line_winner_at(g, l)
        == Some(p) by {
        if line_winner_at(g, l) is Some {
            let q = line_winner_at(g, l)->Some_0;
            if q != p {
                assert(q == p.spec_opposite());
                assert(has_line(g, p.spec_opposite()));
            }
        }
    }
    let w = choose|l: int| 0 <= l < 8 && #[trigger] line_winner_at(g, l) == Some(p);
    lemma_first_winner_finds(g, p, 0, w);
}

/// Helper: if every winning line at or after `k` that wins at all is won by
/// `p`, and some line in `[k, 8)` is won, the scan from `k` reports `p`.
proof fn lemma_first_winner_finds<T: FilledSquare>(g: Seq<T>, p: Piece, k: int, w: int)
    requires
        0 <= k <= w < 8,
        line_winner_at(g, w) == Some(p),
        forall|l: int|
            k <= l < 8 ==> (#[trigger] line_winner_at(g, l)) is None || line_winner_at(g, l)
                == Some(p),
    ensures
        first_winner_from(g, k) == Some(p),
    decreases 8 - k,
{
    if line_winner_at(g, k) is Some {
        assert(line_winner_at(g, k) == Some(p));
    } else {
        assert(k < w);
        lemma_first_winner_finds(g, p, k + 1, w);
    }
}

/// Law: a fully filled grid in which neither piece holds a line is a draw.
pub proof fn lemma_filled_no_line_draw<T: FilledSquare>(g: Seq<T>)
    requires
        all_filled(g),
        !has_line(g, Piece::X),
        !has_line(g, Piece::O),
    ensures
        grid_result(g) == Some(GameOverResult::Draw),
{
    lemma_no_line_no_winner(g, 0);
}

/// Helper: with no line won anywhere, the scan from `k` reports no winner.
proof fn lemma_no_line_no_winner<T: FilledSquare>(g: Seq<T>, k: int)
    requires
        !has_line(g, Piece::X),
        !has_line(g, Piece::O),
    ensures
        first_winner_from(g, k) is None,
    decreases 8 - k,
{
    if 0 <= k < 8 {
        if line_winner_at(g, k) is Some {
            let q = line_winner_at(g, k)->Some_0;
            assert(q == Piece::X || q == Piece::O);
            assert(has_line(g, q));
            assert(false);
        }
        lemma_no_line_no_winner(g, k + 1);
    }
}

} // verus!
