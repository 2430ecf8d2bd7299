//! Cursor movement over the 9x9 cell grid, for an interactive front end.
//!
//! The cursor walks one axis of the grid, wrapping around after 9 cells,
//! and skips cells that cannot be played: cells of completed outer
//! squares, cells outside the active outer square, and occupied cells. If
//! a full cycle finds no such cell, the cursor returns to where it began.

use vstd::prelude::*;

use crate::coords::{Coord, FullCoord};
use crate::game::{cell_index, coord_index, Game, GameModel};
use crate::squares::{OuterSquare, Square};

verus! {

/// A direction of cursor movement.
#[derive(Copy, Clone, PartialEq, Eq, Structural, Debug)]
pub enum Direction {
    Up,
    Down,
    Left,
    Right,
}

/// The playable cell under a cursor position: outer square from the
/// position divided by 3, inner cell from the remainder.
pub open spec fn spec_cursor_coord(pos: (u16, u16)) -> FullCoord {
    FullCoord {
        outer: Coord { x: (pos.0 / 3) as usize, y: (pos.1 / 3) as usize },
        inner: Coord { x: (pos.0 % 3) as usize, y: (pos.1 % 3) as usize },
    }
}

/// The playable cell under a cursor position.
pub fn cursor_coord(pos: (u16, u16)) -> (fc: FullCoord)
    requires
        pos.0 < 9,
        pos.1 < 9,
    ensures
        fc == spec_cursor_coord(pos),
        fc.wf(),
{
    FullCoord {
        outer: Coord { x: (pos.0 / 3) as usize, y: (pos.1 / 3) as usize },
        inner: Coord { x: (pos.0 % 3) as usize, y: (pos.1 % 3) as usize },
    }
}

/// One cursor step: the moved axis cycles through its 9 cells.
pub open spec fn cursor_step(pos: (u16, u16), dir: Direction) -> (u16, u16) {
    match dir {
        Direction::Up => (pos.0, if pos.1 == 0 { 8u16 } else { (pos.1 - 1) as u16 }),
        Direction::Down => (pos.0, if pos.1 == 8 { 0u16 } else { (pos.1 + 1) as u16 }),
        Direction::Left => (if pos.0 == 0 { 8u16 } else { (pos.0 - 1) as u16 }, pos.1),
        Direction::Right => (if pos.0 == 8 { 0u16 } else { (pos.0 + 1) as u16 }, pos.1),
    }
}

/// The cursor position after `k` steps in one direction.
pub open spec fn cursor_iter(pos: (u16, u16), dir: Direction, k: nat) -> (u16, u16)
    decreases k,
{
    if k == 0 {
        pos
    } else {
        cursor_step(cursor_iter(pos, dir, (k - 1) as nat), dir)
    }
}

/// Whether the cursor may rest on this cell: its outer square incomplete,
/// within the active outer square if one is set, and the cell itself
/// still empty.
pub open spec fn selectable(m: GameModel, pos: (u16, u16)) -> bool {
    let fc = spec_cursor_coord(pos);
    &&& m.outer[coord_index(fc.outer)] is Incomplete
    &&& (m.active is None || m.active == Some(fc.outer))
    &&& m.board[cell_index(fc)] is Empty
}

/// Stepping 9 times along one axis returns the cursor to where it began.
proof fn lemma_cursor_cycle(pos: (u16, u16), dir: Direction)
    requires
        pos.0 < 9,
        pos.1 < 9,
    ensures
        cursor_iter(pos, dir, 9) == pos,
{
    reveal_with_fuel(cursor_iter, 10);
}

/// Whether the cursor may rest on this cell of this game.
fn is_selectable(game: &Game, pos: (u16, u16)) -> (r: bool)
    requires
        game.wf(),
        pos.0 < 9,
        pos.1 < 9,
    ensures
        r == selectable(game@, pos),
{
    let fc = cursor_coord(pos);
    if let OuterSquare::Complete(_) = game.get_outer_square(&fc.outer) {
        return false;
    }
    if let Some(active) = game.active_outer_square() {
        if active != fc.outer {
            return false;
        }
    }
    if let Square::Filled(_) = game.get_square(&fc) {
        return false;
    }
    true
}

/// Advances the cursor one or more steps in the given direction, to the
/// first cell the cursor may rest on. The result is the position after
/// the least number of steps (at most 9) that either returns to the
/// starting position — no cell in that direction can be played — or
/// reaches a selectable cell; every position passed over on the way was
/// neither.
pub fn move_cursor(game: &Game, cursor: &mut (u16, u16), dir: Direction)
    requires
        game.wf(),
        old(cursor).0 < 9,
        old(cursor).1 < 9,
    ensures
        final(cursor).0 < 9 && final(cursor).1 < 9,
        exists|k: int|
            1 <= k <= 9 && *final(cursor) == #[trigger] cursor_iter(*old(cursor), dir, k as nat)
                && (*final(cursor) == *old(cursor) || selectable(game@, *final(cursor))) && (
            forall|j: int|
                1 <= j < k ==> #[trigger] cursor_iter(*old(cursor), dir, j as nat) != *old(cursor)
                    && !selectable(game@, cursor_iter(*old(cursor), dir, j as nat))),
{
    let original: (u16, u16) = *cursor;
    let mut k: usize = 0;
    while k < 9
        invariant
            game.wf(),
            k <= 9,
            original == *old(cursor),
            original.0 < 9,
            original.1 < 9,
            cursor.0 < 9,
            cursor.1 < 9,
            *cursor == cursor_iter(original, dir, k as nat),
            forall|j: int|
                1 <= j <= k ==> #[trigger] cursor_iter(original, dir, j as nat) != original
                    && !selectable(game@, cursor_iter(original, dir, j as nat)),
        decreases 9 - k,
    {
        match dir {
            Direction::Up => {
                let ny: u16 = if cursor.1 == 0 {
                    8
                } else {
                    cursor.1 - 1
                };
                *cursor = (cursor.0, ny);
            },
            Direction::Down => {
                let ny: u16 = if cursor.1 == 8 {
                    0
                } else {
                    cursor.1 + 1
                };
                *cursor = (cursor.0, ny);
            },
            Direction::Left => {
                let nx: u16 = if cursor.0 == 0 {
                    8
                } else {
                    cursor.0 - 1
                };
                *cursor = (nx, cursor.1);
            },
            Direction::Right => {
                let nx: u16 = if cursor.0 == 8 {
                    0
                } else {
                    cursor.0 + 1
                };
                *cursor = (nx, cursor.1);
            },
        }
        k += 1;
        proof {
            assert(*cursor == cursor_iter(original, dir, k as nat));
        }
        if cursor.0 == original.0 && cursor.1 == original.1 {
            proof {
                let w: int = k as int;
                assert(*cursor == *old(cursor));
                assert(1 <= w <= 9 && *cursor == cursor_iter(*old(cursor), dir, w as nat) && (
                *cursor == *old(cursor) || selectable(game@, *cursor)) && (forall|j: int|
                    1 <= j < w ==> #[trigger] cursor_iter(*old(cursor), dir, j as nat) != *old(
                        cursor,
                    ) && !selectable(game@, cursor_iter(*old(cursor), dir, j as nat))));
            }
            return;
        }
        if is_selectable(game, *cursor) {
            proof {
                let w: int = k as int;
                assert(1 <= w <= 9 && *cursor == cursor_iter(*old(cursor), dir, w as nat) && (
                *cursor == *old(cursor) || selectable(game@, *cursor)) && (forall|j: int|
                    1 <= j < w ==> #[trigger] cursor_iter(*old(cursor), dir, j as nat) != *old(
                        cursor,
                    ) && !selectable(game@, cursor_iter(*old(cursor), dir, j as nat))));
            }
            return;
        }
    }
    proof {
        lemma_cursor_cycle(original, dir);
        let j: int = 9;
        assert(cursor_iter(original, dir, j as nat) != original);
        assert(false);
    }
}

} // verus!
