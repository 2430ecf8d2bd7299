//! The game aggregate and its two operations: move enumeration and the
//! move transition.
//!
//! The board is stored flat: cell `(outer, inner)` of the 81-cell board at
//! index `coord_index(outer) * 9 + coord_index(inner)`, and outer square
//! `o` of the 9-square outer board at `coord_index(o)`. The mathematical
//! model is [`GameModel`]; `spec_play_move` is the whole transition as one
//! spec function, and `spec_moves` the exact legal-move sequence, so every
//! public operation is pinned to the model.

use vstd::prelude::*;

use crate::coords::{Coord, FullCoord, GameError, SIZE};
use crate::evaluate::{check_result, grid_result};
use crate::squares::{GameState, OuterSquare, Piece, Square};

verus! {

/// Index of a coordinate within a 3x3 grid stored flat in scan order
/// (`x` major, `y` minor).
pub open spec fn coord_index(c: Coord) -> int {
    c.x * 3 + c.y
}

/// Index of a playable cell within the flat 81-cell board.
pub open spec fn cell_index(fc: FullCoord) -> int {
    coord_index(fc.outer) * 9 + coord_index(fc.inner)
}

/// The 9 cells of outer square `o`, as a 3x3 grid for the evaluator.
pub open spec fn inner_grid(board: Seq<Square>, o: Coord) -> Seq<Square> {
    board.subrange(coord_index(o) * 9, coord_index(o) * 9 + 9)
}

/// The mathematical model of a game: what every contract speaks of.
#[verifier::ext_equal]
pub ghost struct GameModel {
    pub state: GameState,
    pub board: Seq<Square>,
    pub outer: Seq<OuterSquare>,
    pub turn: Piece,
    pub active: Option<Coord>,
}

impl GameModel {
    /// Well-formedness: full board of 81 cells, outer board of 9 statuses,
    /// and a valid active coordinate if one is set.
    pub open spec fn wf(self) -> bool {
        &&& self.board.len() == 81
        &&& self.outer.len() == 9
        &&& match self.active {
            Some(a) => a.wf(),
            None => true,
        }
    }
}

/// The model of a fresh game: empty board, all outer squares incomplete,
/// X to move, in progress, no active-square constraint.
pub open spec fn init_model() -> GameModel {
    GameModel {
        state: GameState::InProgress,
        board: Seq::new(81, |i: int| Square::Empty),
        outer: Seq::new(9, |i: int| OuterSquare::Incomplete),
        turn: Piece::X,
        active: None,
    }
}

/// The legal moves within outer square `o` among its first `k` cells, in
/// cell scan order.
pub open spec fn inner_moves_upto(board: Seq<Square>, o: Coord, k: int) -> Seq<FullCoord>
    decreases k,
{
    if k <= 0 {
        Seq::empty()
    } else {
        let prev = inner_moves_upto(board, o, k - 1);
        let fc = FullCoord { outer: o, inner: Coord { x: ((k - 1) / 3) as usize, y: ((k - 1) % 3) as usize } };
        if board[cell_index(fc)] is Empty {
            prev.push(fc)
        } else {
            prev
        }
    }
}

/// All legal moves within outer square `o`: its empty cells, in scan order.
pub open spec fn inner_moves(board: Seq<Square>, o: Coord) -> Seq<FullCoord> {
    inner_moves_upto(board, o, 9)
}

/// The legal moves of the first `j` outer squares when no constraint is
/// set: empty cells of incomplete outer squares, outer scan order first.
pub open spec fn all_moves_upto(board: Seq<Square>, outer: Seq<OuterSquare>, j: int) -> Seq<
    FullCoord,
>
    decreases j,
{
    if j <= 0 {
        Seq::empty()
    } else {
        let prev = all_moves_upto(board, outer, j - 1);
        let o = Coord { x: (((j - 1) / 3)) as usize, y: ((j - 1) % 3) as usize };
        if outer[j - 1] is Incomplete {
            prev + inner_moves(board, o)
        } else {
            prev
        }
    }
}

/// The exact sequence `get_moves` returns: empty once the game is over;
/// the empty cells of the active outer square when one is set; otherwise
/// the empty cells of every incomplete outer square, in scan order.
pub open spec fn spec_moves(m: GameModel) -> Seq<FullCoord> {
    if m.state is GameOver {
        Seq::empty()
    } else {
        match m.active {
            Some(a) => inner_moves(m.board, a),
            None => all_moves_upto(m.board, m.outer, 9),
        }
    }
}

/// The post-state of a validated move: piece placed, turn flipped, the
/// played outer square evaluated if still incomplete, the next active
/// square taken from the status of the outer square named by the inner
/// cell just played, and the outer grid evaluated last, game over
/// overriding the active-square decision.
pub open spec fn spec_apply_move(m: GameModel, fc: FullCoord) -> GameModel {
    let board2 = m.board.update(cell_index(fc), Square::Filled(m.turn));
    let turn2 = m.turn.spec_opposite();
    let oi = coord_index(fc.outer);
    let outer2 = if m.outer[oi] is Incomplete {
        match grid_result(inner_grid(board2, fc.outer)) {
            Some(res) => m.outer.update(oi, OuterSquare::Complete(res)),
            None => m.outer,
        }
    } else {
        m.outer
    };
    let ti = coord_index(fc.inner);
    let active2 = if outer2[ti] is Incomplete {
        Some(fc.inner)
    } else {
        None
    };
    match grid_result(outer2) {
        Some(res) => GameModel {
            state: GameState::GameOver(res),
            board: board2,
            outer: outer2,
            turn: turn2,
            active: None,
        },
        None => GameModel {
            state: m.state,
            board: board2,
            outer: outer2,
            turn: turn2,
            active: active2,
        },
    }
}

/// The whole transition: the three rejections, in their checked order,
/// or the applied move.
pub open spec fn spec_play_move(m: GameModel, fc: FullCoord) -> Result<GameModel, GameError> {
    if m.state is GameOver {
        Err(GameError::GameFinished)
    } else if m.board[cell_index(fc)] is Filled {
        Err(GameError::SquareOccupied)
    } else if m.active matches Some(a) && a != fc.outer {
        Err(GameError::OutsideActiveSquare)
    } else {
        Ok(spec_apply_move(m, fc))
    }
}

/// The aggregate root: mutated only through `play_move`.
pub struct Game {
    pub state: GameState,
    pub board: [Square; 81],
    pub outer_board: [OuterSquare; 9],
    pub turn: Piece,
    pub active_outer_square: Option<Coord>,
}

impl View for Game {
    type V = GameModel;

    open spec fn view(&self) -> GameModel {
        GameModel {
            state: self.state,
            board: self.board@,
            outer: self.outer_board@,
            turn: self.turn,
            active: self.active_outer_square,
        }
    }
}

impl Game {
    /// Well-formedness of the stored game; the array lengths are fixed by
    /// their types, so only the active coordinate needs to be valid.
    pub open spec fn wf(self) -> bool {
        self@.wf()
    }

    /// A fresh game.
    pub fn new() -> (game: Self)
        ensures
            game@ == init_model(),
            game.wf(),
    {
        let game = Self {
            state: GameState::InProgress,
            board: [Square::Empty; 81],
            outer_board: [OuterSquare::Incomplete; 9],
            turn: Piece::X,
            active_outer_square: None,
        };
        proof {
            assert(game@.board =~= init_model().board);
            assert(game@.outer =~= init_model().outer);
            assert(game@ =~= init_model());
        }
        game
    }

    pub fn state(&self) -> (r: GameState)
        ensures
            r == self@.state,
    {
        self.state
    }

    pub fn turn(&self) -> (r: Piece)
        ensures
            r == self@.turn,
    {
        self.turn
    }

    pub fn active_outer_square(&self) -> (r: Option<Coord>)
        ensures
            r == self@.active,
    {
        self.active_outer_square
    }

    pub fn get_outer_square(&self, coord: &Coord) -> (r: OuterSquare)
        requires
            coord.wf(),
        ensures
            r == self@.outer[coord_index(*coord)],
    {
        self.outer_board[coord.x() * SIZE + coord.y()]
    }

    pub fn get_square(&self, full_coord: &FullCoord) -> (r: Square)
        requires
            full_coord.wf(),
        ensures
            r == self@.board[cell_index(*full_coord)],
    {
        let oi = full_coord.outer.x * SIZE + full_coord.outer.y;
        let ii = full_coord.inner.x * SIZE + full_coord.inner.y;
        self.board[oi * 9 + ii]
    }

    fn set_square(&mut self, full_coord: &FullCoord, piece: Square)
        requires
            full_coord.wf(),
        ensures
            final(self)@.board == old(self)@.board.update(cell_index(*full_coord), piece),
            final(self).state == old(self).state,
            final(self).outer_board == old(self).outer_board,
            final(self).turn == old(self).turn,
            final(self).active_outer_square == old(self).active_outer_square,
    {
        let oi = full_coord.outer.x * SIZE + full_coord.outer.y;
        let ii = full_coord.inner.x * SIZE + full_coord.inner.y;
        self.board[oi * 9 + ii] = piece;
    }

    /// Copies the 9 cells of outer square `outer` into a grid for the
    /// evaluator.
    fn inner_cells(&self, outer: &Coord) -> (cells: [Square; 9])
        requires
            outer.wf(),
        ensures
            cells@ == inner_grid(self@.board, *outer),
    {
        let oi = outer.x * SIZE + outer.y;
        let mut cells: [Square; 9] = [Square::Empty; 9];
        let mut k: usize = 0;
        while k < 9
            invariant
                outer.wf(),
                oi == coord_index(*outer),
                k <= 9,
                forall|j: int| 0 <= j < k ==> cells@[j] == self@.board[oi * 9 + j],
            decreases 9 - k,
        {
            cells[k] = self.board[oi * 9 + k];
            k += 1;
        }
        proof {
            assert(cells@ =~= inner_grid(self@.board, *outer));
        }
        cells
    }

    /// Appends the legal moves within outer square `outer` to `moves`, in
    /// cell scan order.
    fn get_moves_inner_board(&self, outer: &Coord, moves: &mut Vec<FullCoord>)
        requires
            outer.wf(),
        ensures
            final(moves)@ == old(moves)@ + inner_moves(self@.board, *outer),
    {
        let mut k: usize = 0;
        while k < 9
            invariant
                outer.wf(),
                k <= 9,
                moves@ == old(moves)@ + inner_moves_upto(self@.board, *outer, k as int),
            decreases 9 - k,
        {
            let full_coord = FullCoord { outer: *outer, inner: Coord { x: k / 3, y: k % 3 } };
            match self.get_square(&full_coord) {
                Square::Empty => {
                    moves.push(full_coord);
                },
                _ => {},
            }
            proof {
                assert(moves@ =~= old(moves)@ + inner_moves_upto(
                    self@.board,
                    *outer,
                    k as int + 1,
                ));
            }
            k += 1;
        }
    }

    /// The legal moves of the current position, in scan order: none once
    /// the game is over; the empty cells of the active outer square when
    /// one is set; otherwise the empty cells of every incomplete outer
    /// square.
    pub fn get_moves(&self) -> (moves: Vec<FullCoord>)
        requires
            self.wf(),
        ensures
            moves@ == spec_moves(self@),
    {
        if let GameState::GameOver(_) = self.state {
            Vec::new()
        } else if let Some(active) = self.active_outer_square {
            let mut moves: Vec<FullCoord> = Vec::with_capacity(SIZE * SIZE);
            self.get_moves_inner_board(&active, &mut moves);
            moves
        } else {
            let mut moves: Vec<FullCoord> = Vec::with_capacity(SIZE * SIZE * SIZE * SIZE);
            let mut j: usize = 0;
            while j < 9
                invariant
                    self.wf(),
                    self@.state is InProgress,
                    self@.active is None,
                    j <= 9,
                    moves@ == all_moves_upto(self@.board, self@.outer, j as int),
                decreases 9 - j,
            {
                if let OuterSquare::Incomplete = self.outer_board[j] {
                    let o = Coord { x: j / 3, y: j % 3 };
                    self.get_moves_inner_board(&o, &mut moves);
                }
                j += 1;
            }
            moves
        }
    }

    /// Validates and applies a move. The three rejections are checked in
    /// order — finished game, occupied cell, wrong outer square — and a
    /// rejected move leaves the game unchanged; an accepted move drives
    /// the game to exactly `spec_apply_move` of the pre-move model.
    pub fn play_move(&mut self, full_coord: &FullCoord) -> (r: Result<(), GameError>)
        requires
            old(self).wf(),
            full_coord.wf(),
        ensures
            final(self).wf(),
            match spec_play_move(old(self)@, *full_coord) {
                Ok(m2) => r == Ok::<(), GameError>(()) && final(self)@ == m2,
                Err(e) => r == Err::<(), GameError>(e) && *final(self) == *old(self),
            },
    {
        if let GameState::GameOver(_) = self.state {
            return Err(GameError::GameFinished);
        }
        if let Square::Filled(_) = self.get_square(full_coord) {
            return Err(GameError::SquareOccupied);
        }
        if let Some(active) = self.active_outer_square {
            if active != full_coord.outer {
                return Err(GameError::OutsideActiveSquare);
            }
        }

        let ghost m0 = self@;

        let square = Square::Filled(self.turn);
        self.set_square(full_coord, square);

        self.turn = self.turn.opposite();

        // Evaluate the outer square that received the move; a square that
        // is already complete is never re-evaluated.
        let oi = full_coord.outer.x * SIZE + full_coord.outer.y;
        if let OuterSquare::Incomplete = self.outer_board[oi] {
            let cells = self.inner_cells(&full_coord.outer);
            if let Some(result) = check_result(&cells) {
                self.outer_board[oi] = OuterSquare::Complete(result);
            }
        }

        // The next active outer square is the one named by the inner cell
        // just played, unless that square is finished.
        let ti = full_coord.inner.x * SIZE + full_coord.inner.y;
        self.active_outer_square = match self.outer_board[ti] {
            OuterSquare::Incomplete => Some(full_coord.inner),
            OuterSquare::Complete(_) => None,
        };

        // Evaluate the whole outer grid last: game over supersedes any
        // move constraint.
        if let Some(result) = check_result(&self.outer_board) {
            self.state = GameState::GameOver(result);
            self.active_outer_square = None;
        }

        proof {
            assert(self@ =~= spec_apply_move(m0, *full_coord));
        }
        Ok(())
    }
}

} // verus!
