//! The engine's laws: facts that hold of every game, proved once over the
//! model rather than observed on examples.
//!
//! Each public proof function here states one guarantee of the engine over
//! `spec_play_move` and `spec_moves`, the spec functions that the exec
//! contracts in `game` are pinned to.

use vstd::prelude::*;

use crate::coords::{Coord, FullCoord, GameError};
use crate::evaluate::{
    all_filled, grid_result, has_line, lemma_filled_no_line_draw, lemma_line_gives_winner,
};
use crate::game::{
    all_moves_upto, cell_index, coord_index, init_model, inner_grid, inner_moves,
    inner_moves_upto, spec_moves, spec_play_move, GameModel,
};
use crate::squares::{GameOverResult, OuterSquare, Piece, Square};

verus! {

/// The number of empty cells among the first `k` cells of outer square `o`.
pub open spec fn count_empty_upto(board: Seq<Square>, o: Coord, k: int) -> int
    decreases k,
{
    if k <= 0 {
        0
    } else {
        count_empty_upto(board, o, k - 1) + if board[coord_index(o) * 9 + (k - 1)] is Empty {
            1 as int
        } else {
            0 as int
        }
    }
}

/// The number of empty cells of outer square `o`.
pub open spec fn count_empty(board: Seq<Square>, o: Coord) -> int {
    count_empty_upto(board, o, 9)
}

/// Helper: the moves listed for one outer square are exactly its empty
/// cells — as many as there are empty cells, each lying in that square,
/// each valid, each empty on the board.
proof fn lemma_inner_moves_upto(board: Seq<Square>, o: Coord, k: int)
    requires
        o.wf(),
        0 <= k <= 9,
    ensures
        inner_moves_upto(board, o, k).len() == count_empty_upto(board, o, k),
        forall|i: int|
            0 <= i < inner_moves_upto(board, o, k).len() ==> {
                let fc = #[trigger] inner_moves_upto(board, o, k)[i];
                fc.outer == o && fc.wf() && board[cell_index(fc)] is Empty
            },
    decreases k,
{
    if k > 0 {
        lemma_inner_moves_upto(board, o, k - 1);
        let fc = FullCoord {
            outer: o,
            inner: Coord { x: ((k - 1) / 3) as usize, y: ((k - 1) % 3) as usize },
        };
        assert(cell_index(fc) == coord_index(o) * 9 + (k - 1));
    }
}

/// Law: the moves of an outer square are its empty cells, in order.
pub proof fn lemma_inner_moves(board: Seq<Square>, o: Coord)
    requires
        o.wf(),
    ensures
        inner_moves(board, o).len() == count_empty(board, o),
        forall|i: int|
            0 <= i < inner_moves(board, o).len() ==> {
                let fc = #[trigger] inner_moves(board, o)[i];
                fc.outer == o && fc.wf() && board[cell_index(fc)] is Empty
            },
{
    lemma_inner_moves_upto(board, o, 9);
}

/// Law: when an active outer square is set (and the game is running),
/// every legal move targets that square, and there are exactly as many
/// legal moves as the square has empty cells.
pub proof fn lemma_active_square_limits_moves(m: GameModel, a: Coord)
    requires
        m.wf(),
        m.state is InProgress,
        m.active == Some(a),
    ensures
        spec_moves(m).len() == count_empty(m.board, a),
        forall|i: int|
            0 <= i < spec_moves(m).len() ==> (#[trigger] spec_moves(m)[i]).outer == a,
{
    lemma_inner_moves(m.board, a);
}

/// Helper: every move listed by the unconstrained scan of the first `j`
/// outer squares is a valid, empty cell of an incomplete outer square.
proof fn lemma_all_moves_upto(board: Seq<Square>, outer: Seq<OuterSquare>, j: int)
    requires
        0 <= j <= 9,
    ensures
        forall|i: int|
            0 <= i < all_moves_upto(board, outer, j).len() ==> {
                let fc = #[trigger] all_moves_upto(board, outer, j)[i];
                fc.wf() && outer[coord_index(fc.outer)] is Incomplete && board[cell_index(
                    fc,
                )] is Empty
            },
    decreases j,
{
    if j > 0 {
        lemma_all_moves_upto(board, outer, j - 1);
        let o = Coord { x: ((j - 1) / 3) as usize, y: ((j - 1) % 3) as usize };
        assert(coord_index(o) == j - 1);
        if outer[j - 1] is Incomplete {
            lemma_inner_moves(board, o);
            let prev = all_moves_upto(board, outer, j - 1);
            let added = inner_moves(board, o);
            assert forall|i: int|
                0 <= i < all_moves_upto(board, outer, j).len() implies {
                let fc = #[trigger] all_moves_upto(board, outer, j)[i];
                fc.wf() && outer[coord_index(fc.outer)] is Incomplete && board[cell_index(
                    fc,
                )] is Empty
            } by {
                if i < prev.len() {
                    assert(all_moves_upto(board, outer, j)[i] == prev[i]);
                } else {
                    assert(all_moves_upto(board, outer, j)[i] == added[i - prev.len()]);
                }
            }
        }
    }
}

/// Law: the legal moves never reach into a completed outer square or an
/// occupied cell, even when no active-square constraint is set; and a
/// finished game has no legal moves at all.
pub proof fn lemma_moves_skip_completed(m: GameModel)
    requires
        m.wf(),
    ensures
        m.state is GameOver ==> spec_moves(m) == Seq::<FullCoord>::empty(),
        forall|i: int|
            0 <= i < spec_moves(m).len() ==> {
                let fc = #[trigger] spec_moves(m)[i];
                fc.wf() && m.board[cell_index(fc)] is Empty
            },
        m.active is None ==> forall|i: int|
            0 <= i < spec_moves(m).len() ==> m.outer[coord_index(
                (#[trigger] spec_moves(m)[i]).outer,
            )] is Incomplete,
{
    if m.state is GameOver {
    } else {
        match m.active {
            Some(a) => {
                lemma_inner_moves(m.board, a);
            },
            None => {
                lemma_all_moves_upto(m.board, m.outer, 9);
            },
        }
    }
}

/// Helper: on the empty board every outer square has 9 empty cells.
proof fn lemma_count_empty_fresh(o: Coord, k: int)
    requires
        o.wf(),
        0 <= k <= 9,
    ensures
        count_empty_upto(init_model().board, o, k) == k,
    decreases k,
{
    if k > 0 {
        lemma_count_empty_fresh(o, k - 1);
    }
}

/// Helper: the unconstrained scan of the fresh game lists 9 moves per
/// outer square.
proof fn lemma_fresh_moves_upto(j: int)
    requires
        0 <= j <= 9,
    ensures
        all_moves_upto(init_model().board, init_model().outer, j).len() == 9 * j,
    decreases j,
{
    if j > 0 {
        lemma_fresh_moves_upto(j - 1);
        let o = Coord { x: ((j - 1) / 3) as usize, y: ((j - 1) % 3) as usize };
        lemma_inner_moves(init_model().board, o);
        lemma_count_empty_fresh(o, 9);
    }
}

/// Law: a fresh game has all 9 outer squares incomplete, no active outer
/// square, the first piece to move, an in-progress status, and exactly 81
/// legal moves.
pub proof fn lemma_fresh_game()
    ensures
        init_model().wf(),
        init_model().turn == Piece::X,
        init_model().state is InProgress,
        init_model().active is None,
        forall|i: int| 0 <= i < 9 ==> init_model().outer[i] is Incomplete,
        spec_moves(init_model()).len() == 81,
{
    lemma_fresh_moves_upto(9);
}

/// Law: every move the move generator lists is accepted by the move
/// transition: listing and validation agree.
pub proof fn lemma_listed_moves_are_accepted(m: GameModel, i: int)
    requires
        m.wf(),
        0 <= i < spec_moves(m).len(),
    ensures
        spec_play_move(m, spec_moves(m)[i]) is Ok,
{
    let fc = spec_moves(m)[i];
    lemma_moves_skip_completed(m);
    if let Some(a) = m.active {
        lemma_active_square_limits_moves(m, a);
        assert(fc.outer == a);
    }
}

/// Law: every accepted move flips the turn to the opposite piece.
pub proof fn lemma_move_flips_turn(m: GameModel, fc: FullCoord)
    requires
        spec_play_move(m, fc) is Ok,
    ensures
        spec_play_move(m, fc)->Ok_0.turn == m.turn.spec_opposite(),
{
}

/// Law: after an accepted move into inner cell `fc.inner`, the active
/// outer square is `fc.inner` if the outer square at that position is
/// still incomplete and the game goes on; it is cleared whenever that
/// square is complete — in particular when this very move completed it —
/// and whenever the move ends the game.
pub proof fn lemma_move_sets_active_square(m: GameModel, fc: FullCoord)
    requires
        m.wf(),
        fc.wf(),
        spec_play_move(m, fc) is Ok,
    ensures
        ({
            let m2 = spec_play_move(m, fc)->Ok_0;
            let ti = coord_index(fc.inner);
            &&& (m2.state is InProgress && m2.outer[ti] is Incomplete ==> m2.active == Some(
                fc.inner,
            ))
            &&& (m2.outer[ti] is Complete ==> m2.active is None)
            &&& (m2.state is GameOver ==> m2.active is None)
        }),
{
}

/// Law: a rejected move is rejected for exactly one reason, and each
/// rejection happens precisely on the states it names: a finished game,
/// an occupied target cell, or a target outside the active outer square,
/// checked in that order. Everything else is accepted.
pub proof fn lemma_rejections(m: GameModel, fc: FullCoord)
    ensures
        spec_play_move(m, fc) == Err::<GameModel, GameError>(GameError::GameFinished)
            <==> m.state is GameOver,
        spec_play_move(m, fc) == Err::<GameModel, GameError>(GameError::SquareOccupied)
            <==> (m.state is InProgress && m.board[cell_index(fc)] is Filled),
        spec_play_move(m, fc) == Err::<GameModel, GameError>(GameError::OutsideActiveSquare) <==> (
        m.state is InProgress && m.board[cell_index(fc)] is Empty && (m.active matches Some(a)
            && a != fc.outer)),
        spec_play_move(m, fc) is Ok <==> (m.state is InProgress && m.board[cell_index(
            fc,
        )] is Empty && (m.active is None || m.active == Some(fc.outer))),
{
    let c = m.board[cell_index(fc)];
    assert(c is Filled <==> !(c is Empty));
}

/// Law: an accepted move places the mover's piece at the target cell and
/// changes no other cell.
pub proof fn lemma_move_places_piece(m: GameModel, fc: FullCoord)
    requires
        m.wf(),
        fc.wf(),
        spec_play_move(m, fc) is Ok,
    ensures
        ({
            let m2 = spec_play_move(m, fc)->Ok_0;
            &&& m2.board[cell_index(fc)] == Square::Filled(m.turn)
            &&& m2.board.len() == 81
            &&& forall|i: int|
                0 <= i < 81 && i != cell_index(fc) ==> m2.board[i] == m.board[i]
        }),
{
    assert(0 <= cell_index(fc) < 81);
}

/// Law: an accepted move into a still-incomplete outer square completes
/// that square exactly when the square's grid, with the new piece placed,
/// has a result — and with that result; a square already complete is left
/// untouched.
pub proof fn lemma_move_completes_square(m: GameModel, fc: FullCoord)
    requires
        m.wf(),
        fc.wf(),
        spec_play_move(m, fc) is Ok,
    ensures
        ({
            let m2 = spec_play_move(m, fc)->Ok_0;
            let oi = coord_index(fc.outer);
            let g = inner_grid(m2.board, fc.outer);
            &&& (m.outer[oi] is Incomplete ==> m2.outer[oi] == (match grid_result(g) {
                Some(res) => OuterSquare::Complete(res),
                None => OuterSquare::Incomplete,
            }))
            &&& (m.outer[oi] is Complete ==> m2.outer[oi] == m.outer[oi])
            &&& forall|i: int|
                0 <= i < 9 && i != coord_index(fc.outer) ==> m2.outer[i] == m.outer[i]
        }),
{
    assert(0 <= coord_index(fc.outer) < 9);
}

/// Law: three in a line of one piece within the played outer square —
/// with no opposing line — completes that square as a win for that piece.
pub proof fn lemma_line_completes_as_win(m: GameModel, fc: FullCoord, p: Piece)
    requires
        m.wf(),
        fc.wf(),
        spec_play_move(m, fc) is Ok,
        m.outer[coord_index(fc.outer)] is Incomplete,
        has_line(inner_grid(spec_play_move(m, fc)->Ok_0.board, fc.outer), p),
        !has_line(inner_grid(spec_play_move(m, fc)->Ok_0.board, fc.outer), p.spec_opposite()),
    ensures
        spec_play_move(m, fc)->Ok_0.outer[coord_index(fc.outer)] == OuterSquare::Complete(
            GameOverResult::Winner(p),
        ),
{
    let m2 = spec_play_move(m, fc)->Ok_0;
    let g = inner_grid(m2.board, fc.outer);
    lemma_line_gives_winner(g, p);
    lemma_move_completes_square(m, fc);
}

/// Law: filling the played outer square with no line for either piece
/// completes it as a draw.
pub proof fn lemma_filled_completes_as_draw(m: GameModel, fc: FullCoord)
    requires
        m.wf(),
        fc.wf(),
        spec_play_move(m, fc) is Ok,
        m.outer[coord_index(fc.outer)] is Incomplete,
        all_filled(inner_grid(spec_play_move(m, fc)->Ok_0.board, fc.outer)),
        !has_line(inner_grid(spec_play_move(m, fc)->Ok_0.board, fc.outer), Piece::X),
        !has_line(inner_grid(spec_play_move(m, fc)->Ok_0.board, fc.outer), Piece::O),
    ensures
        spec_play_move(m, fc)->Ok_0.outer[coord_index(fc.outer)] == OuterSquare::Complete(
            GameOverResult::Draw,
        ),
{
    let m2 = spec_play_move(m, fc)->Ok_0;
    let g = inner_grid(m2.board, fc.outer);
    lemma_filled_no_line_draw(g);
    lemma_move_completes_square(m, fc);
}

} // verus!
