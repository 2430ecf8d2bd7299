//! The pieces, the content of a playable cell, the status of an outer
//! square, and the overall game status.
//!
//! `FilledSquare` is the one abstraction the result evaluator needs: a cell
//! can say whether it is filled and which piece, if any, fills it. Both the
//! inner cells (`Square`) and the outer statuses (`OuterSquare`) implement
//! it, so one evaluator serves both board levels. The two predicates are
//! distinct because a drawn outer square is filled but carries no piece.

use vstd::prelude::*;

verus! {

/// One of the two players' symbols.
#[derive(Copy, Clone, PartialEq, Eq, Structural, Debug)]
pub enum Piece {
    X,
    O,
}

impl Piece {
    /// The other player's piece.
    pub open spec fn spec_opposite(self) -> Piece {
        match self {
            Piece::X => Piece::O,
            Piece::O => Piece::X,
        }
    }

    pub fn opposite(&self) -> (r: Self)
        ensures
            r == self.spec_opposite(),
    {
        match self {
            Piece::X => Piece::O,
            Piece::O => Piece::X,
        }
    }
}

/// The outcome of a finished 3x3 grid: a winning piece, or a draw.
#[derive(Copy, Clone, PartialEq, Eq, Structural, Debug)]
pub enum GameOverResult {
    Draw,
    Winner(Piece),
}

/// The content of one playable cell.
#[derive(Copy, Clone, PartialEq, Eq, Structural, Debug)]
pub enum Square {
    Empty,
    Filled(Piece),
}

/// The status of one outer square: still playable, or finished with a result.
#[derive(Copy, Clone, PartialEq, Eq, Structural, Debug)]
pub enum OuterSquare {
    Incomplete,
    Complete(GameOverResult),
}

/// The overall status of a game.
#[derive(Copy, Clone, PartialEq, Eq, Structural, Debug)]
pub enum GameState {
    InProgress,
    GameOver(GameOverResult),
}

/// A cell of a 3x3 grid as the result evaluator sees it: possibly filled,
/// possibly filled by a piece. Implemented by both board levels.
pub trait FilledSquare: Sized + Copy {
    /// Whether the cell counts as filled for the draw scan.
    spec fn spec_filled(self) -> bool;

    /// The piece the cell contributes to a winning line, if any.
    spec fn spec_piece(self) -> Option<Piece>;

    fn is_filled(&self) -> (r: bool)
        ensures
            r == self.spec_filled(),
    ;

    fn filling_piece(&self) -> (r: Option<Piece>)
        ensures
            r == self.spec_piece(),
    ;
}

impl FilledSquare for Square {
    open spec fn spec_filled(self) -> bool {
        self is Filled
    }

    open spec fn spec_piece(self) -> Option<Piece> {
        match self {
            Square::Filled(piece) => Some(piece),
            Square::Empty => None,
        }
    }

    fn is_filled(&self) -> (r: bool) {
        if let Square::Filled(_) = self {
            true
        } else {
            false
        }
    }

    fn filling_piece(&self) -> (r: Option<Piece>) {
        if let Square::Filled(piece) = self {
            Some(*piece)
        } else {
            None
        }
    }
}

impl FilledSquare for OuterSquare {
    open spec fn spec_filled(self) -> bool {
        self is Complete
    }

    open spec fn spec_piece(self) -> Option<Piece> {
        match self {
            OuterSquare::Complete(GameOverResult::Winner(piece)) => Some(piece),
            _ => None,
        }
    }

    fn is_filled(&self) -> (r: bool) {
        if let OuterSquare::Complete(_) = self {
            true
        } else {
            false
        }
    }

    fn filling_piece(&self) -> (r: Option<Piece>) {
        if let OuterSquare::Complete(GameOverResult::Winner(piece)) = self {
            Some(*piece)
        } else {
            None
        }
    }
}

} // verus!
