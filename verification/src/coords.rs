//! Coordinates into a single 3x3 grid and into the full two-level board,
//! and the error taxonomy of the engine.
//!
//! Constructing a coordinate from out-of-range integers fails; every live
//! coordinate built through `try_new` is valid, and the rest of the engine
//! relies on that validity instead of re-checking bounds.

use vstd::prelude::*;

verus! {

/// Side length of every grid in the game: the board is `SIZE x SIZE` outer
/// squares of `SIZE x SIZE` inner cells each.
pub const SIZE: usize = 3;

/// Why a coordinate construction or a move was rejected.
#[derive(Copy, Clone, PartialEq, Eq, Structural, Debug)]
pub enum GameError {
    /// A coordinate component was not strictly less than `SIZE`.
    OutOfBounds,
    /// `play_move` was called on a game whose status is game-over.
    GameFinished,
    /// `play_move` targeted a cell that already holds a piece.
    SquareOccupied,
    /// `play_move` targeted an outer square other than the active one.
    OutsideActiveSquare,
}

/// A position within one 3x3 grid; valid when both components are below `SIZE`.
#[derive(Copy, Clone, PartialEq, Eq, Structural, Debug)]
pub struct Coord {
    pub x: usize,
    pub y: usize,
}

impl Coord {
    /// Validity: both components in `[0, SIZE)`.
    pub open spec fn wf(self) -> bool {
        self.x < 3 && self.y < 3
    }

    fn new(x: usize, y: usize) -> (c: Self)
        ensures
            c == (Coord { x, y }),
    {
        Self { x, y }
    }

    /// Builds a coordinate, rejecting out-of-range components.
    pub fn try_new(x: usize, y: usize) -> (r: Result<Self, GameError>)
        ensures
            x < 3 && y < 3 ==> r == Ok::<Coord, GameError>(Coord { x, y }),
            !(x < 3 && y < 3) ==> r == Err::<Coord, GameError>(GameError::OutOfBounds),
    {
        let c = Self::new(x, y);
        if c.is_valid() {
            Ok(c)
        } else {
            Err(GameError::OutOfBounds)
        }
    }

    pub fn is_valid(&self) -> (r: bool)
        ensures
            r == self.wf(),
    {
        self.x < SIZE && self.y < SIZE
    }

    pub fn x(&self) -> (r: usize)
        ensures
            r == self.x,
    {
        self.x
    }

    pub fn y(&self) -> (r: usize)
        ensures
            r == self.y,
    {
        self.y
    }
}

/// One of the 81 playable cells: an outer square and an inner cell within it.
#[derive(Copy, Clone, PartialEq, Eq, Structural, Debug)]
pub struct FullCoord {
    pub outer: Coord,
    pub inner: Coord,
}

impl FullCoord {
    /// Validity: both component coordinates valid.
    pub open spec fn wf(self) -> bool {
        self.outer.wf() && self.inner.wf()
    }

    fn new(outer: Coord, inner: Coord) -> (c: Self)
        ensures
            c == (FullCoord { outer, inner }),
    {
        Self { outer, inner }
    }

    /// Builds a full coordinate from `(outer, inner)` component pairs,
    /// rejecting any out-of-range component.
    pub fn try_new(outer_pair: (usize, usize), inner_pair: (usize, usize)) -> (r: Result<
        Self,
        GameError,
    >)
        ensures
            ({
                let c = FullCoord {
                    outer: Coord { x: outer_pair.0, y: outer_pair.1 },
                    inner: Coord { x: inner_pair.0, y: inner_pair.1 },
                };
                if c.wf() {
                    r == Ok::<FullCoord, GameError>(c)
                } else {
                    r == Err::<FullCoord, GameError>(GameError::OutOfBounds)
                }
            }),
    {
        let (ox, oy) = outer_pair;
        let (ix, iy) = inner_pair;
        let c = Self::new(Coord::new(ox, oy), Coord::new(ix, iy));
        if c.is_valid() {
            Ok(c)
        } else {
            Err(GameError::OutOfBounds)
        }
    }

    pub fn is_valid(&self) -> (r: bool)
        ensures
            r == self.wf(),
    {
        self.outer.is_valid() && self.inner.is_valid()
    }

    pub fn inner(&self) -> (r: Coord)
        ensures
            r == self.inner,
    {
        self.inner
    }

    pub fn outer(&self) -> (r: Coord)
        ensures
            r == self.outer,
    {
        self.outer
    }

    pub fn inner_x(&self) -> (r: usize)
        ensures
            r == self.inner.x,
    {
        self.inner.x()
    }

    pub fn inner_y(&self) -> (r: usize)
        ensures
            r == self.inner.y,
    {
        self.inner.y()
    }

    pub fn outer_x(&self) -> (r: usize)
        ensures
            r == self.outer.x,
    {
        self.outer.x()
    }

    pub fn outer_y(&self) -> (r: usize)
        ensures
            r == self.outer.y,
    {
        self.outer.y()
    }
}

} // verus!
