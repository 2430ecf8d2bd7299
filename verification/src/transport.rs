//! The transport representation of a game, for crossing a serialization
//! boundary: plain optional pieces per cell, a completion tag per outer
//! square, a string-valued status tag, and an optional active-square
//! coordinate pair.
//!
//! Encoding and decoding are exact inverses on every well-formed game. An
//! unrecognized status string decodes to in-progress rather than failing,
//! a deliberate defensive fallback for backward-compatible decoding.

use vstd::prelude::*;

use crate::coords::{Coord, GameError};
use crate::game::{Game, GameModel};
use crate::squares::{GameOverResult, GameState, OuterSquare, Piece, Square};

verus! {

/// The piece occupying a cell, if any.
pub open spec fn piece_of(sq: Square) -> Option<Piece> {
    match sq {
        Square::Empty => None,
        Square::Filled(p) => Some(p),
    }
}

/// The cell holding the given optional piece.
pub open spec fn square_of(p: Option<Piece>) -> Square {
    match p {
        None => Square::Empty,
        Some(piece) => Square::Filled(piece),
    }
}

/// The completion tag of an outer square, if it is finished.
pub open spec fn completion_of(o: OuterSquare) -> Option<GameOverResult> {
    match o {
        OuterSquare::Incomplete => None,
        OuterSquare::Complete(res) => Some(res),
    }
}

/// The outer-square status carrying the given optional completion tag.
pub open spec fn outer_of(c: Option<GameOverResult>) -> OuterSquare {
    match c {
        None => OuterSquare::Incomplete,
        Some(res) => OuterSquare::Complete(res),
    }
}

/// The status tag of a game state: one of four literal values.
pub open spec fn status_text(state: GameState) -> Seq<char> {
    match state {
        GameState::InProgress => "in-progress"@,
        GameState::GameOver(GameOverResult::Draw) => "draw"@,
        GameState::GameOver(GameOverResult::Winner(Piece::X)) => "x-wins"@,
        GameState::GameOver(GameOverResult::Winner(Piece::O)) => "o-wins"@,
    }
}

/// The game state a status tag decodes to. Anything unrecognized decodes
/// to in-progress: the defensive fallback of the transport format.
pub open spec fn parse_status(s: Seq<char>) -> GameState {
    if s == "draw"@ {
        GameState::GameOver(GameOverResult::Draw)
    } else if s == "x-wins"@ {
        GameState::GameOver(GameOverResult::Winner(Piece::X))
    } else if s == "o-wins"@ {
        GameState::GameOver(GameOverResult::Winner(Piece::O))
    } else {
        GameState::InProgress
    }
}

/// The mathematical content of a transport value.
#[verifier::ext_equal]
pub ghost struct DataModel {
    pub cells: Seq<Option<Piece>>,
    pub completed: Seq<Option<GameOverResult>>,
    pub turn: Piece,
    pub status: Seq<char>,
    pub active: Option<(u8, u8)>,
}

/// A game as it crosses the serialization boundary: 81 optional pieces in
/// board scan order, 9 completion tags in outer scan order, the turn, the
/// status tag, and the active outer square as a plain coordinate pair.
pub struct GameData {
    pub cells: Vec<Option<Piece>>,
    pub completed: Vec<Option<GameOverResult>>,
    pub turn: Piece,
    pub status: String,
    pub active: Option<(u8, u8)>,
}

impl View for GameData {
    type V = DataModel;

    open spec fn view(&self) -> DataModel {
        DataModel {
            cells: self.cells@,
            completed: self.completed@,
            turn: self.turn,
            status: self.status@,
            active: self.active,
        }
    }
}

/// The transport value of a game model.
pub open spec fn spec_encode(m: GameModel) -> DataModel {
    DataModel {
        cells: Seq::new(81, |i: int| piece_of(m.board[i])),
        completed: Seq::new(9, |i: int| completion_of(m.outer[i])),
        turn: m.turn,
        status: status_text(m.state),
        active: match m.active {
            Some(c) => Some((c.x as u8, c.y as u8)),
            None => None,
        },
    }
}

/// The game model a transport value decodes to, or the rejection: a
/// transport value is rejected exactly when it has not 81 cells and 9
/// completion tags, or its active coordinate is out of range.
pub open spec fn spec_decode(d: DataModel) -> Result<GameModel, GameError> {
    if d.cells.len() == 81 && d.completed.len() == 9 && (d.active matches Some(a) ==> a.0 < 3
        && a.1 < 3) {
        Ok(
            GameModel {
                state: parse_status(d.status),
                board: Seq::new(81, |i: int| square_of(d.cells[i])),
                outer: Seq::new(9, |i: int| outer_of(d.completed[i])),
                turn: d.turn,
                active: match d.active {
                    Some(a) => Some(Coord { x: a.0 as usize, y: a.1 as usize }),
                    None => None,
                },
            },
        )
    } else {
        Err(GameError::OutOfBounds)
    }
}

/// The status tag of the game's state, as a string.
fn status_to_string(state: &GameState) -> (r: String)
    ensures
        r@ == status_text(*state),
{
    match state {
        GameState::InProgress => "in-progress".to_owned(),
        GameState::GameOver(GameOverResult::Draw) => "draw".to_owned(),
        GameState::GameOver(GameOverResult::Winner(Piece::X)) => "x-wins".to_owned(),
        GameState::GameOver(GameOverResult::Winner(Piece::O)) => "o-wins".to_owned(),
    }
}

/// The game state a status string decodes to, the defensive fallback
/// included.
fn status_from_string(s: &String) -> (r: GameState)
    ensures
        r == parse_status(s@),
{
    if *s == "draw".to_owned() {
        GameState::GameOver(GameOverResult::Draw)
    } else if *s == "x-wins".to_owned() {
        GameState::GameOver(GameOverResult::Winner(Piece::X))
    } else if *s == "o-wins".to_owned() {
        GameState::GameOver(GameOverResult::Winner(Piece::O))
    } else {
        GameState::InProgress
    }
}

/// Converts a game to its transport representation.
pub fn game_to_data(game: &Game) -> (d: GameData)
    requires
        game.wf(),
    ensures
        d@ == spec_encode(game@),
{
    let mut cells: Vec<Option<Piece>> = Vec::with_capacity(81);
    let mut i: usize = 0;
    while i < 81
        invariant
            i <= 81,
            cells@.len() == i,
            forall|j: int| 0 <= j < i ==> cells@[j] == piece_of(game@.board[j]),
        decreases 81 - i,
    {
        cells.push(
            match game.board[i] {
                Square::Empty => None,
                Square::Filled(p) => Some(p),
            },
        );
        i += 1;
    }
    let mut completed: Vec<Option<GameOverResult>> = Vec::with_capacity(9);
    let mut k: usize = 0;
    while k < 9
        invariant
            k <= 9,
            completed@.len() == k,
            forall|j: int| 0 <= j < k ==> completed@[j] == completion_of(game@.outer[j]),
        decreases 9 - k,
    {
        completed.push(
            match game.outer_board[k] {
                OuterSquare::Incomplete => None,
                OuterSquare::Complete(res) => Some(res),
            },
        );
        k += 1;
    }
    let active: Option<(u8, u8)> = match game.active_outer_square() {
        Some(c) => Some((c.x as u8, c.y as u8)),
        None => None,
    };
    let d = GameData {
        cells,
        completed,
        turn: game.turn(),
        status: status_to_string(&game.state),
        active,
    };
    proof {
        assert(d@.cells =~= spec_encode(game@).cells);
        assert(d@.completed =~= spec_encode(game@).completed);
        assert(d@ =~= spec_encode(game@));
    }
    d
}

/// Converts a transport value back to a game, rejecting one whose shape
/// is wrong; on every well-formed transport value the result is exactly
/// the decoded model.
pub fn data_to_game(data: &GameData) -> (r: Result<Game, GameError>)
    ensures
        r is Ok <==> spec_decode(data@) is Ok,
        r is Ok ==> r->Ok_0@ == spec_decode(data@)->Ok_0 && r->Ok_0.wf(),
        r is Err ==> r->Err_0 == spec_decode(data@)->Err_0,
{
    if data.cells.len() != 81 || data.completed.len() != 9 {
        return Err(GameError::OutOfBounds);
    }
    let active: Option<Coord> = match data.active {
        Some((ax, ay)) => {
            if ax < 3 && ay < 3 {
                Some(Coord { x: ax as usize, y: ay as usize })
            } else {
                return Err(GameError::OutOfBounds);
            }
        },
        None => None,
    };
    let mut board: [Square; 81] = [Square::Empty; 81];
    let mut i: usize = 0;
    while i < 81
        invariant
            i <= 81,
            data@.cells.len() == 81,
            forall|j: int| 0 <= j < i ==> board@[j] == square_of(data@.cells[j]),
        decreases 81 - i,
    {
        board[i] = match data.cells[i] {
            None => Square::Empty,
            Some(p) => Square::Filled(p),
        };
        i += 1;
    }
    let mut outer_board: [OuterSquare; 9] = [OuterSquare::Incomplete; 9];
    let mut k: usize = 0;
    while k < 9
        invariant
            k <= 9,
            data@.completed.len() == 9,
            forall|j: int| 0 <= j < k ==> outer_board@[j] == outer_of(data@.completed[j]),
        decreases 9 - k,
    {
        outer_board[k] = match data.completed[k] {
            None => OuterSquare::Incomplete,
            Some(res) => OuterSquare::Complete(res),
        };
        k += 1;
    }
    let game = Game {
        state: status_from_string(&data.status),
        board,
        outer_board,
        turn: data.turn,
        active_outer_square: active,
    };
    proof {
        assert(game@.board =~= spec_decode(data@)->Ok_0.board);
        assert(game@.outer =~= spec_decode(data@)->Ok_0.outer);
        assert(game@ =~= spec_decode(data@)->Ok_0);
    }
    Ok(game)
}

/// Law: decoding an encoded game gives back exactly that game — the
/// transport representation loses nothing on any well-formed game.
pub proof fn lemma_transport_round_trip(m: GameModel)
    requires
        m.wf(),
    ensures
        spec_decode(spec_encode(m)) == Ok::<GameModel, GameError>(m),
{
    reveal_strlit("in-progress");
    reveal_strlit("draw");
    reveal_strlit("x-wins");
    reveal_strlit("o-wins");
    let d = spec_encode(m);
    assert(d.cells.len() == 81 && d.completed.len() == 9);
    let m2 = spec_decode(d)->Ok_0;
    match m.state {
        GameState::InProgress => {
            assert("in-progress"@.len() == 11 && "draw"@.len() == 4 && "x-wins"@.len() == 6
                && "o-wins"@.len() == 6);
            assert("in-progress"@ != "draw"@);
            assert("in-progress"@ != "x-wins"@);
            assert("in-progress"@ != "o-wins"@);
        },
        GameState::GameOver(GameOverResult::Draw) => {},
        GameState::GameOver(GameOverResult::Winner(Piece::X)) => {
            assert("x-wins"@.len() == 6 && "draw"@.len() == 4);
            assert("x-wins"@ != "draw"@);
        },
        GameState::GameOver(GameOverResult::Winner(Piece::O)) => {
            assert("o-wins"@.len() == 6 && "draw"@.len() == 4);
            assert("o-wins"@[0] == 'o' && "x-wins"@[0] == 'x');
            assert("o-wins"@ != "draw"@);
            assert("o-wins"@ != "x-wins"@);
        },
    }
    assert(parse_status(status_text(m.state)) == m.state);
    assert(m2.board =~= m.board);
    assert(m2.outer =~= m.outer);
    assert(m2 =~= m);
}

} // verus!
