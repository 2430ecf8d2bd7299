use ultimate_tic_tac_toe::{
    check_result, Coord, FullCoord, Game, GameError, GameOverResult, GameState, OuterSquare,
    Piece, Square,
};

fn fc(outer: (usize, usize), inner: (usize, usize)) -> FullCoord {
    FullCoord::try_new(outer, inner).unwrap()
}

fn game_with_moves(moves: &[((usize, usize), (usize, usize))]) -> Game {
    let mut game = Game::new();
    for (outer, inner) in moves {
        game.play_move(&fc(*outer, *inner)).unwrap();
    }
    game
}

/// Every observable of a game, read through the public accessors.
fn snapshot(game: &Game) -> (Vec<Square>, Vec<OuterSquare>, Piece, GameState, Option<Coord>) {
    let mut squares = Vec::new();
    for ox in 0..3 {
        for oy in 0..3 {
            for ix in 0..3 {
                for iy in 0..3 {
                    squares.push(game.get_square(&fc((ox, oy), (ix, iy))));
                }
            }
        }
    }
    let mut outers = Vec::new();
    for x in 0..3 {
        for y in 0..3 {
            outers.push(game.get_outer_square(&Coord::try_new(x, y).unwrap()));
        }
    }
    (squares, outers, game.turn(), game.state(), game.active_outer_square())
}

/// A full game in which X wins outer squares (0,0), (1,1) and (2,2), the
/// main diagonal of the outer board.
fn x_wins_the_game() -> Game {
    game_with_moves(&[
        ((0, 0), (1, 1)), // X in (0,0)
        ((1, 1), (0, 0)), // O sent to (1,1), back to (0,0)
        ((0, 0), (2, 0)), // X in (0,0)
        ((2, 0), (0, 0)), // O back to (0,0)
        ((0, 0), (0, 2)), // X wins (0,0) on the anti-diagonal; active -> (0,2)
        ((0, 2), (1, 1)), // O sent to (0,2), sends X to (1,1)
        ((1, 1), (2, 2)), // X in (1,1)
        ((2, 2), (1, 1)), // O back to (1,1)
        ((1, 1), (2, 0)), // X in (1,1)
        ((2, 0), (1, 1)), // O back to (1,1)
        ((1, 1), (2, 1)), // X wins (1,1) on column 2; active -> (2,1)
        ((2, 1), (2, 2)), // O sends X to (2,2)
        ((2, 2), (0, 0)), // X in (2,2); target (0,0) complete -> no constraint
        ((0, 1), (2, 2)), // O plays freely, sends X to (2,2)
        ((2, 2), (0, 1)), // X in (2,2); active -> (0,1)
        ((0, 1), (0, 0)), // O in (0,1); target (0,0) complete -> no constraint
        ((2, 2), (0, 2)), // X wins (2,2) on column 0: game over, X wins
    ])
}

#[test]
fn winning_three_outer_squares_in_a_line_ends_the_game() {
    let game = x_wins_the_game();

    assert_eq!(game.state(), GameState::GameOver(GameOverResult::Winner(Piece::X)));
    assert_eq!(game.active_outer_square(), None);
    assert_eq!(game.get_moves().len(), 0);
}

#[test]
fn coordinates_out_of_range_are_rejected() {
    assert_eq!(Coord::try_new(3, 0), Err(GameError::OutOfBounds));
    assert_eq!(Coord::try_new(0, 3), Err(GameError::OutOfBounds));
    assert!(Coord::try_new(2, 2).is_ok());
    assert_eq!(FullCoord::try_new((0, 0), (0, 3)), Err(GameError::OutOfBounds));
    assert_eq!(FullCoord::try_new((9, 0), (0, 0)), Err(GameError::OutOfBounds));
    assert!(FullCoord::try_new((2, 2), (2, 2)).is_ok());
}

#[test]
fn a_move_on_a_finished_game_is_rejected_and_changes_nothing() {
    let mut game = x_wins_the_game();
    let before = snapshot(&game);

    let result = game.play_move(&fc((0, 1), (1, 1)));

    assert_eq!(result, Err(GameError::GameFinished));
    assert_eq!(snapshot(&game), before);
}

#[test]
fn a_move_on_an_occupied_square_is_rejected_and_changes_nothing() {
    let mut game = game_with_moves(&[((1, 1), (1, 1))]);
    let before = snapshot(&game);

    let result = game.play_move(&fc((1, 1), (1, 1)));

    assert_eq!(result, Err(GameError::SquareOccupied));
    assert_eq!(snapshot(&game), before);
}

#[test]
fn a_move_outside_the_active_outer_square_is_rejected_and_changes_nothing() {
    let mut game = game_with_moves(&[((0, 0), (1, 1))]);
    let before = snapshot(&game);

    let result = game.play_move(&fc((0, 0), (2, 2)));

    assert_eq!(result, Err(GameError::OutsideActiveSquare));
    assert_eq!(snapshot(&game), before);
}

#[test]
fn move_count_equals_empty_cells_of_the_active_square() {
    // After these two moves the active square is (0,0), which holds one
    // piece, so 8 of its 9 cells are playable.
    let game = game_with_moves(&[((0, 0), (1, 1)), ((1, 1), (0, 0))]);

    assert_eq!(game.active_outer_square(), Some(Coord::try_new(0, 0).unwrap()));
    let moves = game.get_moves();
    assert_eq!(moves.len(), 8);
    for m in moves {
        assert_eq!(m.outer(), Coord::try_new(0, 0).unwrap());
        assert_eq!(game.get_square(&m), Square::Empty);
    }
}

fn grid(values: [char; 9]) -> [Square; 9] {
    // values are given row by row (y = 0, 1, 2), cell (x, y) at index x*3+y
    let mut cells = [Square::Empty; 9];
    for y in 0..3 {
        for x in 0..3 {
            cells[x * 3 + y] = match values[y * 3 + x] {
                'X' => Square::Filled(Piece::X),
                'O' => Square::Filled(Piece::O),
                _ => Square::Empty,
            };
        }
    }
    cells
}

#[test]
fn check_result_finds_a_row_win() {
    let cells = grid([
        ' ', ' ', ' ', //
        'O', 'O', 'O', //
        'X', 'X', ' ', //
    ]);
    assert_eq!(check_result(&cells), Some(GameOverResult::Winner(Piece::O)));
}

#[test]
fn check_result_finds_a_column_win() {
    let cells = grid([
        'X', 'O', ' ', //
        'X', 'O', ' ', //
        'X', ' ', ' ', //
    ]);
    assert_eq!(check_result(&cells), Some(GameOverResult::Winner(Piece::X)));
}

#[test]
fn check_result_finds_both_diagonal_wins() {
    let main_diagonal = grid([
        'X', ' ', 'O', //
        ' ', 'X', 'O', //
        ' ', ' ', 'X', //
    ]);
    assert_eq!(check_result(&main_diagonal), Some(GameOverResult::Winner(Piece::X)));

    let anti_diagonal = grid([
        'X', 'X', 'O', //
        ' ', 'O', ' ', //
        'O', ' ', 'X', //
    ]);
    assert_eq!(check_result(&anti_diagonal), Some(GameOverResult::Winner(Piece::O)));
}

#[test]
fn check_result_reports_a_full_grid_with_no_line_as_a_draw() {
    let cells = grid([
        'X', 'O', 'X', //
        'O', 'O', 'X', //
        'X', 'X', 'O', //
    ]);
    assert_eq!(check_result(&cells), Some(GameOverResult::Draw));
}

#[test]
fn check_result_reports_an_undecided_grid_as_nothing() {
    let cells = grid([
        'X', 'O', 'X', //
        'O', ' ', 'X', //
        'X', 'X', 'O', //
    ]);
    assert_eq!(check_result(&cells), None);
}

#[test]
fn check_result_treats_drawn_outer_squares_as_filled_but_pieceless() {
    // A full outer board whose cells are all complete, but the only lines
    // of equal content are drawn squares: the game is a draw, not a win.
    let w = OuterSquare::Complete(GameOverResult::Winner(Piece::X));
    let l = OuterSquare::Complete(GameOverResult::Winner(Piece::O));
    let d = OuterSquare::Complete(GameOverResult::Draw);
    // cell (x, y) at index x*3+y; column x = 1 is three draws
    let cells = [w, l, w, d, d, d, l, w, l];
    assert_eq!(check_result(&cells), Some(GameOverResult::Draw));
}

#[test]
fn filling_an_outer_square_with_no_line_completes_it_as_a_draw() {
    // Fills outer square (1,1) completely, with no three-in-a-line for
    // either piece, by ping-ponging both players through the other outer
    // squares' center cells. The final cell pattern in (1,1) is
    //   X O X
    //   O O X   (cell (x, y); X at (0,0),(2,0),(0,2),(1,2),(2,1))
    //   X X O
    let game = game_with_moves(&[
        ((1, 1), (0, 0)), // X fills (0,0) of the target
        ((0, 0), (2, 1)),
        ((2, 1), (1, 1)),
        ((1, 1), (1, 0)), // O fills (1,0)
        ((1, 0), (0, 0)),
        ((0, 0), (1, 1)),
        ((1, 1), (2, 0)), // X fills (2,0)
        ((2, 0), (1, 0)),
        ((1, 0), (1, 1)),
        ((1, 1), (0, 1)), // O fills (0,1)
        ((0, 1), (2, 0)),
        ((2, 0), (1, 1)),
        ((1, 1), (0, 2)), // X fills (0,2)
        ((0, 2), (0, 1)),
        ((0, 1), (1, 1)),
        ((1, 1), (1, 1)), // O fills the center; play stays in the target
        ((1, 1), (1, 2)), // X fills (1,2)
        ((1, 2), (0, 2)),
        ((0, 2), (1, 1)),
        ((1, 1), (2, 2)), // O fills (2,2)
        ((2, 2), (1, 2)),
        ((1, 2), (1, 1)),
        ((1, 1), (2, 1)), // X fills the last cell: a draw, no line
    ]);

    assert_eq!(
        game.get_outer_square(&Coord::try_new(1, 1).unwrap()),
        OuterSquare::Complete(GameOverResult::Draw)
    );
    assert_eq!(game.state(), GameState::InProgress);
    assert_eq!(game.active_outer_square(), Some(Coord::try_new(2, 1).unwrap()));
}

#[test]
fn every_listed_move_is_accepted() {
    let position = [
        ((0, 0), (1, 1)),
        ((1, 1), (0, 0)),
        ((0, 0), (2, 0)),
        ((2, 0), (0, 0)),
        ((0, 0), (0, 2)), // X completes (0,0); the constraint moves on
        ((0, 2), (0, 0)), // target (0,0) is complete: no constraint
    ];
    let game = game_with_moves(&position);
    assert_eq!(game.active_outer_square(), None);

    for m in game.get_moves() {
        let mut replay = game_with_moves(&position);
        assert_eq!(replay.play_move(&m), Ok(()));
    }
}
