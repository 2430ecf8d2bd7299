use ultimate_tic_tac_toe::{
    data_to_game, game_to_data, Coord, FullCoord, Game, GameData, GameError, GameOverResult,
    GameState, OuterSquare, Piece, Square,
};

fn fc(outer: (usize, usize), inner: (usize, usize)) -> FullCoord {
    FullCoord::try_new(outer, inner).unwrap()
}

fn game_with_moves(moves: &[((usize, usize), (usize, usize))]) -> Game {
    let mut game = Game::new();
    for (outer, inner) in moves {
        game.play_move(&fc(*outer, *inner)).unwrap();
    }
    game
}

fn assert_same_game(a: &Game, b: &Game) {
    assert_eq!(a.state(), b.state());
    assert_eq!(a.turn(), b.turn());
    assert_eq!(a.active_outer_square(), b.active_outer_square());
    for x in 0..3 {
        for y in 0..3 {
            let c = Coord::try_new(x, y).unwrap();
            assert_eq!(a.get_outer_square(&c), b.get_outer_square(&c));
            for ix in 0..3 {
                for iy in 0..3 {
                    let full = fc((x, y), (ix, iy));
                    assert_eq!(a.get_square(&full), b.get_square(&full));
                }
            }
        }
    }
}

#[test]
fn a_fresh_game_encodes_to_the_empty_transport_value() {
    let game = Game::new();
    let data = game_to_data(&game);

    assert_eq!(data.cells.len(), 81);
    assert!(data.cells.iter().all(|c| c.is_none()));
    assert_eq!(data.completed.len(), 9);
    assert!(data.completed.iter().all(|c| c.is_none()));
    assert_eq!(data.turn, Piece::X);
    assert_eq!(data.status, "in-progress");
    assert_eq!(data.active, None);
}

#[test]
fn encoding_and_decoding_a_fresh_game_round_trips() {
    let game = Game::new();
    let back = data_to_game(&game_to_data(&game)).unwrap();
    assert_same_game(&game, &back);
}

#[test]
fn encoding_and_decoding_a_played_game_round_trips() {
    // A position with a completed outer square, an active constraint and
    // pieces of both players on the board.
    let game = game_with_moves(&[
        ((0, 0), (1, 1)),
        ((1, 1), (0, 0)),
        ((0, 0), (2, 0)),
        ((2, 0), (0, 0)),
        ((0, 0), (0, 2)), // X completes outer square (0,0)
        ((0, 2), (1, 0)),
    ]);
    assert_eq!(
        game.get_outer_square(&Coord::try_new(0, 0).unwrap()),
        OuterSquare::Complete(GameOverResult::Winner(Piece::X))
    );

    let data = game_to_data(&game);
    assert_eq!(data.completed[0], Some(GameOverResult::Winner(Piece::X)));
    assert_eq!(data.active, Some((1, 0)));

    let back = data_to_game(&data).unwrap();
    assert_same_game(&game, &back);
}

#[test]
fn an_unrecognized_status_string_decodes_to_in_progress() {
    let mut data = game_to_data(&Game::new());
    data.status = "finished-with-honors".to_string();
    let game = data_to_game(&data).unwrap();
    assert_eq!(game.state(), GameState::InProgress);
}

#[test]
fn each_status_string_decodes_to_its_state() {
    let mut data = game_to_data(&Game::new());

    data.status = "draw".to_string();
    assert_eq!(data_to_game(&data).unwrap().state(), GameState::GameOver(GameOverResult::Draw));

    data.status = "x-wins".to_string();
    assert_eq!(
        data_to_game(&data).unwrap().state(),
        GameState::GameOver(GameOverResult::Winner(Piece::X))
    );

    data.status = "o-wins".to_string();
    assert_eq!(
        data_to_game(&data).unwrap().state(),
        GameState::GameOver(GameOverResult::Winner(Piece::O))
    );

    data.status = "in-progress".to_string();
    assert_eq!(data_to_game(&data).unwrap().state(), GameState::InProgress);
}

#[test]
fn a_transport_value_of_the_wrong_shape_is_rejected() {
    let mut data = game_to_data(&Game::new());
    data.cells.pop();
    assert_eq!(data_to_game(&data).err(), Some(GameError::OutOfBounds));

    let mut data = game_to_data(&Game::new());
    data.completed.push(None);
    assert_eq!(data_to_game(&data).err(), Some(GameError::OutOfBounds));

    let mut data = game_to_data(&Game::new());
    data.active = Some((3, 0));
    assert_eq!(data_to_game(&data).err(), Some(GameError::OutOfBounds));
}

#[test]
fn decoding_maps_cells_and_completion_tags_back_to_the_board() {
    let data = GameData {
        cells: {
            let mut cells: Vec<Option<Piece>> = vec![None; 81];
            cells[0] = Some(Piece::X); // outer (0,0), inner (0,0)
            cells[80] = Some(Piece::O); // outer (2,2), inner (2,2)
            cells
        },
        completed: {
            let mut completed: Vec<Option<GameOverResult>> = vec![None; 9];
            completed[4] = Some(GameOverResult::Draw); // outer (1,1)
            completed
        },
        turn: Piece::O,
        status: "in-progress".to_string(),
        active: Some((2, 1)),
    };

    let game = data_to_game(&data).unwrap();
    assert_eq!(game.get_square(&fc((0, 0), (0, 0))), Square::Filled(Piece::X));
    assert_eq!(game.get_square(&fc((2, 2), (2, 2))), Square::Filled(Piece::O));
    assert_eq!(game.get_square(&fc((1, 0), (0, 1))), Square::Empty);
    assert_eq!(
        game.get_outer_square(&Coord::try_new(1, 1).unwrap()),
        OuterSquare::Complete(GameOverResult::Draw)
    );
    assert_eq!(game.turn(), Piece::O);
    assert_eq!(game.active_outer_square(), Some(Coord::try_new(2, 1).unwrap()));
}
