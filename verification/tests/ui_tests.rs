use ultimate_tic_tac_toe::{cursor_coord, move_cursor, Direction, FullCoord, Game, Style};

fn fc(outer: (usize, usize), inner: (usize, usize)) -> FullCoord {
    FullCoord::try_new(outer, inner).unwrap()
}

#[test]
fn the_cursor_maps_to_outer_and_inner_coordinates() {
    let coord = cursor_coord((4, 7));
    assert_eq!(coord.outer_x(), 1);
    assert_eq!(coord.outer_y(), 2);
    assert_eq!(coord.inner_x(), 1);
    assert_eq!(coord.inner_y(), 1);
}

#[test]
fn the_cursor_moves_one_cell_on_an_open_board() {
    let game = Game::new();
    let mut cursor: (u16, u16) = (0, 0);

    move_cursor(&game, &mut cursor, Direction::Right);
    assert_eq!(cursor, (1, 0));

    move_cursor(&game, &mut cursor, Direction::Down);
    assert_eq!(cursor, (1, 1));
}

#[test]
fn the_cursor_wraps_around_the_grid() {
    let game = Game::new();
    let mut cursor: (u16, u16) = (0, 0);

    move_cursor(&game, &mut cursor, Direction::Up);
    assert_eq!(cursor, (0, 8));

    let mut cursor: (u16, u16) = (8, 3);
    move_cursor(&game, &mut cursor, Direction::Right);
    assert_eq!(cursor, (0, 3));
}

#[test]
fn the_cursor_skips_occupied_cells_and_foreign_outer_squares() {
    let mut game = Game::new();
    // X takes the top-left cell of outer square (0,0); the active outer
    // square becomes (0,0) itself.
    game.play_move(&fc((0, 0), (0, 0))).unwrap();

    // Moving left from (1,0) must skip the occupied (0,0) and all cells
    // outside the active outer square, landing on (2,0).
    let mut cursor: (u16, u16) = (1, 0);
    move_cursor(&game, &mut cursor, Direction::Left);
    assert_eq!(cursor, (2, 0));
}

#[test]
fn the_cursor_stays_put_when_no_cell_in_that_direction_is_playable() {
    let mut game = Game::new();
    // The active outer square becomes (1,1): only cursor cells 3..6 on
    // each axis are playable.
    game.play_move(&fc((0, 0), (1, 1))).unwrap();

    // Along row 0 no cell lies in outer square (1,1), so a full cycle
    // brings the cursor back to where it began.
    let mut cursor: (u16, u16) = (0, 0);
    move_cursor(&game, &mut cursor, Direction::Right);
    assert_eq!(cursor, (0, 0));
}

#[test]
fn a_style_starts_neutral_and_keeps_what_is_set() {
    let style: Style<u8> = Style::new();
    assert_eq!(style.fg_or(7), 7);
    assert_eq!(style.bg_or(2), 2);
    assert!(!style.clear_fg);
    assert!(!style.clear_bg);

    let style = style.fg(1).bg(4);
    assert_eq!(style.fg_or(7), 1);
    assert_eq!(style.bg_or(2), 4);

    let cleared = style.clone().clear_bg();
    assert!(cleared.clear_bg);
    assert!(!cleared.clear_fg);
    assert_eq!(cleared.fg_or(7), 1);

    let cleared = style.clear_fg();
    assert!(cleared.clear_fg);
    assert_eq!(cleared.bg_or(2), 4);
}
