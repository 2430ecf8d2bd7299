//! Rules engine for Ultimate Tic-Tac-Toe: a two-level game of 9 outer
//! squares, each an inner 3x3 grid, where the inner cell just played
//! determines which outer square the opponent must play in next.
//!
//! The engine is a pure state machine: [`Game`] holds the board, the turn,
//! the overall status and the active-outer-square constraint; `play_move`
//! is the only mutator, and `get_moves` enumerates the legal moves.

mod coords;
mod cursor;
mod evaluate;
mod game;
mod laws;
mod squares;
mod style;
mod transport;

pub use coords::{Coord, FullCoord, GameError, SIZE};
pub use cursor::{cursor_coord, cursor_iter, cursor_step, move_cursor, selectable};
pub use cursor::{spec_cursor_coord, Direction};
pub use evaluate::{all_filled, check_result, first_winner, grid_result, has_line};
pub use evaluate::{lemma_filled_no_line_draw, lemma_line_gives_winner};
pub use game::{all_moves_upto, cell_index, coord_index, inner_grid, inner_moves, inner_moves_upto};
pub use game::{init_model, spec_apply_move, spec_moves, spec_play_move, Game, GameModel};
pub use laws::{count_empty, count_empty_upto, lemma_active_square_limits_moves};
pub use laws::{lemma_filled_completes_as_draw, lemma_fresh_game, lemma_inner_moves};
pub use laws::{lemma_line_completes_as_win, lemma_listed_moves_are_accepted};
pub use laws::{lemma_move_completes_square, lemma_move_flips_turn, lemma_move_places_piece};
pub use laws::{lemma_move_sets_active_square, lemma_moves_skip_completed, lemma_rejections};
pub use squares::{FilledSquare, GameOverResult, GameState, OuterSquare, Piece, Square};
pub use style::Style;
pub use transport::{completion_of, data_to_game, game_to_data, outer_of, parse_status, piece_of};
pub use transport::{lemma_transport_round_trip, spec_decode, spec_encode, square_of, status_text};
pub use transport::{DataModel, GameData};
