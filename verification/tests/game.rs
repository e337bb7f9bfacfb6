use tictactoe::game::{Game, GameState};
use tictactoe::grid::GridValue;

fn fill(game: &mut Game, cells: &[usize], value: GridValue) {
    for &i in cells {
        game.grid.set(i, value);
    }
}

#[test]
fn empty_board_has_no_winner() {
    let game = Game::new();
    assert_eq!(game.get_winner(), None);
}

#[test]
fn board_with_no_uniform_line_has_no_winner() {
    let mut game = Game::new();
    // X at 0, 2, 3, 7, 8 and O at 1, 4, 5, 6: a full board, no line.
    fill(&mut game, &[0, 2, 3, 7, 8], GridValue::X);
    fill(&mut game, &[1, 4, 5, 6], GridValue::O);
    assert_eq!(game.get_winner(), None);
}

#[test]
fn each_row_win_is_reported() {
    for row in 0..3 {
        let mut game = Game::new();
        let base = row * 3;
        fill(&mut game, &[base, base + 1, base + 2], GridValue::O);
        assert_eq!(game.get_winner(), Some(GridValue::O));
    }
}

#[test]
fn each_column_win_is_reported() {
    for column in 0..3 {
        let mut game = Game::new();
        fill(&mut game, &[column, column + 3, column + 6], GridValue::X);
        assert_eq!(game.get_winner(), Some(GridValue::X));
    }
}

#[test]
fn first_diagonal_win_is_reported() {
    let mut game = Game::new();
    fill(&mut game, &[0, 4, 8], GridValue::O);
    assert_eq!(game.get_winner(), Some(GridValue::O));
}

#[test]
fn second_diagonal_win_is_reported() {
    let mut game = Game::new();
    fill(&mut game, &[2, 4, 6], GridValue::X);
    assert_eq!(game.get_winner(), Some(GridValue::X));
}

#[test]
fn new_game_starts_with_x_and_an_open_board() {
    let game = Game::new();
    assert_eq!(game.current_player, GridValue::X);
    assert_eq!(game.get_game_state(), GameState::Playing);
}

#[test]
fn game_state_reflects_win_tie_and_play() {
    let mut game = Game::new();
    assert_eq!(game.get_game_state(), GameState::Playing);
    fill(&mut game, &[6, 7, 8], GridValue::O);
    assert_eq!(game.get_game_state(), GameState::Win(GridValue::O));
}

#[test]
fn alternating_moves_complete_a_row_for_the_first_player() {
    let mut game = Game::new();
    assert_eq!(game.submit_move(0), Some(GameState::Playing));
    assert_eq!(game.submit_move(3), Some(GameState::Playing));
    assert_eq!(game.submit_move(1), Some(GameState::Playing));
    assert_eq!(game.submit_move(4), Some(GameState::Playing));
    assert_eq!(game.submit_move(2), Some(GameState::Win(GridValue::X)));
    assert_eq!(game.get_game_state(), GameState::Win(GridValue::X));
}

#[test]
fn a_full_board_with_no_line_is_a_tie() {
    let mut game = Game::new();
    let moves = [0, 1, 2, 4, 3, 5, 7, 6, 8];
    for (n, &cell) in moves.iter().enumerate() {
        let state = game.submit_move(cell).expect("every move lands on a free cell");
        if n < moves.len() - 1 {
            assert_eq!(state, GameState::Playing);
        } else {
            assert_eq!(state, GameState::Tie);
        }
    }
}

#[test]
fn occupied_and_out_of_range_requests_change_nothing() {
    let mut game = Game::new();
    assert_eq!(game.submit_move(4), Some(GameState::Playing));
    assert_eq!(game.current_player, GridValue::O);

    assert_eq!(game.submit_move(4), None);
    assert_eq!(game.submit_move(9), None);

    assert_eq!(game.current_player, GridValue::O);
    assert_eq!(game.grid.get(4), GridValue::X);
    for i in 0..9 {
        if i != 4 {
            assert_eq!(game.grid.get(i), GridValue::Empty);
        }
    }
}

#[test]
fn the_player_alternates_and_reverts_after_two_moves() {
    let mut game = Game::new();
    assert_eq!(game.current_player, GridValue::X);
    assert_eq!(game.submit_move(0), Some(GameState::Playing));
    assert_eq!(game.current_player, GridValue::O);
    assert_eq!(game.submit_move(8), Some(GameState::Playing));
    assert_eq!(game.current_player, GridValue::X);
}
