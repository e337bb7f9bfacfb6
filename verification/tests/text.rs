use tictactoe::draw::GridDraw;
use tictactoe::game::Game;
use tictactoe::grid::GridValue;
use tictactoe::input::parse_move_request;
use tictactoe::uptime::{convert_seconds, dec_string};

#[test]
fn draw_line_shows_symbols_and_blanks() {
    let mut game = Game::new();
    game.grid.set(0, GridValue::X);
    game.grid.set(2, GridValue::O);
    assert_eq!(GridDraw::draw_line(&game.grid, 0), "│ X │   │ O │");
    assert_eq!(GridDraw::draw_line(&game.grid, 1), "│   │   │   │");
}

#[test]
fn draw_line_renders_a_full_row() {
    let mut game = Game::new();
    game.grid.set(3, GridValue::O);
    game.grid.set(4, GridValue::O);
    game.grid.set(5, GridValue::X);
    assert_eq!(GridDraw::draw_line(&game.grid, 1), "│ O │ O │ X │");
}

#[test]
fn parse_accepts_the_nine_cell_numbers() {
    for n in 1..=9usize {
        let text = n.to_string();
        assert_eq!(parse_move_request(&text), Some(n - 1));
    }
}

#[test]
fn parse_accepts_a_leading_plus_and_leading_zeros() {
    assert_eq!(parse_move_request("+5"), Some(4));
    assert_eq!(parse_move_request("007"), Some(6));
}

#[test]
fn parse_rejects_out_of_range_numbers() {
    assert_eq!(parse_move_request("0"), None);
    assert_eq!(parse_move_request("10"), None);
    assert_eq!(parse_move_request("99999999999999999999999"), None);
}

#[test]
fn parse_rejects_text_that_is_not_a_number() {
    assert_eq!(parse_move_request(""), None);
    assert_eq!(parse_move_request("+"), None);
    assert_eq!(parse_move_request("abc"), None);
    assert_eq!(parse_move_request("4a"), None);
    assert_eq!(parse_move_request("-3"), None);
    assert_eq!(parse_move_request(" 5"), None);
}

#[test]
fn numbers_are_written_in_decimal() {
    assert_eq!(dec_string(0), "0");
    assert_eq!(dec_string(7), "7");
    assert_eq!(dec_string(42), "42");
    assert_eq!(dec_string(86400), "86400");
    assert_eq!(dec_string(u64::MAX), "18446744073709551615");
}

#[test]
fn an_uptime_lists_days_hours_and_minutes() {
    assert_eq!(convert_seconds(&90060), "1 day, 1 hour, 1 minute");
    assert_eq!(convert_seconds(&(2 * 86400 + 3 * 3600 + 4 * 60)), "2 days, 3 hours, 4 minutes");
}

#[test]
fn zero_components_are_skipped() {
    assert_eq!(convert_seconds(&60), "1 minute");
    assert_eq!(convert_seconds(&120), "2 minutes");
    assert_eq!(convert_seconds(&3600), "1 hour");
    assert_eq!(convert_seconds(&7200), "2 hours");
    assert_eq!(convert_seconds(&86400), "1 day");
    assert_eq!(convert_seconds(&86460), "1 day, 1 minute");
    assert_eq!(convert_seconds(&(3600 + 60)), "1 hour, 1 minute");
}

#[test]
fn seconds_below_a_minute_are_ignored() {
    assert_eq!(convert_seconds(&119), "1 minute");
    assert_eq!(convert_seconds(&90119), "1 day, 1 hour, 1 minute");
}
