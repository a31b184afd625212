use checkers::board::{get_board_value, setup_fg_board, Board};
use checkers::coord::{parse_board_pos, parse_move, ParseError};
use checkers::moves::{move_piece, MoveError};
use checkers::render::{cell_text, color, row_label, square_bg, BgColor, FgColor};
use checkers::win::check_win;

fn all_valid(b: &Board) -> bool {
    b.iter().all(|row| row.iter().all(|v| (0..=4).contains(v)))
}

#[test]
fn initial_layout() {
    let b = setup_fg_board();
    let mut expected: Board = [[0; 8]; 8];
    expected[0][0] = 1;
    expected[0][2] = 1;
    expected[0][4] = 1;
    expected[0][6] = 1;
    expected[7][7] = 4;
    assert_eq!(b, expected);
    assert!(all_valid(&b));
}

#[test]
fn parse_every_valid_token() {
    for (i, l) in "ABCDEFGH".chars().enumerate() {
        for (j, d) in "12345678".chars().enumerate() {
            let t: String = [l, d].iter().collect();
            assert_eq!(parse_board_pos(&t), Ok((i as i8, j as i8)));
        }
    }
}

#[test]
fn parse_examples() {
    assert_eq!(parse_board_pos("A1"), Ok((0, 0)));
    assert_eq!(parse_board_pos("B2"), Ok((1, 1)));
    assert_eq!(parse_board_pos("H8"), Ok((7, 7)));
    assert_eq!(parse_board_pos("D5"), Ok((3, 4)));
}

#[test]
fn parse_rejects_bad_tokens() {
    for t in ["A0", "A9", "I1", "Z5", "11", "AA", "a1", "", "A", "A10", "A1 ", "B-", "B+"] {
        assert_eq!(parse_board_pos(t), Err(ParseError::InvalidCoordinate), "{t}");
    }
}

#[test]
fn scenario_a_first_move() {
    let mut b = setup_fg_board();
    assert_eq!(move_piece(&mut b, &(0, 0), &(1, 1), &1), Ok(()));
    assert_eq!(b[0][0], 0);
    assert_eq!(b[1][1], 1);
    assert!(all_valid(&b));
}

#[test]
fn scenario_b_null_move() {
    let mut b = setup_fg_board();
    let before = b;
    assert_eq!(move_piece(&mut b, &(0, 0), &(0, 0), &1), Err(MoveError::InvalidMovement));
    assert_eq!(b, before);
}

#[test]
fn scenario_c_king_in_corner() {
    let mut b = setup_fg_board();
    assert_eq!(check_win(&b), None);
    b[6][6] = 1;
    assert_eq!(check_win(&b), Some(1));
}

#[test]
fn scenario_d_king_reaches_home_rows() {
    let mut b = setup_fg_board();
    b[1][3] = 4;
    assert_eq!(check_win(&b), Some(2));
}

#[test]
fn scenario_e_empty_source() {
    let mut b = setup_fg_board();
    let before = b;
    assert_eq!(move_piece(&mut b, &(3, 3), &(4, 4), &1), Err(MoveError::NotYourPiece));
    assert_eq!(b, before);
}

#[test]
fn opponent_piece_is_not_yours() {
    let mut b = setup_fg_board();
    let before = b;
    assert_eq!(move_piece(&mut b, &(7, 7), &(6, 6), &1), Err(MoveError::NotYourPiece));
    assert_eq!(move_piece(&mut b, &(0, 0), &(1, 1), &2), Err(MoveError::NotYourPiece));
    assert_eq!(b, before);
}

#[test]
fn straight_moves_fail() {
    let mut b = setup_fg_board();
    let before = b;
    assert_eq!(move_piece(&mut b, &(0, 0), &(1, 0), &1), Err(MoveError::InvalidMovement));
    assert_eq!(move_piece(&mut b, &(0, 2), &(0, 3), &1), Err(MoveError::InvalidMovement));
    assert_eq!(move_piece(&mut b, &(7, 7), &(6, 7), &2), Err(MoveError::InvalidMovement));
    assert_eq!(move_piece(&mut b, &(7, 7), &(7, 6), &2), Err(MoveError::InvalidMovement));
    assert_eq!(b, before);
}

#[test]
fn regular_pieces_move_forward_only() {
    let mut b: Board = [[0; 8]; 8];
    b[3][3] = 1;
    b[4][5] = 2;
    let before = b;
    assert_eq!(move_piece(&mut b, &(3, 3), &(2, 2), &1), Err(MoveError::InvalidMovement));
    assert_eq!(move_piece(&mut b, &(3, 3), &(2, 4), &1), Err(MoveError::InvalidMovement));
    assert_eq!(move_piece(&mut b, &(4, 5), &(5, 4), &2), Err(MoveError::InvalidMovement));
    assert_eq!(move_piece(&mut b, &(4, 5), &(5, 6), &2), Err(MoveError::InvalidMovement));
    assert_eq!(b, before);
    assert_eq!(move_piece(&mut b, &(4, 5), &(3, 4), &2), Ok(()));
    assert_eq!(b[3][4], 2);
    assert_eq!(b[4][5], 0);
}

#[test]
fn kings_move_both_ways() {
    let mut b: Board = [[0; 8]; 8];
    b[3][3] = 3;
    b[5][5] = 4;
    assert_eq!(move_piece(&mut b, &(3, 3), &(2, 2), &1), Ok(()));
    assert_eq!(move_piece(&mut b, &(2, 2), &(3, 3), &1), Ok(()));
    assert_eq!(move_piece(&mut b, &(5, 5), &(6, 4), &2), Ok(()));
    assert_eq!(move_piece(&mut b, &(6, 4), &(5, 5), &2), Ok(()));
    assert_eq!(b[3][3], 3);
    assert_eq!(b[5][5], 4);
    assert_eq!(b.iter().flatten().filter(|v| **v != 0).count(), 2);
}

#[test]
fn occupied_destination_fails() {
    let mut b: Board = [[0; 8]; 8];
    b[2][2] = 1;
    b[3][3] = 1;
    b[3][1] = 2;
    b[5][5] = 4;
    b[6][6] = 3;
    let before = b;
    assert_eq!(move_piece(&mut b, &(2, 2), &(3, 3), &1), Err(MoveError::InvalidMovement));
    assert_eq!(move_piece(&mut b, &(2, 2), &(3, 1), &1), Err(MoveError::InvalidMovement));
    assert_eq!(move_piece(&mut b, &(5, 5), &(6, 6), &2), Err(MoveError::InvalidMovement));
    assert_eq!(b, before);
}

#[test]
fn moves_longer_than_one_step_fail() {
    let mut b = setup_fg_board();
    let before = b;
    assert_eq!(move_piece(&mut b, &(0, 0), &(2, 2), &1), Err(MoveError::InvalidMovement));
    assert_eq!(move_piece(&mut b, &(7, 7), &(5, 5), &2), Err(MoveError::InvalidMovement));
    assert_eq!(b, before);
}

#[test]
fn no_promotion_on_last_row() {
    let mut b: Board = [[0; 8]; 8];
    b[6][2] = 1;
    assert_eq!(move_piece(&mut b, &(6, 2), &(7, 3), &1), Ok(()));
    assert_eq!(b[7][3], 1);
}

#[test]
fn king_in_open_field_is_no_win() {
    let mut b: Board = [[0; 8]; 8];
    b[4][4] = 4;
    assert_eq!(check_win(&b), None);
    b[3][3] = 1;
    b[3][5] = 2;
    b[5][5] = 3;
    assert_eq!(check_win(&b), None);
    b[5][3] = 1;
    assert_eq!(check_win(&b), Some(1));
}

#[test]
fn surrounded_king_in_home_rows_gives_player_two() {
    let mut b: Board = [[0; 8]; 8];
    b[0][4] = 4;
    b[1][3] = 1;
    b[1][5] = 1;
    assert_eq!(check_win(&b), Some(2));
    b[1][5] = 0;
    assert_eq!(check_win(&b), Some(2));
    let mut c: Board = [[0; 8]; 8];
    c[0][0] = 4;
    assert_eq!(check_win(&c), Some(2));
    c[1][1] = 1;
    assert_eq!(check_win(&c), Some(2));
}

#[test]
fn scenario_d_surrounded_on_fresh_board() {
    let mut b = setup_fg_board();
    b[1][3] = 4;
    b[2][2] = 1;
    b[2][4] = 2;
    assert_eq!(check_win(&b), Some(2));
}

#[test]
fn home_king_wins_over_surrounded_king() {
    let mut b: Board = [[0; 8]; 8];
    b[1][6] = 4;
    b[7][0] = 4;
    b[6][1] = 1;
    assert_eq!(check_win(&b), Some(2));
}

#[test]
fn first_king_in_scan_order_decides() {
    let mut b: Board = [[0; 8]; 8];
    b[1][6] = 4;
    b[7][7] = 4;
    b[6][6] = 1;
    assert_eq!(check_win(&b), Some(2));
}

#[test]
fn player_one_king_never_wins() {
    let mut b: Board = [[0; 8]; 8];
    b[7][0] = 3;
    b[6][1] = 2;
    assert_eq!(check_win(&b), None);
}

#[test]
fn neighbour_lookup() {
    let b = setup_fg_board();
    assert_eq!(get_board_value(&b, 0, 0), 1);
    assert_eq!(get_board_value(&b, 7, 7), 4);
    assert_eq!(get_board_value(&b, 0, 1), 0);
    assert_eq!(get_board_value(&b, -1, 0), 5);
    assert_eq!(get_board_value(&b, 0, -1), 5);
    assert_eq!(get_board_value(&b, 8, 3), 5);
    assert_eq!(get_board_value(&b, 3, 8), 5);
}

#[test]
fn error_messages() {
    assert_eq!(MoveError::NotYourPiece.message(), "Not your piece");
    assert_eq!(MoveError::InvalidMovement.message(), "Invalid Movement");
    assert_eq!(ParseError::InvalidCoordinate.message(), "Invalid Input");
}

#[test]
fn color_escapes() {
    assert_eq!(color(FgColor::Red, BgColor::Black), "\x1B[32;40m");
    assert_eq!(color(FgColor::Grey, BgColor::White), "\x1B[34;47m");
    assert_eq!(color(FgColor::Plain, BgColor::White), "\x1B[0;47m");
}

#[test]
fn board_drawing() {
    assert_eq!(square_bg(0, 0), BgColor::White);
    assert_eq!(square_bg(0, 1), BgColor::Black);
    assert_eq!(square_bg(1, 1), BgColor::White);
    assert_eq!(square_bg(1, 0), BgColor::Black);
    let mut b = setup_fg_board();
    b[3][3] = 3;
    b[2][1] = 2;
    assert_eq!(cell_text(&b, 0, 0), " \x1B[32;47m\u{273F}");
    assert_eq!(cell_text(&b, 0, 1), " \x1B[0;40m ");
    assert_eq!(cell_text(&b, 7, 7), " \x1B[34;47m\u{2742}");
    assert_eq!(cell_text(&b, 3, 3), " \x1B[32;47m\u{2742}");
    assert_eq!(cell_text(&b, 2, 1), " \x1B[34;40m\u{273F}");
    assert_eq!(row_label(0), 'A');
    assert_eq!(row_label(7), 'H');
}

#[test]
fn parse_move_text() {
    assert_eq!(parse_move("A1B2"), Ok(((0, 0), (1, 1))));
    assert_eq!(parse_move("H8G7"), Ok(((7, 7), (6, 6))));
    for t in ["", "A", "A1", "A1B", "A1B2C", "A9B2", "A1B0", "I1B2", "A1 B2"] {
        assert_eq!(parse_move(t), Err(ParseError::InvalidCoordinate), "{t}");
    }
}
