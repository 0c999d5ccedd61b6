//! The board codec and the five-in-a-row scan.

use multi_gomoku::board::{check_boundary, state_index, Color, BOARD_LEN};
use multi_gomoku::win::{check_five, count_stone, has_five_in_a_row};

fn board_with(stones: &[(u8, u8, u8)]) -> Vec<u8> {
    let mut board = vec![0u8; BOARD_LEN];
    for (x, y, color) in stones {
        board[state_index(*x, *y)] = *color;
    }
    board
}

fn line(x: u8, y: u8, dx: i8, dy: i8, n: u8, color: u8) -> Vec<(u8, u8, u8)> {
    (0..n)
        .map(|k| {
            (
                (x as i16 + dx as i16 * k as i16) as u8,
                (y as i16 + dy as i16 * k as i16) as u8,
                color,
            )
        })
        .collect()
}

#[test]
fn boundary_is_fifteen_by_fifteen() {
    assert!(check_boundary(0, 0));
    assert!(check_boundary(14, 14));
    assert!(check_boundary(3, 12));
    assert!(!check_boundary(15, 0));
    assert!(!check_boundary(0, 15));
    assert!(!check_boundary(15, 15));
    assert!(!check_boundary(255, 255));
}

#[test]
fn index_is_row_major_after_three_header_bytes() {
    assert_eq!(state_index(0, 0), 3);
    assert_eq!(state_index(0, 1), 4);
    assert_eq!(state_index(1, 0), 18);
    assert_eq!(state_index(3, 12), 60);
    assert_eq!(state_index(14, 14), 227);
}

#[test]
fn colors_map_to_their_bytes() {
    assert_eq!(Color::Black.to_byte(), 1);
    assert_eq!(Color::White.to_byte(), 2);
    assert_eq!(Color::from_byte(1), Some(Color::Black));
    assert_eq!(Color::from_byte(2), Some(Color::White));
    assert_eq!(Color::from_byte(0), None);
    assert_eq!(Color::from_byte(3), None);
    assert_eq!(Color::Black.opponent(), Color::White);
    assert_eq!(Color::White.opponent(), Color::Black);
}

#[test]
fn count_stops_at_the_first_other_cell() {
    let board = board_with(&line(7, 3, 0, 1, 3, 1));
    assert_eq!(count_stone(&board, 7, 3, 0, 1), 3);
    assert_eq!(count_stone(&board, 7, 3, 0, -1), 1);
    assert_eq!(count_stone(&board, 7, 5, 0, -1), 3);
    assert_eq!(count_stone(&board, 7, 4, 0, 1), 2);
    assert_eq!(count_stone(&board, 7, 4, 0, -1), 2);
    assert_eq!(count_stone(&board, 7, 4, 1, 0), 1);
}

#[test]
fn count_is_capped_at_five() {
    let board = board_with(&line(2, 0, 0, 1, 9, 2));
    assert_eq!(count_stone(&board, 2, 0, 0, 1), 5);
    assert_eq!(count_stone(&board, 2, 8, 0, -1), 5);
    assert_eq!(count_stone(&board, 2, 4, 0, 1), 5);
    assert_eq!(count_stone(&board, 2, 5, 0, 1), 4);
}

#[test]
fn count_stops_at_the_edge() {
    let board = board_with(&line(0, 12, 0, 1, 3, 1));
    assert_eq!(count_stone(&board, 0, 12, 0, 1), 3);
    assert_eq!(count_stone(&board, 0, 14, 0, 1), 1);
    let board = board_with(&line(12, 0, 1, 0, 3, 1));
    assert_eq!(count_stone(&board, 12, 0, 1, 0), 3);
    assert_eq!(count_stone(&board, 12, 0, -1, 0), 1);
    assert_eq!(count_stone(&board, 12, 0, 0, -1), 1);
}

#[test]
fn five_win_on_each_axis() {
    for (dx, dy) in [(1i8, 0i8), (0, 1), (1, 1)] {
        let board = board_with(&line(4, 4, dx, dy, 5, 1));
        for k in 0..5u8 {
            let x = 4 + dx as u8 * k;
            let y = 4 + dy as u8 * k;
            assert!(check_five(&board, x, y, dx, dy));
            assert!(has_five_in_a_row(&board, x, y));
        }
    }
    let board = board_with(&line(4, 10, 1, -1, 5, 2));
    for k in 0..5u8 {
        assert!(check_five(&board, 4 + k, 10 - k, 1, -1));
        assert!(has_five_in_a_row(&board, 4 + k, 10 - k));
    }
}

#[test]
fn five_are_found_from_either_end() {
    let board = board_with(&line(0, 0, 0, 1, 5, 1));
    assert!(has_five_in_a_row(&board, 0, 0));
    assert!(has_five_in_a_row(&board, 0, 4));
    assert!(has_five_in_a_row(&board, 0, 2));
}

#[test]
fn four_do_not_win() {
    for (dx, dy) in [(1i8, 0i8), (0, 1), (1, 1)] {
        let board = board_with(&line(5, 5, dx, dy, 4, 1));
        for k in 0..4u8 {
            let x = 5 + dx as u8 * k;
            let y = 5 + dy as u8 * k;
            assert!(!check_five(&board, x, y, dx, dy));
            assert!(!has_five_in_a_row(&board, x, y));
        }
    }
    let board = board_with(&line(5, 9, 1, -1, 4, 2));
    for k in 0..4u8 {
        assert!(!has_five_in_a_row(&board, 5 + k, 9 - k));
    }
}

#[test]
fn six_and_more_win_from_every_cell() {
    for n in [6u8, 7, 9, 15] {
        let board = board_with(&line(0, 0, 0, 1, n, 2));
        for y in 0..n {
            assert!(has_five_in_a_row(&board, 0, y));
        }
    }
}

#[test]
fn a_gap_or_another_color_breaks_the_run() {
    let mut stones = line(6, 2, 0, 1, 5, 1);
    stones[2].2 = 2;
    let board = board_with(&stones);
    assert!(!has_five_in_a_row(&board, 6, 2));
    assert!(!has_five_in_a_row(&board, 6, 6));
    assert!(!has_five_in_a_row(&board, 6, 4));
    let mut stones = line(6, 2, 0, 1, 5, 1);
    stones.remove(1);
    let board = board_with(&stones);
    assert!(!has_five_in_a_row(&board, 6, 2));
    assert!(!has_five_in_a_row(&board, 6, 6));
}

#[test]
fn a_run_does_not_wrap_around_the_edge() {
    // Five cells in a row in the buffer, but on two rows of the board.
    let board = board_with(&[(0, 13, 1), (0, 14, 1), (1, 0, 1), (1, 1, 1), (1, 2, 1)]);
    for (x, y) in [(0u8, 13u8), (0, 14), (1, 0), (1, 1), (1, 2)] {
        assert!(!has_five_in_a_row(&board, x, y));
    }
}

#[test]
fn runs_at_the_corners_are_found() {
    let board = board_with(&line(10, 10, 1, 1, 5, 1));
    assert!(has_five_in_a_row(&board, 14, 14));
    assert!(has_five_in_a_row(&board, 10, 10));
    let board = board_with(&line(10, 4, 1, -1, 5, 1));
    assert!(has_five_in_a_row(&board, 14, 0));
    assert!(has_five_in_a_row(&board, 10, 4));
}
