use tictactoe::{Message, SquareValue, TicTacToe};

fn assert_fresh(g: &TicTacToe) {
    assert_eq!(g.turn_count(), 1);
    assert_eq!(g.turn_index(), 0);
    assert_eq!(g.next_square_value(), SquareValue::X);
    assert_eq!(g.winner(), None);
    assert_eq!(g.board(), [None; 9]);
}

fn snapshot(g: &TicTacToe) -> (Vec<[Option<SquareValue>; 9]>, usize, SquareValue, Option<SquareValue>) {
    let boards = (0..g.turn_count()).map(|i| g.board_at(i)).collect();
    (boards, g.turn_index(), g.next_square_value(), g.winner())
}

#[test]
fn new_game_is_fresh() {
    assert_fresh(&TicTacToe::new());
}

#[test]
fn occupied_cell_is_left_alone() {
    let mut g = TicTacToe::new();
    assert!(g.place_mark(4));
    let before = snapshot(&g);
    assert!(!g.place_mark(4));
    assert_eq!(snapshot(&g), before);
    assert_eq!(g.board()[4], Some(SquareValue::X));
}

#[test]
fn marks_alternate_from_fresh() {
    let mut g = TicTacToe::new();
    let cells = [4, 0, 8, 2, 6];
    for (n, &c) in cells.iter().enumerate() {
        let expected = if n % 2 == 0 { SquareValue::X } else { SquareValue::O };
        assert_eq!(g.next_square_value(), expected);
        assert!(g.place_mark(c));
        assert_eq!(g.board()[c], Some(expected));
    }
}

#[test]
fn branching_drops_the_old_future() {
    let mut g = TicTacToe::new();
    assert!(g.place_mark(0));
    assert!(g.place_mark(1));
    assert_eq!(g.turn_count(), 3);
    assert_eq!(g.turn_index(), 2);
    let old_b1 = g.board_at(1);
    assert!(g.step_backward());
    assert!(g.step_backward());
    assert_eq!(g.turn_index(), 0);
    assert!(g.place_mark(5));
    assert_eq!(g.turn_count(), 2);
    assert_eq!(g.turn_index(), 1);
    assert_ne!(g.board_at(1), old_b1);
    let mut expected = [None; 9];
    expected[5] = Some(SquareValue::X);
    assert_eq!(g.board_at(1), expected);
    assert_eq!(g.next_square_value(), SquareValue::O);
}

#[test]
fn branching_in_the_middle_truncates() {
    let mut g = TicTacToe::new();
    for c in [0, 1, 2, 3] {
        assert!(g.place_mark(c));
    }
    assert_eq!(g.turn_count(), 5);
    assert!(g.step_backward());
    assert!(g.step_backward());
    assert!(g.step_backward());
    assert!(g.place_mark(8));
    assert_eq!(g.turn_count(), 3);
    assert_eq!(g.turn_index(), 2);
    assert_eq!(g.board(), [Some(SquareValue::X), None, None, None, None, None, None, None, Some(SquareValue::O)]);
    assert!(!g.step_forward());
}

#[test]
fn step_backward_at_start_is_noop() {
    let mut g = TicTacToe::new();
    assert!(!g.step_backward());
    assert_fresh(&g);
}

#[test]
fn step_forward_at_end_is_noop() {
    let mut g = TicTacToe::new();
    assert!(!g.step_forward());
    assert_fresh(&g);
    assert!(g.place_mark(3));
    let before = snapshot(&g);
    assert!(!g.step_forward());
    assert_eq!(snapshot(&g), before);
}

#[test]
fn navigation_flips_the_turn_and_keeps_history() {
    let mut g = TicTacToe::new();
    assert!(g.place_mark(0));
    assert!(g.place_mark(4));
    assert!(g.step_backward());
    assert_eq!(g.turn_index(), 1);
    assert_eq!(g.next_square_value(), SquareValue::O);
    assert_eq!(g.turn_count(), 3);
    assert!(g.step_forward());
    assert_eq!(g.turn_index(), 2);
    assert_eq!(g.next_square_value(), SquareValue::X);
    assert_eq!(g.board()[4], Some(SquareValue::O));
}

#[test]
fn reset_from_any_state_is_fresh() {
    let mut g = TicTacToe::new();
    for c in [0, 3, 1, 4, 2] {
        assert!(g.place_mark(c));
    }
    assert!(g.step_backward());
    g.reset();
    assert_fresh(&g);
}

#[test]
fn top_row_wins_and_freezes_the_board() {
    let mut g = TicTacToe::new();
    let moves = [(0, SquareValue::X), (3, SquareValue::O), (1, SquareValue::X), (4, SquareValue::O), (2, SquareValue::X)];
    for (n, &(c, m)) in moves.iter().enumerate() {
        assert_eq!(g.next_square_value(), m);
        assert!(g.place_mark(c));
        if n < 4 {
            assert_eq!(g.winner(), None);
        }
    }
    assert_eq!(g.winner(), Some(SquareValue::X));
    let before = snapshot(&g);
    for c in [5, 6, 7, 8] {
        assert!(!g.place_mark(c));
        assert_eq!(snapshot(&g), before);
    }
    assert_eq!(g.winner(), Some(SquareValue::X));
}

#[test]
fn full_board_without_line_is_a_draw() {
    let mut g = TicTacToe::new();
    for c in [0, 2, 1, 3, 5, 4, 6, 7, 8] {
        assert!(g.place_mark(c));
    }
    let b = g.board();
    let x = Some(SquareValue::X);
    let o = Some(SquareValue::O);
    assert_eq!(b, [x, x, o, o, o, x, x, o, x]);
    assert_eq!(g.winner(), None);
    let before = snapshot(&g);
    for c in 0..9 {
        assert!(!g.place_mark(c));
        assert_eq!(snapshot(&g), before);
    }
}

#[test]
fn stepping_back_from_a_win_recomputes_the_winner() {
    let mut g = TicTacToe::new();
    for c in [0, 3, 1, 4, 2] {
        assert!(g.place_mark(c));
    }
    assert_eq!(g.winner(), Some(SquareValue::X));
    assert!(g.step_backward());
    assert_eq!(g.winner(), None);
    assert_eq!(g.next_square_value(), SquareValue::X);
    assert!(g.place_mark(8));
    assert_eq!(g.winner(), None);
    assert!(g.place_mark(5));
    assert_eq!(g.winner(), Some(SquareValue::O));
    assert!(g.step_backward());
    assert!(g.step_forward());
    assert_eq!(g.winner(), Some(SquareValue::O));
}

#[test]
fn update_dispatches_each_intent() {
    let mut g = TicTacToe::new();
    assert!(g.update(Message::SquareClicked(4)));
    assert!(!g.update(Message::SquareClicked(4)));
    assert!(g.update(Message::PreviousTurn));
    assert_eq!(g.turn_index(), 0);
    assert!(!g.update(Message::PreviousTurn));
    assert!(g.update(Message::NextTurn));
    assert_eq!(g.turn_index(), 1);
    assert!(!g.update(Message::NextTurn));
    assert!(g.update(Message::StartNewGame));
    assert_fresh(&g);
}
