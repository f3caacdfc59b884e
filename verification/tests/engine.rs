use tic_tac_toe::{Board, CellIndex, Symbol, TurnResult};

fn snapshot(board: &Board) -> Vec<Option<Symbol>> {
    let mut cells = Vec::new();
    for row in 0..3u8 {
        for column in 0..3u8 {
            cells.push(board.get(CellIndex(column, row)));
        }
    }
    cells
}

#[test]
fn new_board_is_empty_with_chosen_starter() {
    let board = Board::new(Symbol::X);
    assert_eq!(board.current_player(), Symbol::X);
    for row in 0..3u8 {
        for column in 0..3u8 {
            assert_eq!(board.get(CellIndex(column, row)), None);
        }
    }

    let board_o = Board::new(Symbol::O);
    assert_eq!(board_o.current_player(), Symbol::O);
}

#[test]
fn first_move_continues_and_passes_turn() {
    let mut board = Board::new(Symbol::X);
    let result = board.process_turn(CellIndex(1, 1));
    assert_eq!(result, TurnResult::Continue);
    assert_eq!(board.current_player(), Symbol::O);
    assert_eq!(board.get(CellIndex(1, 1)), Some(Symbol::X));
}

#[test]
fn occupied_cell_is_rejected_without_any_change() {
    let mut board = Board::new(Symbol::X);
    assert_eq!(board.process_turn(CellIndex(0, 0)), TurnResult::Continue);

    let before = snapshot(&board);
    let player_before = board.current_player();

    let result = board.process_turn(CellIndex(0, 0));
    assert_eq!(result, TurnResult::InvalidMove);
    assert_eq!(snapshot(&board), before);
    assert_eq!(board.current_player(), player_before);
    assert_eq!(board.get(CellIndex(0, 0)), Some(Symbol::X));

    // A second rejection is just as inert.
    assert_eq!(board.process_turn(CellIndex(0, 0)), TurnResult::InvalidMove);
    assert_eq!(snapshot(&board), before);
    assert_eq!(board.current_player(), player_before);
}

#[test]
fn current_player_alternates_on_continue_only() {
    let mut board = Board::new(Symbol::X);
    assert_eq!(board.current_player(), Symbol::X);
    board.process_turn(CellIndex(0, 0));
    assert_eq!(board.current_player(), Symbol::O);
    board.process_turn(CellIndex(1, 0));
    assert_eq!(board.current_player(), Symbol::X);
    board.process_turn(CellIndex(1, 0));
    assert_eq!(board.current_player(), Symbol::X);
}

#[test]
fn accepted_moves_never_overwrite_cells() {
    let mut board = Board::new(Symbol::X);
    let moves = [
        CellIndex(1, 0),
        CellIndex(0, 0),
        CellIndex(0, 1),
        CellIndex(2, 0),
        CellIndex(2, 1),
        CellIndex(1, 1),
        CellIndex(0, 2),
        CellIndex(1, 2),
        CellIndex(2, 2),
    ];
    let mut seen: Vec<(CellIndex, Symbol)> = Vec::new();
    for &index in moves.iter() {
        let mover = board.current_player();
        board.process_turn(index);
        seen.push((index, mover));
        for &(earlier, symbol) in seen.iter() {
            assert_eq!(board.get(earlier), Some(symbol));
        }
    }
}

#[test]
fn main_diagonal_win_is_reported_at_completion() {
    let mut board = Board::new(Symbol::X);
    assert_eq!(board.process_turn(CellIndex(0, 0)), TurnResult::Continue);
    assert_eq!(board.process_turn(CellIndex(0, 1)), TurnResult::Continue);
    assert_eq!(board.process_turn(CellIndex(1, 1)), TurnResult::Continue);
    assert_eq!(board.process_turn(CellIndex(0, 2)), TurnResult::Continue);
    assert_eq!(board.process_turn(CellIndex(2, 2)), TurnResult::Winner(Symbol::X));
    // The game is over: the turn pointer stays with the winner.
    assert_eq!(board.current_player(), Symbol::X);
}

#[test]
fn anti_diagonal_win_is_reported_at_completion() {
    let mut board = Board::new(Symbol::X);
    assert_eq!(board.process_turn(CellIndex(2, 0)), TurnResult::Continue);
    assert_eq!(board.process_turn(CellIndex(0, 0)), TurnResult::Continue);
    assert_eq!(board.process_turn(CellIndex(1, 1)), TurnResult::Continue);
    assert_eq!(board.process_turn(CellIndex(1, 0)), TurnResult::Continue);
    assert_eq!(board.process_turn(CellIndex(0, 2)), TurnResult::Winner(Symbol::X));
}

#[test]
fn each_row_win_is_detected() {
    for row in 0..3u8 {
        let mut board = Board::new(Symbol::X);
        let other_row = (row + 1) % 3;
        assert_eq!(board.process_turn(CellIndex(0, row)), TurnResult::Continue);
        assert_eq!(board.process_turn(CellIndex(0, other_row)), TurnResult::Continue);
        assert_eq!(board.process_turn(CellIndex(1, row)), TurnResult::Continue);
        assert_eq!(board.process_turn(CellIndex(1, other_row)), TurnResult::Continue);
        assert_eq!(board.process_turn(CellIndex(2, row)), TurnResult::Winner(Symbol::X));
    }
}

#[test]
fn each_column_win_is_detected() {
    for column in 0..3u8 {
        let mut board = Board::new(Symbol::X);
        let other_column = (column + 1) % 3;
        assert_eq!(board.process_turn(CellIndex(column, 0)), TurnResult::Continue);
        assert_eq!(board.process_turn(CellIndex(other_column, 0)), TurnResult::Continue);
        assert_eq!(board.process_turn(CellIndex(column, 1)), TurnResult::Continue);
        assert_eq!(board.process_turn(CellIndex(other_column, 1)), TurnResult::Continue);
        assert_eq!(board.process_turn(CellIndex(column, 2)), TurnResult::Winner(Symbol::X));
    }
}

#[test]
fn winner_carries_the_winning_symbol() {
    // O starts and completes the top row.
    let mut board = Board::new(Symbol::O);
    assert_eq!(board.process_turn(CellIndex(0, 0)), TurnResult::Continue);
    assert_eq!(board.process_turn(CellIndex(0, 1)), TurnResult::Continue);
    assert_eq!(board.process_turn(CellIndex(1, 0)), TurnResult::Continue);
    assert_eq!(board.process_turn(CellIndex(1, 1)), TurnResult::Continue);
    assert_eq!(board.process_turn(CellIndex(2, 0)), TurnResult::Winner(Symbol::O));
    assert_eq!(board.current_player(), Symbol::O);
}

#[test]
fn full_board_without_line_is_a_draw_only_at_the_end() {
    // Final pattern, rows top to bottom: X O X / O X O / O X O.
    let mut board = Board::new(Symbol::O);
    let moves = [
        CellIndex(1, 0),
        CellIndex(0, 0),
        CellIndex(0, 1),
        CellIndex(2, 0),
        CellIndex(2, 1),
        CellIndex(1, 1),
        CellIndex(0, 2),
        CellIndex(1, 2),
    ];
    for &index in moves.iter() {
        assert_eq!(board.process_turn(index), TurnResult::Continue);
    }
    assert_eq!(board.process_turn(CellIndex(2, 2)), TurnResult::Draw);
    // The game is over: the turn pointer no longer advances.
    assert_eq!(board.current_player(), Symbol::O);
}
