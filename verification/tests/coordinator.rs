use chess_core::cell::CellSelect;
use chess_core::coordinator::{decide_action, Action, MoveCoordinator};
use chess_core::game::{Game, GameBoard};
use chess_core::pieces::{Coord, Piece, PieceColor, PieceKind};

fn at(row: usize, col: usize) -> Coord {
    Coord { row, col }
}

fn white_pawn() -> Piece {
    Piece { kind: PieceKind::Pawn, color: PieceColor::White }
}

fn black_pawn() -> Piece {
    Piece { kind: PieceKind::Pawn, color: PieceColor::Black }
}

fn coordinator_with(pieces: &[((usize, usize), Piece)]) -> MoveCoordinator {
    let mut board = GameBoard::empty();
    for ((row, col), piece) in pieces {
        board.set(at(*row, *col), Some(*piece));
    }
    MoveCoordinator::with_game(Game::from_board(board))
}

fn count_pieces(coordinator: &MoveCoordinator) -> usize {
    let mut pieces = 0;
    for row in 0..8 {
        for col in 0..8 {
            if coordinator.piece_at(at(row, col)).is_some() {
                pieces += 1;
            }
        }
    }
    pieces
}

#[test]
fn new_coordinator_is_on_starting_layout_with_nothing_armed() {
    let coordinator = MoveCoordinator::new();
    assert_eq!(coordinator.selected_cell(), None);
    assert_eq!(coordinator.piece_at(at(6, 0)), Some(white_pawn()));
    assert_eq!(coordinator.piece_at(at(1, 7)), Some(black_pawn()));
    assert_eq!(coordinator.piece_at(at(0, 0)), None);
    assert_eq!(coordinator.piece_at(at(7, 0)), None);
    assert_eq!(count_pieces(&coordinator), 16);
}

#[test]
fn decide_follows_the_table() {
    let white = Some(white_pawn());
    let black = Some(black_pawn());
    assert_eq!(decide_action(None, None), Action::Select);
    assert_eq!(decide_action(None, white), Action::Select);
    assert_eq!(decide_action(Some(None), None), Action::Reselect);
    assert_eq!(decide_action(Some(None), black), Action::Commit);
    assert_eq!(decide_action(Some(white), None), Action::Reselect);
    assert_eq!(decide_action(Some(white), white), Action::Reselect);
    assert_eq!(decide_action(Some(black), Some(Piece::black(PieceKind::Queen))), Action::Reselect);
    assert_eq!(decide_action(Some(white), black), Action::Commit);
    assert_eq!(decide_action(Some(black), white), Action::Commit);
}

#[test]
fn first_click_selects_any_cell() {
    let mut coordinator = MoveCoordinator::new();
    assert_eq!(coordinator.on_pointer_click(at(3, 3), 1), Action::Select);
    assert_eq!(coordinator.selected_cell(), Some(at(3, 3)));
    let mut coordinator = MoveCoordinator::new();
    assert_eq!(coordinator.on_pointer_click(at(6, 0), 1), Action::Select);
    assert_eq!(coordinator.selected_cell(), Some(at(6, 0)));
    assert_eq!(count_pieces(&coordinator), 16);
}

#[test]
fn capture_moves_the_piece_and_clears_selection() {
    let mut coordinator = coordinator_with(&[((6, 0), white_pawn()), ((1, 0), black_pawn())]);
    assert_eq!(coordinator.on_pointer_click(at(6, 0), 1), Action::Select);
    assert_eq!(coordinator.on_pointer_click(at(1, 0), 2), Action::Commit);
    assert_eq!(coordinator.piece_at(at(1, 0)), Some(white_pawn()));
    assert_eq!(coordinator.piece_at(at(6, 0)), None);
    assert_eq!(coordinator.selected_cell(), None);
    assert_eq!(count_pieces(&coordinator), 1);
}

#[test]
fn capture_on_starting_layout() {
    let mut coordinator = MoveCoordinator::new();
    coordinator.on_pointer_click(at(6, 0), 1);
    assert_eq!(coordinator.on_pointer_click(at(1, 0), 2), Action::Commit);
    assert_eq!(coordinator.piece_at(at(1, 0)), Some(white_pawn()));
    assert_eq!(coordinator.piece_at(at(6, 0)), None);
    assert_eq!(coordinator.selected_cell(), None);
    assert_eq!(count_pieces(&coordinator), 15);
}

#[test]
fn same_side_click_switches_the_armed_piece() {
    let mut coordinator = MoveCoordinator::new();
    assert_eq!(coordinator.on_pointer_click(at(6, 0), 1), Action::Select);
    assert_eq!(coordinator.on_pointer_click(at(6, 1), 2), Action::Reselect);
    assert_eq!(coordinator.selected_cell(), Some(at(6, 1)));
    assert_eq!(coordinator.piece_at(at(6, 0)), Some(white_pawn()));
    assert_eq!(coordinator.piece_at(at(6, 1)), Some(white_pawn()));
    assert_eq!(count_pieces(&coordinator), 16);
}

#[test]
fn click_on_empty_cell_from_armed_piece_rearms() {
    let mut coordinator = MoveCoordinator::new();
    coordinator.on_pointer_click(at(6, 0), 1);
    assert_eq!(coordinator.on_pointer_click(at(5, 0), 2), Action::Reselect);
    assert_eq!(coordinator.selected_cell(), Some(at(5, 0)));
    assert_eq!(coordinator.piece_at(at(6, 0)), Some(white_pawn()));
    assert_eq!(coordinator.piece_at(at(5, 0)), None);
}

#[test]
fn click_on_empty_cell_from_armed_empty_cell_rearms() {
    let mut coordinator = MoveCoordinator::new();
    coordinator.on_pointer_click(at(3, 3), 1);
    assert_eq!(coordinator.on_pointer_click(at(4, 4), 2), Action::Reselect);
    assert_eq!(coordinator.selected_cell(), Some(at(4, 4)));
    assert_eq!(count_pieces(&coordinator), 16);
}

#[test]
fn commit_from_empty_cell_erases_nothing() {
    let mut coordinator = MoveCoordinator::new();
    coordinator.on_pointer_click(at(3, 3), 1);
    assert_eq!(coordinator.on_pointer_click(at(1, 2), 2), Action::Commit);
    assert_eq!(coordinator.selected_cell(), None);
    assert_eq!(coordinator.piece_at(at(1, 2)), Some(black_pawn()));
    assert_eq!(coordinator.piece_at(at(3, 3)), None);
    assert_eq!(count_pieces(&coordinator), 16);
}

#[test]
fn second_click_on_armed_cell_disarms_it() {
    let mut coordinator = MoveCoordinator::new();
    coordinator.on_pointer_click(at(6, 0), 1);
    assert_eq!(coordinator.on_pointer_click(at(6, 0), 2), Action::Reselect);
    assert_eq!(coordinator.selected_cell(), None);
    assert_eq!(coordinator.piece_at(at(6, 0)), Some(white_pawn()));
}

#[test]
fn same_click_seen_again_keeps_selection() {
    let mut coordinator = MoveCoordinator::new();
    coordinator.on_pointer_click(at(6, 0), 1);
    assert_eq!(coordinator.on_pointer_click(at(6, 0), 1), Action::Reselect);
    assert_eq!(coordinator.selected_cell(), Some(at(6, 0)));
}

#[test]
fn pointer_leave_clears_selection() {
    let mut coordinator = MoveCoordinator::new();
    coordinator.on_pointer_click(at(6, 0), 1);
    assert_eq!(coordinator.selected_cell(), Some(at(6, 0)));
    coordinator.on_pointer_leave();
    assert_eq!(coordinator.selected_cell(), None);
    assert_eq!(count_pieces(&coordinator), 16);
    coordinator.on_pointer_leave();
    assert_eq!(coordinator.selected_cell(), None);
}

#[test]
fn pending_action_does_not_act() {
    let mut coordinator = MoveCoordinator::new();
    assert_eq!(coordinator.pending_action(at(6, 0)), Action::Select);
    assert_eq!(coordinator.selected_cell(), None);
    coordinator.on_pointer_click(at(6, 0), 1);
    assert_eq!(coordinator.pending_action(at(1, 0)), Action::Commit);
    assert_eq!(coordinator.pending_action(at(6, 1)), Action::Reselect);
    assert_eq!(coordinator.pending_action(at(4, 0)), Action::Reselect);
    assert_eq!(coordinator.selected_cell(), Some(at(6, 0)));
    assert_eq!(coordinator.piece_at(at(1, 0)), Some(black_pawn()));
}

#[test]
fn click_conflict_is_rearming_under_the_held_time() {
    let mut coordinator = MoveCoordinator::new();
    assert!(!coordinator.conflicts_with(at(6, 0), 1));
    coordinator.on_pointer_click(at(6, 0), 1);
    assert!(coordinator.conflicts_with(at(6, 1), 1));
    assert!(coordinator.conflicts_with(at(5, 0), 1));
    assert!(!coordinator.conflicts_with(at(6, 1), 2));
    assert!(!coordinator.conflicts_with(at(6, 0), 1));
    assert!(!coordinator.conflicts_with(at(1, 0), 1));
}

#[test]
fn checked_click_rejects_a_capture_the_rules_forbid() {
    let mut coordinator = MoveCoordinator::new();
    assert_eq!(coordinator.on_pointer_click_checked(at(6, 0), 1), Some(Action::Select));
    assert_eq!(coordinator.on_pointer_click_checked(at(1, 0), 2), None);
    assert_eq!(coordinator.selected_cell(), Some(at(6, 0)));
    assert_eq!(coordinator.piece_at(at(6, 0)), Some(white_pawn()));
    assert_eq!(coordinator.piece_at(at(1, 0)), Some(black_pawn()));
    assert_eq!(count_pieces(&coordinator), 16);
}

#[test]
fn checked_click_carries_out_a_lawful_capture() {
    let rook = Piece::white(PieceKind::Rook);
    let mut coordinator = coordinator_with(&[((6, 0), rook), ((1, 0), black_pawn())]);
    assert_eq!(coordinator.on_pointer_click_checked(at(6, 0), 1), Some(Action::Select));
    assert_eq!(coordinator.on_pointer_click_checked(at(1, 0), 2), Some(Action::Commit));
    assert_eq!(coordinator.piece_at(at(1, 0)), Some(rook));
    assert_eq!(coordinator.piece_at(at(6, 0)), None);
    assert_eq!(coordinator.selected_cell(), None);
    assert_eq!(count_pieces(&coordinator), 1);
}

#[test]
fn checked_click_lets_a_pawn_capture_diagonally() {
    let mut coordinator = coordinator_with(&[((4, 4), white_pawn()), ((3, 5), black_pawn())]);
    coordinator.on_pointer_click_checked(at(4, 4), 1);
    assert_eq!(coordinator.on_pointer_click_checked(at(3, 5), 2), Some(Action::Commit));
    assert_eq!(coordinator.piece_at(at(3, 5)), Some(white_pawn()));
    assert_eq!(coordinator.piece_at(at(4, 4)), None);
}

#[test]
fn checked_click_reselects_as_the_plain_click_does() {
    let mut coordinator = MoveCoordinator::new();
    coordinator.on_pointer_click_checked(at(6, 0), 1);
    assert_eq!(coordinator.on_pointer_click_checked(at(6, 1), 2), Some(Action::Reselect));
    assert_eq!(coordinator.selected_cell(), Some(at(6, 1)));
    assert_eq!(coordinator.on_pointer_click_checked(at(6, 1), 3), Some(Action::Reselect));
    assert_eq!(coordinator.selected_cell(), None);
}

#[test]
fn selection_carries_the_click_time() {
    let mut a = MoveCoordinator::new();
    a.on_pointer_click(at(2, 2), 5);
    a.on_pointer_click(at(2, 2), 5);
    assert_eq!(a.selected_cell(), Some(at(2, 2)));
    a.on_pointer_click(at(2, 2), 6);
    assert_eq!(a.selected_cell(), None);
    let select = CellSelect::new(at(2, 2), 6);
    assert_eq!(select.time, 6);
}
