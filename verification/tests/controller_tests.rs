use chessboard::grid_position::SquareId;
use chessboard::selection::{GameSession, Selection};
use shakmaty::{Chess, Color, Piece, Position, Role, Square};

/// A pixel inside the cell of the given square.
fn pixel_of(file: u32, rank: u32) -> (u32, u32) {
    (file * 32 + 5, rank * 32 + 5)
}

fn click(sess: &mut GameSession, file: u32, rank: u32) {
    let (px, py) = pixel_of(file, rank);
    sess.handle_click(px, py);
}

fn selected_square(sess: &GameSession) -> Option<SquareId> {
    match &sess.selection {
        Selection::Idle => None,
        Selection::PieceSelected { square, .. } => Some(*square),
    }
}

fn preview(sess: &GameSession) -> Vec<SquareId> {
    match &sess.selection {
        Selection::Idle => Vec::new(),
        Selection::PieceSelected { destinations, .. } => destinations.clone(),
    }
}

#[test]
fn new_session_is_idle() {
    let sess = GameSession::new(Chess::default());
    assert!(matches!(sess.selection, Selection::Idle));
}

#[test]
fn selecting_own_pawn_shows_both_advances() {
    let mut sess = GameSession::new(Chess::default());
    // E2: file 4, rank 1
    click(&mut sess, 4, 1);
    assert_eq!(selected_square(&sess), Some(SquareId { file: 4, rank: 1 }));
    let mut dests = preview(&sess);
    dests.sort();
    assert_eq!(
        dests,
        vec![SquareId { file: 4, rank: 2 }, SquareId { file: 4, rank: 3 }]
    );
}

#[test]
fn selecting_kings_side_knight_previews_f3_and_h3() {
    let mut sess = GameSession::new(Chess::default());
    // G1: file 6, rank 0
    click(&mut sess, 6, 0);
    assert_eq!(selected_square(&sess), Some(SquareId { file: 6, rank: 0 }));
    let mut dests = preview(&sess);
    dests.sort();
    assert_eq!(
        dests,
        vec![SquareId { file: 5, rank: 2 }, SquareId { file: 7, rank: 2 }]
    );
}

#[test]
fn reclicking_the_selected_square_deselects() {
    let mut sess = GameSession::new(Chess::default());
    let before = sess.position.clone();
    click(&mut sess, 6, 0);
    assert!(selected_square(&sess).is_some());
    click(&mut sess, 6, 0);
    assert!(matches!(sess.selection, Selection::Idle));
    assert!(sess.position == before);
}

#[test]
fn switching_the_selection_without_deselecting() {
    let mut sess = GameSession::new(Chess::default());
    click(&mut sess, 4, 1);
    click(&mut sess, 6, 0);
    assert_eq!(selected_square(&sess), Some(SquareId { file: 6, rank: 0 }));
}

#[test]
fn two_step_pawn_advance_is_played() {
    let mut sess = GameSession::new(Chess::default());
    // select E2, then click E4
    click(&mut sess, 4, 1);
    click(&mut sess, 4, 3);
    assert!(matches!(sess.selection, Selection::Idle));
    assert!(preview(&sess).is_empty());
    let board = sess.position.board();
    assert_eq!(board.piece_at(Square::E2), None);
    assert_eq!(
        board.piece_at(Square::E4),
        Some(Piece { color: Color::White, role: Role::Pawn })
    );
    assert_eq!(sess.position.turn(), Color::Black);
}

#[test]
fn illegal_destination_cancels_without_moving() {
    let mut sess = GameSession::new(Chess::default());
    let before = sess.position.clone();
    // select E2, then click E5, which no pawn on E2 can reach
    click(&mut sess, 4, 1);
    click(&mut sess, 4, 4);
    assert!(matches!(sess.selection, Selection::Idle));
    assert!(preview(&sess).is_empty());
    assert!(sess.position == before);
}

#[test]
fn opponent_piece_cannot_be_picked_up() {
    let mut sess = GameSession::new(Chess::default());
    let before = sess.position.clone();
    // E7 holds a black pawn, but White is to move
    click(&mut sess, 4, 6);
    assert!(matches!(sess.selection, Selection::Idle));
    assert!(sess.position == before);
}

#[test]
fn clicking_an_opponent_piece_cancels_a_selection() {
    let mut sess = GameSession::new(Chess::default());
    let before = sess.position.clone();
    click(&mut sess, 4, 1);
    // D7 holds a black pawn: not selectable, not reachable from E2
    click(&mut sess, 3, 6);
    assert!(matches!(sess.selection, Selection::Idle));
    assert!(sess.position == before);
}

#[test]
fn empty_square_click_while_idle_changes_nothing() {
    let mut sess = GameSession::new(Chess::default());
    let before = sess.position.clone();
    click(&mut sess, 4, 4);
    assert!(matches!(sess.selection, Selection::Idle));
    assert!(sess.position == before);
}

#[test]
fn click_outside_the_board_is_ignored() {
    let mut sess = GameSession::new(Chess::default());
    let before = sess.position.clone();
    click(&mut sess, 6, 0);
    let selected_before = selected_square(&sess);
    sess.handle_click(300, 10);
    sess.handle_click(10, 999);
    sess.handle_click(256, 256);
    assert_eq!(selected_square(&sess), selected_before);
    assert!(sess.position == before);
}

#[test]
fn accessors_follow_the_selection() {
    let mut sess = GameSession::new(Chess::default());
    assert_eq!(sess.selected(), None);
    assert!(!sess.is_preview_destination(SquareId { file: 5, rank: 2 }));
    click(&mut sess, 6, 0);
    assert_eq!(sess.selected(), Some(SquareId { file: 6, rank: 0 }));
    assert!(sess.is_preview_destination(SquareId { file: 5, rank: 2 }));
    assert!(sess.is_preview_destination(SquareId { file: 7, rank: 2 }));
    assert!(!sess.is_preview_destination(SquareId { file: 6, rank: 2 }));
    click(&mut sess, 6, 0);
    assert_eq!(sess.selected(), None);
    assert!(!sess.is_preview_destination(SquareId { file: 5, rank: 2 }));
}

#[test]
fn whole_game_opening_moves() {
    let mut sess = GameSession::new(Chess::default());
    // 1. e4
    click(&mut sess, 4, 1);
    click(&mut sess, 4, 3);
    // 1... e5
    click(&mut sess, 4, 6);
    click(&mut sess, 4, 4);
    // 2. Nf3
    click(&mut sess, 6, 0);
    click(&mut sess, 5, 2);
    let board = sess.position.board();
    assert_eq!(
        board.piece_at(Square::F3),
        Some(Piece { color: Color::White, role: Role::Knight })
    );
    assert_eq!(
        board.piece_at(Square::E5),
        Some(Piece { color: Color::Black, role: Role::Pawn })
    );
    assert_eq!(sess.position.turn(), Color::Black);
}
