use disboard::moves::Move;
use disboard::position::{index_of, CurPosition};
use disboard::resolver::{hints_in, leads, resolve_in};
use disboard::types::{Color, Piece, Role, Square};

fn square(index: u8) -> Square {
    Square { index }
}

fn quiet(role: Role, from: u8, to: u8) -> Move {
    Move::Normal { role, from: square(from), capture: None, to: square(to), promotion: None }
}

fn taking(role: Role, from: u8, to: u8, victim: Role) -> Move {
    Move::Normal { role, from: square(from), capture: Some(victim), to: square(to), promotion: None }
}

fn promoting(from: u8, to: u8, capture: Option<Role>, role: Role) -> Move {
    Move::Normal { role: Role::Pawn, from: square(from), capture, to: square(to), promotion: Some(role) }
}

fn sample() -> Vec<Move> {
    vec![
        Move::EnPassant { from: square(36), to: square(43) },
        quiet(Role::King, 4, 12),
        promoting(48, 56, None, Role::Queen),
        promoting(48, 56, None, Role::Rook),
        promoting(48, 56, None, Role::Bishop),
        promoting(48, 56, None, Role::Knight),
        promoting(48, 57, Some(Role::Knight), Role::Queen),
        promoting(48, 57, Some(Role::Knight), Role::Rook),
        promoting(48, 57, Some(Role::Knight), Role::Bishop),
        promoting(48, 57, Some(Role::Knight), Role::Knight),
        taking(Role::King, 4, 13, Role::Pawn),
        quiet(Role::King, 4, 3),
        Move::Castle { king: square(4), rook: square(7) },
        Move::Castle { king: square(4), rook: square(0) },
        Move::Put { role: Role::Pawn, to: square(12) },
    ]
}

#[test]
fn resolve_takes_the_first_connecting_move() {
    let moves = sample();
    assert_eq!(resolve_in(&moves, square(4), square(12)), Some(1));
    assert_eq!(resolve_in(&moves, square(4), square(13)), Some(10));
    assert_eq!(resolve_in(&moves, square(36), square(43)), Some(0));
    assert_eq!(resolve_in(&moves, square(48), square(56)), Some(2));
    assert_eq!(resolve_in(&moves, square(48), square(57)), Some(6));
}

#[test]
fn resolve_matches_castling_by_king_target_and_by_rook() {
    let moves = sample();
    assert_eq!(resolve_in(&moves, square(4), square(6)), Some(12));
    assert_eq!(resolve_in(&moves, square(4), square(7)), Some(12));
    assert_eq!(resolve_in(&moves, square(4), square(2)), Some(13));
    assert_eq!(resolve_in(&moves, square(4), square(0)), Some(13));
}

#[test]
fn resolve_finds_nothing_where_no_move_connects() {
    let moves = sample();
    assert_eq!(resolve_in(&moves, square(4), square(5)), None);
    assert_eq!(resolve_in(&moves, square(5), square(12)), None);
    assert_eq!(resolve_in(&moves, square(12), square(12)), None);
    assert_eq!(resolve_in(&Vec::new(), square(4), square(12)), None);
}

#[test]
fn leads_tells_a_drop_from_a_move() {
    assert!(leads(&quiet(Role::King, 4, 12), square(4), square(12)));
    assert!(!leads(&quiet(Role::King, 4, 12), square(4), square(13)));
    assert!(!leads(&Move::Put { role: Role::Pawn, to: square(12) }, square(4), square(12)));
    let castle = Move::Castle { king: square(60), rook: square(56) };
    assert!(leads(&castle, square(60), square(58)));
    assert!(leads(&castle, square(60), square(56)));
    assert!(!leads(&castle, square(60), square(59)));
}

#[test]
fn hints_part_quiet_moves_captures_and_castling() {
    let moves = sample();
    let (hints, captures) = hints_in(&moves, square(4));
    assert_eq!(hints, vec![square(12), square(3), square(6), square(2)]);
    assert_eq!(captures, vec![square(13), square(7), square(0)]);
}

#[test]
fn hints_collapse_the_choices_of_role() {
    let moves = sample();
    let (hints, captures) = hints_in(&moves, square(48));
    assert_eq!(hints, vec![square(56)]);
    assert_eq!(captures, vec![square(57)]);
}

#[test]
fn hints_count_en_passant_as_a_capture() {
    let moves = sample();
    let (hints, captures) = hints_in(&moves, square(36));
    assert_eq!(hints, Vec::<Square>::new());
    assert_eq!(captures, vec![square(43)]);
}

#[test]
fn hints_of_an_idle_square_are_empty() {
    let moves = sample();
    let (hints, captures) = hints_in(&moves, square(20));
    assert!(hints.is_empty());
    assert!(captures.is_empty());
}

#[test]
fn index_of_finds_the_first_place() {
    let mut moves = sample();
    moves.push(quiet(Role::King, 4, 12));
    assert_eq!(index_of(&moves, &quiet(Role::King, 4, 12)), Some(1));
    assert_eq!(index_of(&moves, &quiet(Role::King, 4, 20)), None);
}

#[test]
fn starting_position_as_the_engine_sees_it() {
    let position = CurPosition::new();
    assert_eq!(position.turn(), Color::White);
    assert_eq!(position.legal_moves().len(), 20);
    assert_eq!(position.squares().len(), 32);
    assert_eq!(position.pieces().len(), 32);
    assert_eq!(position.squares()[0], square(0));
    assert_eq!(position.pieces()[0], Piece { color: Color::White, role: Role::Rook });
    assert_eq!(position.squares()[31], square(63));
    assert_eq!(position.pieces()[31], Piece { color: Color::Black, role: Role::Rook });
    assert_eq!(position.board()[4], (square(4), Piece { color: Color::White, role: Role::King }));
    assert_eq!(position.piece(square(59)), Some(Piece { color: Color::Black, role: Role::Queen }));
    assert_eq!(position.piece(square(30)), None);
    assert_eq!(position.piece(square(64)), None);
    assert!(position.has_piece_at(square(8)));
    assert!(!position.has_piece_at(square(16)));
    assert_eq!(position.piece_at(square(8)), Piece { color: Color::White, role: Role::Pawn });
    assert_eq!(position.piece_at(square(16)), Piece { color: Color::Black, role: Role::Knight });
}

#[test]
fn position_resolves_and_hints() {
    let position = CurPosition::new();
    let knight = quiet(Role::Knight, 6, 21);
    let resolved = position.resolve(square(6), square(21));
    assert_eq!(resolved.map(|(_, m)| m), Some(knight));
    assert!(position.has_legal_move(square(6), square(21)));
    assert!(!position.has_legal_move(square(6), square(22)));
    assert!(!position.has_legal_move(square(52), square(36)));
    let mut hints = position.hints(square(6));
    hints.sort_by_key(|s| s.index);
    assert_eq!(hints, vec![square(21), square(23)]);
    assert!(position.captures(square(6)).is_empty());
    let (hints, captures) = position.move_hints(square(0));
    assert!(hints.is_empty());
    assert!(captures.is_empty());
}

#[test]
fn playing_a_move_makes_a_new_position() {
    let position = CurPosition::new();
    let pawn = quiet(Role::Pawn, 12, 28);
    let next = position.play(&pawn).unwrap();
    assert_eq!(next.turn(), Color::Black);
    assert_eq!(next.piece(square(28)), Some(Piece { color: Color::White, role: Role::Pawn }));
    assert_eq!(next.piece(square(12)), None);
    assert_eq!(position.turn(), Color::White);
    assert_eq!(position.piece(square(12)), Some(Piece { color: Color::White, role: Role::Pawn }));
    assert_eq!(position.san(&pawn), Some("e4".to_string()));
    assert!(position.play(&quiet(Role::Pawn, 12, 36)).is_none());
    assert_eq!(position.san(&quiet(Role::Pawn, 12, 36)), None);
    assert!(next.play(&pawn).is_none());
}
