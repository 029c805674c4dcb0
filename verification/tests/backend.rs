use disboard::backend::{coord_to_square, piece_to_u8, squares_from_move, BoardConImpl};
use disboard::moves::Move;
use disboard::signals::{PieceSignals, Signals};
use disboard::slots::{DragSlots, MouseEventSlots, Slots};
use disboard::types::{Color, Piece, Role, Square, Uuid};

const SIZE: u32 = 10;

fn sq(name: &str) -> u8 {
    let bytes = name.as_bytes();
    (bytes[1] - b'1') * 8 + (bytes[0] - b'a')
}

fn pixel(name: &str) -> (u32, u32) {
    let index = sq(name) as u32;
    let file = index % 8;
    let rank = index / 8;
    (file * SIZE + 3, (7 - rank) * SIZE + 4)
}

fn click(backend: &mut BoardConImpl, name: &str) -> Vec<Signals> {
    let (x, y) = pixel(name);
    backend.handle_slot(Slots::MouseEvent { slot: MouseEventSlots::Clicked { x, y }, piece_size: SIZE })
}

fn drag_start(backend: &mut BoardConImpl, name: &str) -> Vec<Signals> {
    let (src_x, src_y) = pixel(name);
    backend.handle_slot(Slots::MouseEvent {
        slot: MouseEventSlots::Drag(DragSlots::Started { src_x, src_y }),
        piece_size: SIZE,
    })
}

fn drag_end(backend: &mut BoardConImpl, name: &str) -> Vec<Signals> {
    let (dest_x, dest_y) = pixel(name);
    backend.handle_slot(Slots::MouseEvent {
        slot: MouseEventSlots::Drag(DragSlots::Ended { dest_x, dest_y }),
        piece_size: SIZE,
    })
}

fn play(backend: &mut BoardConImpl, from: &str, to: &str) -> Vec<Signals> {
    click(backend, from);
    click(backend, to)
}

fn cleared() -> Vec<Signals> {
    vec![
        Signals::Phantom { id: None },
        Signals::Hint { squares: vec![] },
        Signals::Capture { squares: vec![] },
        Signals::Highlight { square: None },
    ]
}

fn movetext(signals: &[Signals]) -> Option<String> {
    signals.iter().rev().find_map(|s| match s {
        Signals::PGN { string } => Some(string.clone()),
        _ => None,
    })
}

#[test]
fn click_e2_then_e4_plays_the_pawn() {
    let mut backend = BoardConImpl::new();
    let first = click(&mut backend, "e2");
    assert_eq!(&first[..4], &cleared()[..]);
    assert_eq!(first[4], Signals::Highlight { square: Some(sq("e2")) });
    match &first[5] {
        Signals::Hint { squares } => {
            assert!(squares.contains(&sq("e4")));
            assert!(squares.contains(&sq("e3")));
            assert_eq!(squares.len(), 2);
        }
        other => panic!("expected hints, got {:?}", other),
    }
    assert_eq!(first[6], Signals::Capture { squares: vec![] });
    assert_eq!(first.len(), 7);
    assert_eq!(backend.highlighted_square(), Some(Square { index: sq("e2") }));

    let second = click(&mut backend, "e4");
    let mut expected = cleared();
    expected.push(Signals::Piece(PieceSignals::Move { src_square: sq("e2"), dest_square: sq("e4") }));
    expected.push(Signals::LastMove { src_square: Some(sq("e2")), dest_square: Some(sq("e4")) });
    expected.push(Signals::PGN { string: "1. e4".to_string() });
    assert_eq!(second, expected);
    assert_eq!(backend.highlighted_square(), None);
    assert_ne!(backend.cur_node(), backend.game().root());
    assert_eq!(backend.game().parent(backend.cur_node()), Some(backend.game().root()));
}

#[test]
fn click_same_square_twice_drops_the_selection() {
    let mut backend = BoardConImpl::new();
    click(&mut backend, "g1");
    assert_eq!(backend.highlighted_square(), Some(Square { index: sq("g1") }));
    let again = click(&mut backend, "g1");
    assert_eq!(again, cleared());
    assert_eq!(backend.highlighted_square(), None);
}

#[test]
fn click_on_empty_square_selects_nothing() {
    let mut backend = BoardConImpl::new();
    let out = click(&mut backend, "e4");
    assert_eq!(out, cleared());
    assert_eq!(backend.highlighted_square(), None);
}

#[test]
fn click_elsewhere_reselects() {
    let mut backend = BoardConImpl::new();
    click(&mut backend, "e2");
    let out = click(&mut backend, "d2");
    assert_eq!(out[4], Signals::Highlight { square: Some(sq("d2")) });
    assert_eq!(backend.highlighted_square(), Some(Square { index: sq("d2") }));
    assert_eq!(movetext(&out), None);
}

#[test]
fn click_off_the_board_only_clears() {
    let mut backend = BoardConImpl::new();
    click(&mut backend, "e2");
    let out = backend.handle_slot(Slots::MouseEvent {
        slot: MouseEventSlots::Clicked { x: 85, y: 5 },
        piece_size: SIZE,
    });
    assert_eq!(out, cleared());
    let out = backend.handle_slot(Slots::MouseEvent {
        slot: MouseEventSlots::Clicked { x: 5, y: 5 },
        piece_size: 0,
    });
    assert_eq!(out, cleared());
    assert_eq!(backend.highlighted_square(), None);
}

fn castling_ready() -> BoardConImpl {
    let mut backend = BoardConImpl::new();
    play(&mut backend, "e2", "e4");
    play(&mut backend, "e7", "e5");
    play(&mut backend, "g1", "f3");
    play(&mut backend, "b8", "c6");
    play(&mut backend, "f1", "c4");
    let last = play(&mut backend, "f8", "c5");
    assert_eq!(movetext(&last).unwrap(), "1. e4 e5 2. Nf3 Nc6 3. Bc4 Bc5");
    backend
}

#[test]
fn castling_by_the_king_square() {
    let mut backend = castling_ready();
    let nodes = backend.game().mainline_nodes(backend.game().root()).len();
    let first = click(&mut backend, "e1");
    match (&first[5], &first[6]) {
        (Signals::Hint { squares }, Signals::Capture { squares: captures }) => {
            assert!(squares.contains(&sq("g1")));
            assert!(squares.contains(&sq("f1")));
            assert!(squares.contains(&sq("e2")));
            assert_eq!(captures, &vec![sq("h1")]);
        }
        other => panic!("expected hints and captures, got {:?}", other),
    }
    let out = click(&mut backend, "g1");
    let mut expected = cleared();
    expected.push(Signals::Piece(PieceSignals::Move { src_square: sq("e1"), dest_square: sq("g1") }));
    expected.push(Signals::LastMove { src_square: Some(sq("e1")), dest_square: Some(sq("h1")) });
    expected.push(Signals::Piece(PieceSignals::Move { src_square: sq("h1"), dest_square: sq("f1") }));
    expected.push(Signals::PGN { string: "1. e4 e5 2. Nf3 Nc6 3. Bc4 Bc5 4. O-O".to_string() });
    assert_eq!(out, expected);
    assert_eq!(backend.game().mainline_nodes(backend.game().root()).len(), nodes + 1);
    assert_eq!(
        backend.game().prev_move(backend.cur_node()),
        Some(Move::Castle { king: Square { index: sq("e1") }, rook: Square { index: sq("h1") } })
    );
}

#[test]
fn castling_by_the_rook_square() {
    let mut backend = castling_ready();
    click(&mut backend, "e1");
    let out = click(&mut backend, "h1");
    assert_eq!(
        out[4],
        Signals::Piece(PieceSignals::Move { src_square: sq("e1"), dest_square: sq("g1") })
    );
    assert_eq!(movetext(&out).unwrap(), "1. e4 e5 2. Nf3 Nc6 3. Bc4 Bc5 4. O-O");
}

fn promotion_ready() -> BoardConImpl {
    let mut backend = BoardConImpl::new();
    play(&mut backend, "h2", "h4");
    play(&mut backend, "g7", "g5");
    play(&mut backend, "h4", "g5");
    play(&mut backend, "h7", "h6");
    play(&mut backend, "g5", "g6");
    play(&mut backend, "h6", "h5");
    play(&mut backend, "g6", "g7");
    let last = play(&mut backend, "h5", "h4");
    assert_eq!(movetext(&last).unwrap(), "1. h4 g5 2. hxg5 h6 3. g6 h5 4. g7 h4");
    backend
}

#[test]
fn promotion_by_drag_is_staged_then_played() {
    let mut backend = promotion_ready();
    let before = backend.cur_node();
    let start = drag_start(&mut backend, "g7");
    let mut expected = cleared();
    expected.push(Signals::Piece(PieceSignals::Remove { square: sq("g7") }));
    expected.push(Signals::Highlight { square: Some(sq("g7")) });
    expected.push(Signals::Phantom { id: Some(0) });
    assert_eq!(&start[..7], &expected[..]);
    match (&start[7], &start[8]) {
        (Signals::Hint { squares }, Signals::Capture { squares: captures }) => {
            assert_eq!(squares, &Vec::<u8>::new());
            assert_eq!(captures.len(), 2);
            assert!(captures.contains(&sq("h8")));
            assert!(captures.contains(&sq("f8")));
        }
        other => panic!("expected hints and captures, got {:?}", other),
    }
    assert_eq!(
        backend.dragged_piece(),
        Some((Square { index: sq("g7") }, Piece { color: Color::White, role: Role::Pawn }))
    );

    let end = drag_end(&mut backend, "h8");
    assert_eq!(
        end,
        vec![
            Signals::Phantom { id: None },
            Signals::Hint { squares: vec![] },
            Signals::Capture { squares: vec![] },
            Signals::Highlight { square: None },
            Signals::Piece(PieceSignals::Place { id: 0, square: sq("h8") }),
            Signals::Promoting { file: Some(7) },
        ]
    );
    assert_eq!(backend.cur_node(), before);
    assert_eq!(backend.game().children(before).len(), 0);
    assert_eq!(backend.dragged_piece(), None);
    assert_eq!(
        backend.promotion(),
        Some(Move::Normal {
            role: Role::Pawn,
            from: Square { index: sq("g7") },
            capture: Some(Role::Rook),
            to: Square { index: sq("h8") },
            promotion: None,
        })
    );

    let chosen = backend.handle_slot(Slots::Promote { id: 4 });
    assert_eq!(
        chosen,
        vec![
            Signals::Piece(PieceSignals::Place { id: 4, square: sq("h8") }),
            Signals::Promoting { file: None },
            Signals::PGN { string: "1. h4 g5 2. hxg5 h6 3. g6 h5 4. g7 h4 5. gxh8=Q".to_string() },
        ]
    );
    assert_eq!(backend.game().children(before).len(), 1);
    assert_eq!(backend.game().parent(backend.cur_node()), Some(before));
    assert_eq!(backend.promotion(), None);
}

#[test]
fn promotion_is_cancelled_by_the_next_click() {
    let mut backend = promotion_ready();
    let before = backend.cur_node();
    click(&mut backend, "g7");
    let staged = click(&mut backend, "h8");
    let mut expected = cleared();
    expected.push(Signals::Piece(PieceSignals::Move { src_square: sq("g7"), dest_square: sq("h8") }));
    expected.push(Signals::Promoting { file: Some(7) });
    assert_eq!(staged, expected);

    let out = click(&mut backend, "a3");
    let mut expected = cleared();
    expected.push(Signals::Promoting { file: None });
    expected.push(Signals::Piece(PieceSignals::Move { src_square: sq("h8"), dest_square: sq("g7") }));
    expected.push(Signals::Piece(PieceSignals::Place { id: 13, square: sq("h8") }));
    assert_eq!(out, expected);
    assert_eq!(backend.promotion(), None);
    assert_eq!(backend.cur_node(), before);
    assert_eq!(backend.game().children(before).len(), 0);
}

#[test]
fn promotion_choice_without_a_staged_move_does_nothing() {
    let mut backend = BoardConImpl::new();
    let out = backend.handle_slot(Slots::Promote { id: 4 });
    assert_eq!(out, Vec::<Signals>::new());
    assert_eq!(backend.cur_node(), backend.game().root());
}

#[test]
fn black_promotion_adds_ten() {
    let mut backend = BoardConImpl::new();
    play(&mut backend, "a2", "a3");
    play(&mut backend, "h7", "h5");
    play(&mut backend, "a3", "a4");
    play(&mut backend, "h5", "h4");
    play(&mut backend, "a4", "a5");
    play(&mut backend, "h4", "h3");
    play(&mut backend, "a5", "a6");
    play(&mut backend, "h3", "g2");
    play(&mut backend, "a6", "b7");
    click(&mut backend, "g2");
    let staged = click(&mut backend, "h1");
    assert_eq!(staged.last(), Some(&Signals::Promoting { file: Some(17) }));
    let chosen = backend.handle_slot(Slots::Promote { id: 1 });
    assert_eq!(chosen[0], Signals::Piece(PieceSignals::Place { id: 11, square: sq("h1") }));
    assert_eq!(chosen[1], Signals::Promoting { file: None });
    assert!(movetext(&chosen).unwrap().ends_with("5. axb7 gxh1=N"));
}

#[test]
fn en_passant_removes_the_pawn_passed() {
    let mut backend = BoardConImpl::new();
    play(&mut backend, "e2", "e4");
    play(&mut backend, "a7", "a6");
    play(&mut backend, "e4", "e5");
    play(&mut backend, "d7", "d5");
    click(&mut backend, "e5");
    let out = click(&mut backend, "d6");
    let mut expected = cleared();
    expected.push(Signals::Piece(PieceSignals::Move { src_square: sq("e5"), dest_square: sq("d6") }));
    expected.push(Signals::LastMove { src_square: Some(sq("e5")), dest_square: Some(sq("d6")) });
    expected.push(Signals::Piece(PieceSignals::Remove { square: sq("d5") }));
    expected.push(Signals::PGN { string: "1. e4 a6 2. e5 d5 3. exd6".to_string() });
    assert_eq!(out, expected);
}

#[test]
fn drag_to_an_illegal_square_puts_the_piece_back() {
    let mut backend = BoardConImpl::new();
    drag_start(&mut backend, "e2");
    let out = drag_end(&mut backend, "e5");
    assert_eq!(
        out,
        vec![
            Signals::Phantom { id: None },
            Signals::Piece(PieceSignals::Place { id: 0, square: sq("e2") }),
        ]
    );
    assert_eq!(backend.dragged_piece(), None);
    assert_eq!(backend.cur_node(), backend.game().root());
}

#[test]
fn drag_end_without_a_drag_only_hides_the_phantom() {
    let mut backend = BoardConImpl::new();
    let out = drag_end(&mut backend, "e4");
    assert_eq!(out, vec![Signals::Phantom { id: None }]);
}

#[test]
fn drag_start_on_empty_square_picks_nothing_up() {
    let mut backend = BoardConImpl::new();
    let out = drag_start(&mut backend, "e4");
    assert_eq!(out, cleared());
    assert_eq!(backend.dragged_piece(), None);
}

#[test]
fn traverse_backward_at_root_does_nothing() {
    let mut backend = BoardConImpl::new();
    let root = backend.cur_node();
    let out = backend.handle_slot(Slots::Traverse { forward: false });
    assert_eq!(out, Vec::<Signals>::new());
    assert_eq!(backend.cur_node(), root);
}

#[test]
fn traverse_forward_at_leaf_does_nothing() {
    let mut backend = BoardConImpl::new();
    let out = backend.handle_slot(Slots::Traverse { forward: true });
    assert_eq!(out, Vec::<Signals>::new());
}

#[test]
fn traverse_back_and_forth() {
    let mut backend = BoardConImpl::new();
    play(&mut backend, "e2", "e4");
    play(&mut backend, "e7", "e5");
    let leaf = backend.cur_node();
    let back = backend.handle_slot(Slots::Traverse { forward: false });
    assert_eq!(back.len(), 2);
    match &back[0] {
        Signals::Reset { initial } => {
            assert_eq!(initial.len(), 32);
            assert!(initial.contains(&(sq("e4"), 0)));
            assert!(initial.contains(&(sq("e7"), 10)));
        }
        other => panic!("expected a reset, got {:?}", other),
    }
    assert_eq!(back[1], Signals::LastMove { src_square: Some(sq("e2")), dest_square: Some(sq("e4")) });
    let back = backend.handle_slot(Slots::Traverse { forward: false });
    assert_eq!(back[1], Signals::LastMove { src_square: None, dest_square: None });
    assert_eq!(backend.cur_node(), backend.game().root());
    let forward = backend.handle_slot(Slots::Traverse { forward: true });
    assert_eq!(
        forward[1],
        Signals::LastMove { src_square: Some(sq("e2")), dest_square: Some(sq("e4")) }
    );
    backend.handle_slot(Slots::Traverse { forward: true });
    assert_eq!(backend.cur_node(), leaf);
}

#[test]
fn resync_twice_gives_the_same_event() {
    let mut backend = BoardConImpl::new();
    play(&mut backend, "d2", "d4");
    let first = backend.handle_slot(Slots::Resync);
    let second = backend.handle_slot(Slots::Resync);
    assert_eq!(first, second);
    assert_eq!(first.len(), 1);
    assert_eq!(first, backend.resync_board());
}

#[test]
fn resync_of_a_fresh_session_is_the_starting_layout() {
    let backend = BoardConImpl::new();
    let out = backend.resync_board();
    let back_rank = [3u8, 1, 2, 4, 5, 2, 1, 3];
    let mut initial: Vec<(u8, u8)> = Vec::new();
    for file in 0..8u8 {
        initial.push((file, back_rank[file as usize]));
    }
    for file in 0..8u8 {
        initial.push((8 + file, 0));
    }
    for file in 0..8u8 {
        initial.push((48 + file, 10));
    }
    for file in 0..8u8 {
        initial.push((56 + file, 10 + back_rank[file as usize]));
    }
    assert_eq!(out, vec![Signals::Reset { initial }]);
}

#[test]
fn variation_is_written_in_brackets() {
    let mut backend = BoardConImpl::new();
    play(&mut backend, "e2", "e4");
    play(&mut backend, "e7", "e5");
    backend.handle_slot(Slots::Traverse { forward: false });
    let out = play(&mut backend, "c7", "c5");
    assert_eq!(movetext(&out).unwrap(), "1. e4 e5 (1... c5)");
    let out = play(&mut backend, "g1", "f3");
    assert_eq!(movetext(&out).unwrap(), "1. e4 e5 (1... c5 2. Nf3)");
    backend.handle_slot(Slots::Traverse { forward: false });
    backend.handle_slot(Slots::Traverse { forward: false });
    backend.handle_slot(Slots::Traverse { forward: true });
    let out = play(&mut backend, "g1", "f3");
    assert_eq!(movetext(&out).unwrap(), "1. e4 e5 (1... c5 2. Nf3) 2. Nf3");
    backend.handle_slot(Slots::Traverse { forward: false });
    backend.handle_slot(Slots::Traverse { forward: false });
    backend.handle_slot(Slots::Traverse { forward: false });
    let out = play(&mut backend, "d2", "d4");
    assert_eq!(movetext(&out).unwrap(), "1. e4 (1. d4) 1... e5 (1... c5 2. Nf3) 2. Nf3");
}

#[test]
fn piece_numbers() {
    assert_eq!(piece_to_u8(&Piece { color: Color::White, role: Role::Pawn }), 0);
    assert_eq!(piece_to_u8(&Piece { color: Color::White, role: Role::King }), 5);
    assert_eq!(piece_to_u8(&Piece { color: Color::Black, role: Role::Pawn }), 10);
    assert_eq!(piece_to_u8(&Piece { color: Color::Black, role: Role::Queen }), 14);
}

#[test]
fn pixels_to_squares() {
    assert_eq!(coord_to_square(0, 0, 10), Some(Square { index: 56 }));
    assert_eq!(coord_to_square(79, 79, 10), Some(Square { index: 7 }));
    assert_eq!(coord_to_square(45, 65, 10), Some(Square { index: 12 }));
    assert_eq!(coord_to_square(80, 0, 10), None);
    assert_eq!(coord_to_square(0, 80, 10), None);
    assert_eq!(coord_to_square(0, 0, 0), None);
}

#[test]
fn squares_of_a_castling_move_are_the_kings() {
    let castle = Move::Castle { king: Square { index: 60 }, rook: Square { index: 56 } };
    assert_eq!(squares_from_move(&castle), (Square { index: 60 }, Square { index: 58 }));
    let quiet = Move::Normal {
        role: Role::Knight,
        from: Square { index: 6 },
        capture: None,
        to: Square { index: 21 },
        promotion: None,
    };
    assert_eq!(squares_from_move(&quiet), (Square { index: 6 }, Square { index: 21 }));
}

#[test]
fn castling_queen_side_by_drag() {
    let mut backend = BoardConImpl::new();
    play(&mut backend, "d2", "d4");
    play(&mut backend, "d7", "d5");
    play(&mut backend, "c1", "f4");
    play(&mut backend, "c8", "f5");
    play(&mut backend, "b1", "c3");
    play(&mut backend, "b8", "c6");
    play(&mut backend, "d1", "d2");
    play(&mut backend, "d8", "d7");
    drag_start(&mut backend, "e1");
    let out = drag_end(&mut backend, "a1");
    assert_eq!(
        &out[..7],
        &[
            Signals::Phantom { id: None },
            Signals::Hint { squares: vec![] },
            Signals::Capture { squares: vec![] },
            Signals::Highlight { square: None },
            Signals::Piece(PieceSignals::Place { id: 5, square: sq("c1") }),
            Signals::LastMove { src_square: Some(sq("e1")), dest_square: Some(sq("a1")) },
            Signals::Piece(PieceSignals::Move { src_square: sq("a1"), dest_square: sq("d1") }),
        ][..]
    );
    assert!(movetext(&out).unwrap().ends_with("5. O-O-O"));
    drag_start(&mut backend, "e8");
    let out = drag_end(&mut backend, "c8");
    assert_eq!(out[4], Signals::Piece(PieceSignals::Place { id: 15, square: sq("c8") }));
    assert_eq!(out[6], Signals::Piece(PieceSignals::Move { src_square: sq("a8"), dest_square: sq("d8") }));
    assert!(movetext(&out).unwrap().ends_with("5. O-O-O O-O-O"));
}

#[test]
fn a_click_puts_a_dragged_piece_out_of_the_air() {
    let mut backend = BoardConImpl::new();
    drag_start(&mut backend, "e2");
    assert!(backend.dragged_piece().is_some());
    click(&mut backend, "a5");
    assert_eq!(backend.dragged_piece(), None);
    let out = drag_end(&mut backend, "e4");
    assert_eq!(out, vec![Signals::Phantom { id: None }]);
    assert_eq!(backend.cur_node(), backend.game().root());
}

#[test]
fn a_drag_start_gives_up_a_staged_promotion_first() {
    let mut backend = promotion_ready();
    drag_start(&mut backend, "g7");
    drag_end(&mut backend, "f8");
    assert!(backend.promotion().is_some());
    let out = drag_start(&mut backend, "a2");
    let mut expected = cleared();
    expected.push(Signals::Promoting { file: None });
    expected.push(Signals::Piece(PieceSignals::Move { src_square: sq("f8"), dest_square: sq("g7") }));
    expected.push(Signals::Piece(PieceSignals::Place { id: 12, square: sq("f8") }));
    expected.push(Signals::Piece(PieceSignals::Remove { square: sq("a2") }));
    expected.push(Signals::Highlight { square: Some(sq("a2")) });
    expected.push(Signals::Phantom { id: Some(0) });
    assert_eq!(&out[..expected.len()], &expected[..]);
    assert_eq!(backend.promotion(), None);
    assert_eq!(
        backend.dragged_piece(),
        Some((Square { index: sq("a2") }, Piece { color: Color::White, role: Role::Pawn }))
    );
}

#[test]
fn a_role_that_cannot_be_promoted_to_adds_no_node() {
    let mut backend = promotion_ready();
    let before = backend.cur_node();
    click(&mut backend, "g7");
    click(&mut backend, "h8");
    let out = backend.handle_slot(Slots::Promote { id: 5 });
    assert_eq!(
        out,
        vec![
            Signals::Piece(PieceSignals::Place { id: 5, square: sq("h8") }),
            Signals::Promoting { file: None },
        ]
    );
    assert_eq!(backend.cur_node(), before);
    assert_eq!(backend.promotion(), None);
    assert!(backend.game().children(before).is_empty());
}

#[test]
fn under_promotion_is_played_with_the_chosen_role() {
    let mut backend = promotion_ready();
    click(&mut backend, "g7");
    click(&mut backend, "f8");
    let out = backend.handle_slot(Slots::Promote { id: 3 });
    assert_eq!(out[0], Signals::Piece(PieceSignals::Place { id: 3, square: sq("f8") }));
    assert!(movetext(&out).unwrap().ends_with("5. gxf8=R+"));
    assert_eq!(
        backend.game().prev_move(backend.cur_node()),
        Some(Move::Normal {
            role: Role::Pawn,
            from: Square { index: sq("g7") },
            capture: Some(Role::Bishop),
            to: Square { index: sq("f8") },
            promotion: Some(Role::Rook),
        })
    );
}

#[test]
fn handle_slot_with_uses_the_identity_given() {
    let fresh = Uuid { l: 7, w1: 7, w2: 7, b: [7; 8] };
    let mut backend = BoardConImpl::new();
    let root = backend.cur_node();
    let (x, y) = pixel("e2");
    backend.coord_clicked(x, y, SIZE, fresh);
    assert_eq!(backend.cur_node(), root);
    let (x, y) = pixel("e4");
    let out = backend.handle_slot_with(
        Slots::MouseEvent { slot: MouseEventSlots::Clicked { x, y }, piece_size: SIZE },
        fresh,
    );
    assert_eq!(movetext(&out).unwrap(), "1. e4");
    assert_eq!(backend.cur_node(), fresh);

    let (x, y) = pixel("e7");
    backend.coord_clicked(x, y, SIZE, fresh);
    let (x, y) = pixel("e5");
    let out = backend.coord_clicked(x, y, SIZE, fresh);
    let mut expected = cleared();
    expected.push(Signals::Piece(PieceSignals::Move { src_square: sq("e7"), dest_square: sq("e5") }));
    expected.push(Signals::LastMove { src_square: Some(sq("e7")), dest_square: Some(sq("e5")) });
    assert_eq!(out, expected);
    assert_eq!(backend.cur_node(), fresh);
    assert!(backend.game().children(fresh).is_empty());
}

#[test]
fn check_and_mate_are_marked_in_the_movetext() {
    let mut backend = BoardConImpl::new();
    play(&mut backend, "f2", "f3");
    play(&mut backend, "e7", "e5");
    play(&mut backend, "g2", "g4");
    let out = play(&mut backend, "d8", "h4");
    assert_eq!(movetext(&out).unwrap(), "1. f3 e5 2. g4 Qh4#");
    let out = click(&mut backend, "e1");
    assert_eq!(out[4], Signals::Highlight { square: Some(sq("e1")) });
    assert_eq!(out[5], Signals::Hint { squares: vec![] });
    assert_eq!(out[6], Signals::Capture { squares: vec![] });
}
