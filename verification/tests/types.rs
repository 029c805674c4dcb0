use disboard::moves::{CastlingSide, Move};
use disboard::types::{
    piece_default, square_default, square_from_coords, Color, Piece, Role, Square, Uuid,
};

#[test]
fn square_file_and_rank_round_trip() {
    for index in 0..64u8 {
        let square = Square { index };
        assert!(square.file() < 8);
        assert!(square.rank() < 8);
        assert_eq!(square.file(), index % 8);
        assert_eq!(square.rank(), index / 8);
        assert_eq!(square_from_coords(square.file(), square.rank()), square);
    }
}

#[test]
fn square_from_coords_values() {
    assert_eq!(square_from_coords(0, 0).index, 0);
    assert_eq!(square_from_coords(7, 0).index, 7);
    assert_eq!(square_from_coords(4, 1).index, 12);
    assert_eq!(square_from_coords(7, 7).index, 63);
}

#[test]
fn defaults() {
    assert_eq!(square_default(), Square { index: 0 });
    assert_eq!(piece_default(), Piece { color: Color::Black, role: Role::Knight });
}

#[test]
fn role_numbers_round_trip() {
    let roles = [Role::Pawn, Role::Knight, Role::Bishop, Role::Rook, Role::Queen, Role::King];
    for (i, role) in roles.iter().enumerate() {
        assert_eq!(role.to_u8() as usize, i + 1);
        assert_eq!(Role::from_u8(role.to_u8()), Some(*role));
    }
    assert_eq!(Role::from_u8(0), None);
    assert_eq!(Role::from_u8(7), None);
    assert_eq!(Role::from_u8(255), None);
}

#[test]
fn uuid_same_compares_every_field() {
    let a = Uuid { l: 1, w1: 2, w2: 3, b: [4, 5, 6, 7, 8, 9, 10, 11] };
    assert!(a.same(&a.clone()));
    assert!(!a.same(&Uuid { l: 9, ..a }));
    assert!(!a.same(&Uuid { w1: 9, ..a }));
    assert!(!a.same(&Uuid { w2: 9, ..a }));
    for i in 0..8 {
        let mut b = a.b;
        b[i] = 0;
        assert!(!a.same(&Uuid { b, ..a }));
    }
    assert_eq!(Uuid::nil(), Uuid { l: 0, w1: 0, w2: 0, b: [0; 8] });
}

fn square(index: u8) -> Square {
    Square { index }
}

#[test]
fn castling_squares_follow_the_wing_and_the_rank() {
    let white_short = Move::Castle { king: square(4), rook: square(7) };
    assert_eq!(white_short.castling_side(), Some(CastlingSide::KingSide));
    assert_eq!(white_short.king_to(), square(6));
    assert_eq!(white_short.rook_to(), Some(square(5)));
    assert_eq!(white_short.to(), square(7));
    assert_eq!(white_short.from(), Some(square(4)));

    let white_long = Move::Castle { king: square(4), rook: square(0) };
    assert_eq!(white_long.castling_side(), Some(CastlingSide::QueenSide));
    assert_eq!(white_long.king_to(), square(2));
    assert_eq!(white_long.rook_to(), Some(square(3)));

    let black_short = Move::Castle { king: square(60), rook: square(63) };
    assert_eq!(black_short.king_to(), square(62));
    assert_eq!(black_short.rook_to(), Some(square(61)));

    let black_long = Move::Castle { king: square(60), rook: square(56) };
    assert_eq!(black_long.king_to(), square(58));
    assert_eq!(black_long.rook_to(), Some(square(59)));

    assert_eq!(CastlingSide::KingSide.king_to_file(), 6);
    assert_eq!(CastlingSide::QueenSide.king_to_file(), 2);
    assert_eq!(CastlingSide::KingSide.rook_to_file(), 5);
    assert_eq!(CastlingSide::QueenSide.rook_to_file(), 3);
}

#[test]
fn move_fields() {
    let capture = Move::Normal {
        role: Role::Pawn,
        from: square(54),
        capture: Some(Role::Rook),
        to: square(63),
        promotion: Some(Role::Queen),
    };
    assert_eq!(capture.from(), Some(square(54)));
    assert_eq!(capture.to(), square(63));
    assert_eq!(capture.king_to(), square(63));
    assert_eq!(capture.capture(), Some(Role::Rook));
    assert_eq!(capture.promotion(), Some(Role::Queen));
    assert!(capture.is_promotion());
    assert!(!capture.is_castle());
    assert!(!capture.is_en_passant());
    assert_eq!(capture.castling_side(), None);
    assert_eq!(capture.rook_to(), None);
    assert_eq!(capture.en_passant_square(), None);

    let en_passant = Move::EnPassant { from: square(36), to: square(43) };
    assert_eq!(en_passant.capture(), Some(Role::Pawn));
    assert_eq!(en_passant.en_passant_square(), Some(square(35)));
    assert!(en_passant.is_en_passant());
    assert!(!en_passant.is_promotion());

    let put = Move::Put { role: Role::Pawn, to: square(0) };
    assert_eq!(put.from(), None);
    assert_eq!(put.to(), square(0));
    assert_eq!(put.capture(), None);
}

#[test]
fn set_promotion_touches_normal_moves_only() {
    let mut pawn = Move::Normal {
        role: Role::Pawn,
        from: square(48),
        capture: None,
        to: square(56),
        promotion: None,
    };
    pawn.set_promotion(Role::Knight);
    assert_eq!(
        pawn,
        Move::Normal {
            role: Role::Pawn,
            from: square(48),
            capture: None,
            to: square(56),
            promotion: Some(Role::Knight),
        }
    );
    let mut castle = Move::Castle { king: square(4), rook: square(7) };
    castle.set_promotion(Role::Queen);
    assert_eq!(castle, Move::Castle { king: square(4), rook: square(7) });
}
