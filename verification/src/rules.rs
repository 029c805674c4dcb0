//! The boundary to the chess rules engine and to the identity generator.
//!
//! Everything here is taken on trust from `shakmaty` and `uuid`: the engine
//! decides which moves are legal and what a move does to a position, and the
//! rest of the library reasons about its answers by name. A position stays
//! the engine's own value, opaque to the proofs; what it holds is read out
//! through the names below. Everything else crosses the boundary as a
//! number: a square as its index, a role as its number, a colour as "is it
//! White", a move as its place among the legal moves.
//!
//! The engine's move generator expects a position of standard chess, with
//! both kings on the board. The only positions that ever reach it are the
//! starting position and positions reached from it by legal moves, because
//! `initial_position` and `play_nth` are the only ways to make one.

use vstd::prelude::*;
use crate::moves::Move;
use crate::types::{Color, Piece, Role, Square, Uuid};
use shakmaty::Position;

verus! {

/// `shakmaty::Chess`: a position of standard chess, opaque to the proofs.
#[verifier::external_type_specification]
#[verifier::external_body]
pub struct ExChess(shakmaty::Chess);

/// A move as the engine reports it: squares by index, roles by number.
#[derive(Clone, Copy, Debug, PartialEq, Eq, Structural)]
pub enum RawMove {
    Normal { role: u8, from: u8, capture: Option<u8>, to: u8, promotion: Option<u8> },
    EnPassant { from: u8, to: u8 },
    Castle { king: u8, rook: u8 },
    Put { role: u8, to: u8 },
}

/// Whether a number names a role.
pub open spec fn is_role_number(n: u8) -> bool {
    1 <= n <= 6
}

/// Whether a number, where there is one, names a role.
pub open spec fn is_optional_role_number(n: Option<u8>) -> bool {
    n is Some ==> is_role_number(n.unwrap())
}

impl RawMove {
    /// Every square lies on the board and every role number names a role.
    pub open spec fn wf(self) -> bool {
        match self {
            RawMove::Normal { role, from, capture, to, promotion } => {
                &&& is_role_number(role)
                &&& from < 64
                &&& is_optional_role_number(capture)
                &&& to < 64
                &&& is_optional_role_number(promotion)
            },
            RawMove::EnPassant { from, to } => from < 64 && to < 64,
            RawMove::Castle { king, rook } => king < 64 && rook < 64,
            RawMove::Put { role, to } => is_role_number(role) && to < 64,
        }
    }
}

/// The legal moves of a position, in the order in which the engine
/// generates them.
pub uninterp spec fn raw_legal_moves(pos: shakmaty::Chess) -> Seq<RawMove>;

/// What stands on a square of a position: whether the piece is White's, and
/// its role number.
pub uninterp spec fn raw_piece_at(pos: shakmaty::Chess, square: u8) -> Option<(bool, u8)>;

/// Whether White is to move in a position.
pub uninterp spec fn white_to_move(pos: shakmaty::Chess) -> bool;

/// The position reached by playing the legal move with a given index.
pub uninterp spec fn position_after(pos: shakmaty::Chess, index: int) -> shakmaty::Chess;

/// The algebraic notation, with check and mate marks, of the legal move with
/// a given index.
pub uninterp spec fn san_text(pos: shakmaty::Chess, index: int) -> Seq<char>;

/// The piece on a square at the start of a game.
pub open spec fn starting_piece(square: u8) -> Option<(bool, u8)> {
    let file = square % 8;
    let back_rank: u8 = if file == 0 || file == 7 {
        4
    } else if file == 1 || file == 6 {
        2
    } else if file == 2 || file == 5 {
        3
    } else if file == 3 {
        5
    } else {
        6
    };
    if square < 8 {
        Some((true, back_rank))
    } else if square < 16 {
        Some((true, 1u8))
    } else if 48 <= square < 56 {
        Some((false, 1u8))
    } else if 56 <= square < 64 {
        Some((false, back_rank))
    } else {
        None
    }
}

/// `shakmaty::Chess::default`: the starting position. White is to move and
/// the pieces stand on their home squares.
#[verifier::external_body]
pub(crate) fn initial_position() -> (r: shakmaty::Chess)
    ensures
        white_to_move(r),
        forall|square: u8| square < 64 ==> raw_piece_at(r, square) == starting_piece(square),
{
    shakmaty::Chess::default()
}

/// `shakmaty::Position::legal_moves` on a standard position: the legal
/// moves in generation order, each field handed over as a number. The
/// engine's squares are below 64 and its roles are numbered 1 to 6.
#[verifier::external_body]
pub(crate) fn legal_moves_raw(pos: &shakmaty::Chess) -> (r: Vec<RawMove>)
    ensures
        r@ == raw_legal_moves(*pos),
        forall|i: int| 0 <= i < r@.len() ==> (#[trigger] r@[i]).wf(),
{
    pos.legal_moves().iter().map(|m| match *m {
        shakmaty::Move::Normal { role, from, capture, to, promotion } => RawMove::Normal {
            role: role.into(), from: from.into(), capture: capture.map(u8::from),
            to: to.into(), promotion: promotion.map(u8::from),
        },
        shakmaty::Move::EnPassant { from, to } => RawMove::EnPassant { from: from.into(), to: to.into() },
        shakmaty::Move::Castle { king, rook } => RawMove::Castle { king: king.into(), rook: rook.into() },
        shakmaty::Move::Put { role, to } => RawMove::Put { role: role.into(), to: to.into() },
    }).collect()
}

/// `shakmaty::Board::piece_at` on the board of a position: the colour and
/// role number of the piece on a square, if one stands there.
#[verifier::external_body]
pub(crate) fn piece_at_raw(pos: &shakmaty::Chess, square: u8) -> (r: Option<(bool, u8)>)
    requires
        square < 64,
    ensures
        r == raw_piece_at(*pos, square),
        r is Some ==> is_role_number(r.unwrap().1),
{
    pos.board().piece_at(shakmaty::Square::new(u32::from(square))).map(
        |p| (p.color.is_white(), u8::from(p.role)),
    )
}

/// `shakmaty::Position::turn`: whether White is to move.
#[verifier::external_body]
pub(crate) fn turn_is_white(pos: &shakmaty::Chess) -> (r: bool)
    ensures
        r == white_to_move(*pos),
{
    pos.turn().is_white()
}

/// `shakmaty::Position::play_unchecked` on a copy of the position, with the
/// move that stands at `index` in `shakmaty::Position::legal_moves`: the
/// position after that move. The position handed in is left as it was.
#[verifier::external_body]
pub(crate) fn play_nth(pos: &shakmaty::Chess, index: usize) -> (r: shakmaty::Chess)
    requires
        index < raw_legal_moves(*pos).len(),
    ensures
        r == position_after(*pos, index as int),
{
    let mut next = pos.clone();
    next.play_unchecked(&pos.legal_moves()[index]);
    next
}

/// `shakmaty::san::SanPlus::from_move`, printed, for the move that stands
/// at `index` in `shakmaty::Position::legal_moves`: its notation, with the
/// mark for check or mate.
#[verifier::external_body]
pub(crate) fn san_nth(pos: &shakmaty::Chess, index: usize) -> (r: String)
    requires
        index < raw_legal_moves(*pos).len(),
    ensures
        r@ == san_text(*pos, index as int),
{
    shakmaty::san::SanPlus::from_move(pos.clone(), &pos.legal_moves()[index]).to_string()
}

/// `uuid::Uuid::new_v4`, taken apart by `uuid::Uuid::as_fields`: a random
/// identity. Nothing is known of the value.
#[verifier::external_body]
pub(crate) fn mint_identity() -> (r: Uuid)
{
    let id = uuid::Uuid::new_v4();
    let (l, w1, w2, b) = id.as_fields();
    Uuid { l, w1, w2, b: *b }
}

/// The role with a given number; meant for numbers that name one.
pub open spec fn role_numbered(n: u8) -> Role {
    Role::numbered(n as int).unwrap()
}

/// The role with a given number, where there is a number.
pub open spec fn optional_role_numbered(n: Option<u8>) -> Option<Role> {
    match n {
        Some(n) => Some(role_numbered(n)),
        None => None,
    }
}

/// The move that a raw move stands for.
pub open spec fn decoded(raw: RawMove) -> Move {
    match raw {
        RawMove::Normal { role, from, capture, to, promotion } => Move::Normal {
            role: role_numbered(role),
            from: Square { index: from },
            capture: optional_role_numbered(capture),
            to: Square { index: to },
            promotion: optional_role_numbered(promotion),
        },
        RawMove::EnPassant { from, to } => Move::EnPassant {
            from: Square { index: from },
            to: Square { index: to },
        },
        RawMove::Castle { king, rook } => Move::Castle {
            king: Square { index: king },
            rook: Square { index: rook },
        },
        RawMove::Put { role, to } => Move::Put { role: role_numbered(role), to: Square { index: to } },
    }
}

/// The piece that a raw piece stands for.
pub open spec fn decoded_piece(raw: (bool, u8)) -> Piece {
    Piece { color: if raw.0 { Color::White } else { Color::Black }, role: role_numbered(raw.1) }
}

fn role_of(n: u8) -> (r: Role)
    requires
        is_role_number(n),
    ensures
        r == role_numbered(n),
{
    match Role::from_u8(n) {
        Some(role) => role,
        None => Role::Pawn,
    }
}

fn optional_role_of(n: Option<u8>) -> (r: Option<Role>)
    requires
        is_optional_role_number(n),
    ensures
        r == optional_role_numbered(n),
{
    match n {
        Some(n) => Some(role_of(n)),
        None => None,
    }
}

pub(crate) fn decode(raw: RawMove) -> (r: Move)
    requires
        raw.wf(),
    ensures
        r == decoded(raw),
        r.wf(),
{
    match raw {
        RawMove::Normal { role, from, capture, to, promotion } => Move::Normal {
            role: role_of(role),
            from: Square { index: from },
            capture: optional_role_of(capture),
            to: Square { index: to },
            promotion: optional_role_of(promotion),
        },
        RawMove::EnPassant { from, to } => Move::EnPassant {
            from: Square { index: from },
            to: Square { index: to },
        },
        RawMove::Castle { king, rook } => Move::Castle {
            king: Square { index: king },
            rook: Square { index: rook },
        },
        RawMove::Put { role, to } => Move::Put { role: role_of(role), to: Square { index: to } },
    }
}

pub(crate) fn decode_piece(raw: (bool, u8)) -> (r: Piece)
    requires
        is_role_number(raw.1),
    ensures
        r == decoded_piece(raw),
{
    Piece { color: if raw.0 { Color::White } else { Color::Black }, role: role_of(raw.1) }
}

} // verus!
