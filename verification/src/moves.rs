//! Chess moves as plain values, and what can be read off a move without a
//! position.

use vstd::prelude::*;
use crate::types::{coords_index, Role, Square};

verus! {

/// The wing on which a king castles.
#[derive(Clone, Copy, Debug, PartialEq, Eq, Structural)]
pub enum CastlingSide {
    KingSide,
    QueenSide,
}

impl CastlingSide {
    /// The file on which the king lands, counted from 0.
    pub open spec fn king_file(self) -> int {
        match self {
            CastlingSide::KingSide => 6,
            CastlingSide::QueenSide => 2,
        }
    }

    /// The file on which the rook lands, counted from 0.
    pub open spec fn rook_file(self) -> int {
        match self {
            CastlingSide::KingSide => 5,
            CastlingSide::QueenSide => 3,
        }
    }

    /// The file on which the king lands: g on the king's side, c on the
    /// queen's.
    pub fn king_to_file(self) -> (r: u8)
        ensures
            r == self.king_file(),
            r < 8,
    {
        match self {
            CastlingSide::KingSide => 6,
            CastlingSide::QueenSide => 2,
        }
    }

    /// The file on which the rook lands: f on the king's side, d on the
    /// queen's.
    pub fn rook_to_file(self) -> (r: u8)
        ensures
            r == self.rook_file(),
            r < 8,
    {
        match self {
            CastlingSide::KingSide => 5,
            CastlingSide::QueenSide => 3,
        }
    }
}

/// The square on the rank of `square` and on the given file.
fn on_rank_of(square: Square, file: u8) -> (r: Square)
    requires
        file < 8,
    ensures
        r.index == coords_index(file as int, square.rank_of()),
        square.wf() ==> r.wf(),
{
    let rank = square.rank();
    Square { index: rank * 8 + file }
}

/// A move.
///
/// A castling move names the king's square and the square the rook starts
/// on; where the two pieces land follows from the wing and the king's rank.
#[derive(Clone, Copy, Debug, PartialEq, Eq, Structural)]
pub enum Move {
    Normal { role: Role, from: Square, capture: Option<Role>, to: Square, promotion: Option<Role> },
    EnPassant { from: Square, to: Square },
    Castle { king: Square, rook: Square },
    Put { role: Role, to: Square },
}

impl Move {
    /// A move is valid when all its squares lie on the board.
    pub open spec fn wf(self) -> bool {
        match self {
            Move::Normal { from, to, .. } => from.wf() && to.wf(),
            Move::EnPassant { from, to } => from.wf() && to.wf(),
            Move::Castle { king, rook } => king.wf() && rook.wf(),
            Move::Put { to, .. } => to.wf(),
        }
    }

    /// The square the move starts from; a drop has none.
    pub open spec fn origin(self) -> Option<Square> {
        match self {
            Move::Normal { from, .. } => Some(from),
            Move::EnPassant { from, .. } => Some(from),
            Move::Castle { king, .. } => Some(king),
            Move::Put { .. } => None,
        }
    }

    /// The square the move names as its target: for castling, the rook's.
    pub open spec fn target(self) -> Square {
        match self {
            Move::Normal { to, .. } => to,
            Move::EnPassant { to, .. } => to,
            Move::Castle { rook, .. } => rook,
            Move::Put { to, .. } => to,
        }
    }

    /// The role of the piece taken, if any.
    pub open spec fn captured(self) -> Option<Role> {
        match self {
            Move::Normal { capture, .. } => capture,
            Move::EnPassant { .. } => Some(Role::Pawn),
            _ => None,
        }
    }

    /// The role promoted to, if any.
    pub open spec fn promoted(self) -> Option<Role> {
        match self {
            Move::Normal { promotion, .. } => promotion,
            _ => None,
        }
    }

    /// The wing of a castling move: the king's side when the rook stands
    /// on the higher square.
    pub open spec fn side(self) -> Option<CastlingSide> {
        match self {
            Move::Castle { king, rook } => Some(
                if king.index < rook.index {
                    CastlingSide::KingSide
                } else {
                    CastlingSide::QueenSide
                },
            ),
            _ => None,
        }
    }

    /// Where the moving piece ends up: the target, but for castling the
    /// king's landing square on its own rank.
    pub open spec fn destination(self) -> Square {
        match self {
            Move::Castle { king, .. } => Square {
                index: coords_index(self.side().unwrap().king_file(), king.rank_of()) as u8,
            },
            _ => self.target(),
        }
    }

    /// Where the rook of a castling move ends up, on the king's rank.
    pub open spec fn rook_destination(self) -> Option<Square> {
        match self {
            Move::Castle { king, .. } => Some(
                Square {
                    index: coords_index(self.side().unwrap().rook_file(), king.rank_of()) as u8,
                },
            ),
            _ => None,
        }
    }

    /// The square of the pawn that an en-passant capture takes: on the
    /// target's file and the capturing pawn's rank.
    pub open spec fn en_passant_victim(self) -> Option<Square> {
        match self {
            Move::EnPassant { from, to } => Some(
                Square { index: coords_index(to.file_of(), from.rank_of()) as u8 },
            ),
            _ => None,
        }
    }

    /// The square the move starts from; a drop has none.
    pub fn from(&self) -> (r: Option<Square>)
        ensures
            r == self.origin(),
    {
        match *self {
            Move::Normal { from, .. } => Some(from),
            Move::EnPassant { from, .. } => Some(from),
            Move::Castle { king, .. } => Some(king),
            Move::Put { .. } => None,
        }
    }

    /// The square the move names as its target: for castling, the rook's.
    pub fn to(&self) -> (r: Square)
        ensures
            r == self.target(),
    {
        match *self {
            Move::Normal { to, .. } => to,
            Move::EnPassant { to, .. } => to,
            Move::Castle { rook, .. } => rook,
            Move::Put { to, .. } => to,
        }
    }

    /// The role of the piece taken, if any.
    pub fn capture(&self) -> (r: Option<Role>)
        ensures
            r == self.captured(),
    {
        match *self {
            Move::Normal { capture, .. } => capture,
            Move::EnPassant { .. } => Some(Role::Pawn),
            _ => None,
        }
    }

    /// The role promoted to, if any.
    pub fn promotion(&self) -> (r: Option<Role>)
        ensures
            r == self.promoted(),
    {
        match *self {
            Move::Normal { promotion, .. } => promotion,
            _ => None,
        }
    }

    /// Whether the move promotes a pawn.
    pub fn is_promotion(&self) -> (r: bool)
        ensures
            r == self.promoted().is_some(),
    {
        self.promotion().is_some()
    }

    /// Whether the move captures en passant.
    pub fn is_en_passant(&self) -> (r: bool)
        ensures
            r == (*self is EnPassant),
    {
        match *self {
            Move::EnPassant { .. } => true,
            _ => false,
        }
    }

    /// Whether the move castles.
    pub fn is_castle(&self) -> (r: bool)
        ensures
            r == (*self is Castle),
    {
        match *self {
            Move::Castle { .. } => true,
            _ => false,
        }
    }

    /// The wing of a castling move.
    pub fn castling_side(&self) -> (r: Option<CastlingSide>)
        ensures
            r == self.side(),
    {
        match *self {
            Move::Castle { king, rook } => Some(
                if king.index < rook.index {
                    CastlingSide::KingSide
                } else {
                    CastlingSide::QueenSide
                },
            ),
            _ => None,
        }
    }

    /// Where the moving piece ends up.
    pub fn king_to(&self) -> (r: Square)
        ensures
            r == self.destination(),
            self.wf() ==> r.wf(),
    {
        match *self {
            Move::Castle { king, rook } => {
                let file = if king.index < rook.index {
                    CastlingSide::KingSide.king_to_file()
                } else {
                    CastlingSide::QueenSide.king_to_file()
                };
                on_rank_of(king, file)
            },
            _ => self.to(),
        }
    }

    /// Where the rook of a castling move ends up.
    pub fn rook_to(&self) -> (r: Option<Square>)
        ensures
            r == self.rook_destination(),
            self.wf() && r is Some ==> r.unwrap().wf(),
    {
        match *self {
            Move::Castle { king, rook } => {
                let file = if king.index < rook.index {
                    CastlingSide::KingSide.rook_to_file()
                } else {
                    CastlingSide::QueenSide.rook_to_file()
                };
                Some(on_rank_of(king, file))
            },
            _ => None,
        }
    }

    /// The square of the pawn that an en-passant capture takes.
    pub fn en_passant_square(&self) -> (r: Option<Square>)
        ensures
            r == self.en_passant_victim(),
            self.wf() && r is Some ==> r.unwrap().wf(),
    {
        match *self {
            Move::EnPassant { from, to } => Some(on_rank_of(from, to.file())),
            _ => None,
        }
    }

    /// The move with its promotion role taken away.
    pub open spec fn without_promotion(self) -> Move {
        match self {
            Move::Normal { role, from, capture, to, .. } => Move::Normal {
                role,
                from,
                capture,
                to,
                promotion: None,
            },
            _ => self,
        }
    }

    /// The move with a promotion role put in; only a normal move has room
    /// for one.
    pub open spec fn with_promotion(self, promotion: Role) -> Move {
        match self {
            Move::Normal { role, from, capture, to, .. } => Move::Normal {
                role,
                from,
                capture,
                to,
                promotion: Some(promotion),
            },
            _ => self,
        }
    }

    /// Puts a promotion role into the move; only a normal move has room
    /// for one.
    pub fn set_promotion(&mut self, role: Role)
        ensures
            *final(self) == old(self).with_promotion(role),
    {
        match *self {
            Move::Normal { role: moved, from, capture, to, .. } => {
                *self = Move::Normal { role: moved, from, capture, to, promotion: Some(role) };
            },
            _ => {},
        }
    }
}

} // verus!
