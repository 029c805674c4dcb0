//! Turning a pair of squares into a move: which legal move a gesture from
//! one square to another means, and which squares a piece can reach.

use vstd::prelude::*;
use crate::moves::Move;
use crate::position::CurPosition;
use crate::types::Square;

verus! {

/// Whether a move leads from `src` to `dest`.
///
/// A castling move leads to the square where its king lands and, just as
/// well, to the square of its rook; every other move leads to its target.
pub open spec fn connects(m: Move, src: Square, dest: Square) -> bool {
    &&& m.origin() == Some(src)
    &&& if m is Castle {
        m.destination() == dest || m.target() == dest
    } else {
        m.target() == dest
    }
}

/// Whether `i` is the first move of a list that leads from `src` to `dest`.
pub open spec fn is_resolution(moves: Seq<Move>, src: Square, dest: Square, i: int) -> bool {
    &&& 0 <= i < moves.len()
    &&& connects(moves[i], src, dest)
    &&& forall|j: int| 0 <= j < i ==> !connects(#[trigger] moves[j], src, dest)
}

/// The index of the first move of a list that leads from `src` to `dest`.
pub open spec fn resolution(moves: Seq<Move>, src: Square, dest: Square) -> Option<int> {
    if exists|i: int| is_resolution(moves, src, dest, i) {
        Some(choose|i: int| is_resolution(moves, src, dest, i))
    } else {
        None
    }
}

/// The first connecting move is the only resolution there is.
pub proof fn lemma_resolution_unique(moves: Seq<Move>, src: Square, dest: Square, i: int)
    requires
        is_resolution(moves, src, dest, i),
    ensures
        resolution(moves, src, dest) == Some(i),
{
    let k = choose|k: int| is_resolution(moves, src, dest, k);
    assert(is_resolution(moves, src, dest, k));
    if k < i {
        assert(!connects(moves[k], src, dest));
    }
    if i < k {
        assert(!connects(moves[i], src, dest));
    }
}

/// Where no move connects, there is no resolution.
pub proof fn lemma_resolution_none(moves: Seq<Move>, src: Square, dest: Square)
    requires
        forall|j: int| 0 <= j < moves.len() ==> !connects(#[trigger] moves[j], src, dest),
    ensures
        resolution(moves, src, dest) is None,
{
    if exists|i: int| is_resolution(moves, src, dest, i) {
        let i = choose|i: int| is_resolution(moves, src, dest, i);
        assert(connects(moves[i], src, dest));
    }
}

/// A pair of squares resolves to a move exactly when some move of the list
/// leads from the one to the other; the move it resolves to does lead there,
/// and no earlier move of the list does.
pub proof fn lemma_resolves_iff_connected(moves: Seq<Move>, src: Square, dest: Square)
    ensures
        resolution(moves, src, dest) is Some <==> exists|i: int|
            0 <= i < moves.len() && connects(#[trigger] moves[i], src, dest),
        resolution(moves, src, dest) matches Some(i) ==> is_resolution(moves, src, dest, i),
{
    if exists|i: int| 0 <= i < moves.len() && connects(#[trigger] moves[i], src, dest) {
        let i = choose|i: int| 0 <= i < moves.len() && connects(#[trigger] moves[i], src, dest);
        lemma_least_connecting(moves, src, dest, i);
    }
}

/// Below any connecting move there is a first one.
proof fn lemma_least_connecting(moves: Seq<Move>, src: Square, dest: Square, i: int)
    requires
        0 <= i < moves.len(),
        connects(moves[i], src, dest),
    ensures
        exists|k: int| is_resolution(moves, src, dest, k),
    decreases i,
{
    if exists|j: int| 0 <= j < i && connects(#[trigger] moves[j], src, dest) {
        let j = choose|j: int| 0 <= j < i && connects(#[trigger] moves[j], src, dest);
        lemma_least_connecting(moves, src, dest, j);
    } else {
        assert(is_resolution(moves, src, dest, i));
    }
}

/// Whether a move leads from `src` to `dest`.
pub fn leads(m: &Move, src: Square, dest: Square) -> (r: bool)
    ensures
        r == connects(*m, src, dest),
{
    match m.from() {
        Some(from) => {
            if from != src {
                return false;
            }
            if m.is_castle() {
                m.king_to() == dest || m.to() == dest
            } else {
                m.to() == dest
            }
        },
        None => false,
    }
}

/// Resolves a pair of squares against a list of moves: the index of the
/// first move that leads from `src` to `dest`.
pub fn resolve_in(moves: &Vec<Move>, src: Square, dest: Square) -> (r: Option<usize>)
    ensures
        r is Some <==> exists|i: int|
            0 <= i < moves@.len() && connects(#[trigger] moves@[i], src, dest),
        r is Some <==> resolution(moves@, src, dest) is Some,
        r matches Some(i) ==> resolution(moves@, src, dest) == Some(i as int) && is_resolution(
            moves@,
            src,
            dest,
            i as int,
        ),
{
    proof {
        lemma_resolves_iff_connected(moves@, src, dest);
    }
    let mut i: usize = 0;
    while i < moves.len()
        invariant
            i <= moves.len(),
            forall|j: int| 0 <= j < i ==> !connects(#[trigger] moves@[j], src, dest),
        decreases moves.len() - i,
    {
        if leads(&moves[i], src, dest) {
            proof {
                lemma_resolution_unique(moves@, src, dest, i as int);
            }
            return Some(i);
        }
        i += 1;
    }
    proof {
        lemma_resolution_none(moves@, src, dest);
    }
    None
}

/// The moves of a list that start from a square, in the order of the list.
pub open spec fn starting_from(moves: Seq<Move>, src: Square) -> Seq<Move> {
    moves.filter(|m: Move| m.origin() == Some(src))
}

/// Whether two moves are promotions to the same square, whatever the role.
pub open spec fn same_promotion(a: Move, b: Move) -> bool {
    a.promoted() is Some && b.promoted() is Some && a.target() == b.target()
}

/// A list of moves with every promotion dropped that follows a promotion to
/// the same square: of the choices of role only the first is left.
pub open spec fn collapsed(moves: Seq<Move>) -> Seq<Move>
    decreases moves.len(),
{
    if moves.len() == 0 {
        moves
    } else if moves.len() >= 2 && same_promotion(moves[moves.len() - 2], moves.last()) {
        collapsed(moves.drop_last())
    } else {
        collapsed(moves.drop_last()).push(moves.last())
    }
}

/// The target of a move that neither castles nor captures.
pub open spec fn quiet_target(m: Move) -> Option<Square> {
    if !(m is Castle) && m.captured() is None {
        Some(m.target())
    } else {
        None
    }
}

/// The target of a capture.
pub open spec fn capture_target(m: Move) -> Option<Square> {
    if !(m is Castle) && m.captured() is Some {
        Some(m.target())
    } else {
        None
    }
}

/// The square where the king of a castling move lands.
pub open spec fn castle_king_target(m: Move) -> Option<Square> {
    if m is Castle {
        Some(m.destination())
    } else {
        None
    }
}

/// The square of the rook of a castling move.
pub open spec fn castle_rook_square(m: Move) -> Option<Square> {
    if m is Castle {
        Some(m.target())
    } else {
        None
    }
}

/// The squares to mark as reachable by a quiet move: the targets of the
/// quiet moves, then the king's landing square of each castling move.
pub open spec fn hint_squares(moves: Seq<Move>, src: Square) -> Seq<Square> {
    let candidates = collapsed(starting_from(moves, src));
    candidates.filter_map(|m: Move| quiet_target(m)) + candidates.filter_map(
        |m: Move| castle_king_target(m),
    )
}

/// The squares to mark as reachable by a capture: the targets of the
/// captures, then the rook's square of each castling move.
pub open spec fn capture_squares(moves: Seq<Move>, src: Square) -> Seq<Square> {
    let candidates = collapsed(starting_from(moves, src));
    candidates.filter_map(|m: Move| capture_target(m)) + candidates.filter_map(
        |m: Move| castle_rook_square(m),
    )
}

fn moves_from(moves: &Vec<Move>, src: Square) -> (r: Vec<Move>)
    ensures
        r@ == starting_from(moves@, src),
{
    let mut out: Vec<Move> = Vec::new();
    let ghost keep = |m: Move| m.origin() == Some(src);
    let mut i: usize = 0;
    while i < moves.len()
        invariant
            i <= moves.len(),
            keep == (|m: Move| m.origin() == Some(src)),
            out@ == moves@.take(i as int).filter(keep),
        decreases moves.len() - i,
    {
        let m = moves[i];
        proof {
            assert(moves@.take(i + 1) == moves@.take(i as int).push(m));
            moves@.take(i as int).lemma_filter_push(m, keep);
        }
        match m.from() {
            Some(from) => {
                if from == src {
                    out.push(m);
                }
            },
            None => {},
        }
        i += 1;
    }
    proof {
        assert(moves@.take(moves.len() as int) == moves@);
    }
    out
}

fn collapse(moves: &Vec<Move>) -> (r: Vec<Move>)
    ensures
        r@ == collapsed(moves@),
{
    let mut out: Vec<Move> = Vec::new();
    let mut i: usize = 0;
    while i < moves.len()
        invariant
            i <= moves.len(),
            out@ == collapsed(moves@.take(i as int)),
        decreases moves.len() - i,
    {
        let m = moves[i];
        proof {
            let next = moves@.take(i + 1);
            assert(next.drop_last() == moves@.take(i as int));
            assert(next.last() == m);
            if i >= 1 {
                assert(next[next.len() - 2] == moves@[i - 1]);
            }
        }
        let repeats = i >= 1 && m.is_promotion() && moves[i - 1].is_promotion() && moves[i
            - 1].to() == m.to();
        if !repeats {
            out.push(m);
        }
        i += 1;
    }
    proof {
        assert(moves@.take(moves.len() as int) == moves@);
    }
    out
}

/// The hint and capture squares of a list of moves for a piece on `src`.
pub fn hints_in(moves: &Vec<Move>, src: Square) -> (r: (Vec<Square>, Vec<Square>))
    ensures
        r.0@ == hint_squares(moves@, src),
        r.1@ == capture_squares(moves@, src),
{
    let from_src = moves_from(moves, src);
    let candidates = collapse(&from_src);
    let ghost quiet = |m: Move| quiet_target(m);
    let ghost taking = |m: Move| capture_target(m);
    let ghost king = |m: Move| castle_king_target(m);
    let ghost rook = |m: Move| castle_rook_square(m);
    let mut move_vec: Vec<Square> = Vec::new();
    let mut capture_vec: Vec<Square> = Vec::new();
    let mut i: usize = 0;
    while i < candidates.len()
        invariant
            i <= candidates.len(),
            quiet == (|m: Move| quiet_target(m)),
            taking == (|m: Move| capture_target(m)),
            move_vec@ == candidates@.take(i as int).filter_map(quiet),
            capture_vec@ == candidates@.take(i as int).filter_map(taking),
        decreases candidates.len() - i,
    {
        let m = candidates[i];
        proof {
            candidates@.lemma_filter_map_take_succ(quiet, i as int);
            candidates@.lemma_filter_map_take_succ(taking, i as int);
        }
        if !m.is_castle() {
            if m.capture().is_some() {
                capture_vec.push(m.to());
            } else {
                move_vec.push(m.to());
            }
        }
        i += 1;
    }
    let ghost quiet_part = move_vec@;
    let ghost taking_part = capture_vec@;
    let mut k: usize = 0;
    while k < candidates.len()
        invariant
            k <= candidates.len(),
            king == (|m: Move| castle_king_target(m)),
            rook == (|m: Move| castle_rook_square(m)),
            move_vec@ == quiet_part + candidates@.take(k as int).filter_map(king),
            capture_vec@ == taking_part + candidates@.take(k as int).filter_map(rook),
        decreases candidates.len() - k,
    {
        let m = candidates[k];
        proof {
            candidates@.lemma_filter_map_take_succ(king, k as int);
            candidates@.lemma_filter_map_take_succ(rook, k as int);
        }
        if m.is_castle() {
            move_vec.push(m.king_to());
            capture_vec.push(m.to());
        }
        k += 1;
    }
    proof {
        assert(candidates@.take(candidates.len() as int) == candidates@);
    }
    (move_vec, capture_vec)
}

impl CurPosition {
    /// The legal move that a gesture from `src` to `dest` means, if any,
    /// with its index among the legal moves.
    pub fn resolve(&self, src: Square, dest: Square) -> (r: Option<(usize, Move)>)
        ensures
            r is Some <==> exists|i: int|
                0 <= i < self.moves().len() && connects(#[trigger] self.moves()[i], src, dest),
            r is Some <==> resolution(self.moves(), src, dest) is Some,
            r matches Some((i, m)) ==> {
                &&& resolution(self.moves(), src, dest) == Some(i as int)
                &&& is_resolution(self.moves(), src, dest, i as int)
                &&& m == self.moves()[i as int]
                &&& m.wf()
            },
    {
        let moves = self.legal_moves();
        match resolve_in(&moves, src, dest) {
            Some(i) => Some((i, moves[i])),
            None => None,
        }
    }

    /// Whether some legal move leads from `src` to `dest`.
    pub fn has_legal_move(&self, src: Square, dest: Square) -> (r: bool)
        ensures
            r == resolution(self.moves(), src, dest).is_some(),
    {
        self.resolve(src, dest).is_some()
    }

    /// The squares to mark for a piece on `src`: those it reaches by a quiet
    /// move, and those it reaches by a capture.
    pub fn move_hints(&self, src: Square) -> (r: (Vec<Square>, Vec<Square>))
        ensures
            r.0@ == hint_squares(self.moves(), src),
            r.1@ == capture_squares(self.moves(), src),
    {
        let moves = self.legal_moves();
        hints_in(&moves, src)
    }

    /// The squares that a piece on `src` reaches by a quiet move.
    pub fn hints(&self, src: Square) -> (r: Vec<Square>)
        ensures
            r@ == hint_squares(self.moves(), src),
    {
        let (hint_vec, _) = self.move_hints(src);
        hint_vec
    }

    /// The squares that a piece on `src` reaches by a capture.
    pub fn captures(&self, src: Square) -> (r: Vec<Square>)
        ensures
            r@ == capture_squares(self.moves(), src),
    {
        let (_, capture_vec) = self.move_hints(src);
        capture_vec
    }
}

} // verus!
