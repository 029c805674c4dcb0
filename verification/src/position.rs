//! A position of the game: what the rules engine knows of it, read as plain
//! values.

use vstd::prelude::*;
use crate::moves::Move;
use crate::rules::{
    decode, decode_piece, decoded, decoded_piece, initial_position, legal_moves_raw, piece_at_raw,
    play_nth, position_after, raw_legal_moves, raw_piece_at, san_nth, san_text, starting_piece,
    turn_is_white, white_to_move, RawMove,
};
use crate::types::{piece_default, Color, Piece, Square};

verus! {

/// An immutable snapshot of the board with the side to move. Playing a move
/// makes a new position and leaves this one as it was.
pub struct CurPosition {
    inner: shakmaty::Chess,
}

/// The squares of the board, a1 first and h8 last.
pub open spec fn all_squares() -> Seq<Square> {
    Seq::new(64, |i: int| Square { index: i as u8 })
}

/// Whether `i` is the first place at which a move occurs in a list.
pub open spec fn is_first_index(moves: Seq<Move>, m: Move, i: int) -> bool {
    &&& 0 <= i < moves.len()
    &&& moves[i] == m
    &&& forall|j: int| 0 <= j < i ==> moves[j] != m
}

/// The first place at which a move occurs in a list; meant for a move that
/// does occur.
pub open spec fn first_index(moves: Seq<Move>, m: Move) -> int {
    choose|i: int| is_first_index(moves, m, i)
}

/// Finds the first place at which a move occurs in a list.
pub fn index_of(moves: &Vec<Move>, m: &Move) -> (r: Option<usize>)
    ensures
        r is Some <==> moves@.contains(*m),
        r matches Some(i) ==> i == first_index(moves@, *m) && is_first_index(moves@, *m, i as int),
{
    let mut i: usize = 0;
    while i < moves.len()
        invariant
            i <= moves.len(),
            forall|j: int| 0 <= j < i ==> moves@[j] != *m,
        decreases moves.len() - i,
    {
        if moves[i] == *m {
            proof {
                lemma_first_index(moves@, *m, i as int);
            }
            return Some(i);
        }
        i += 1;
    }
    None
}

impl CurPosition {
    /// The position as the rules engine holds it.
    pub closed spec fn engine(self) -> shakmaty::Chess {
        self.inner
    }

    /// The legal moves, in the order in which the engine generates them.
    pub open spec fn moves(self) -> Seq<Move> {
        raw_legal_moves(self.engine()).map_values(|raw: RawMove| decoded(raw))
    }

    /// The piece on a square, if the square is on the board and occupied.
    pub open spec fn piece_on(self, square: Square) -> Option<Piece> {
        if square.wf() {
            match raw_piece_at(self.engine(), square.index) {
                Some(raw) => Some(decoded_piece(raw)),
                None => None,
            }
        } else {
            None
        }
    }

    /// The side to move.
    pub open spec fn side_to_move(self) -> Color {
        if white_to_move(self.engine()) {
            Color::White
        } else {
            Color::Black
        }
    }

    /// The occupied squares with their pieces, a1 first and h8 last.
    pub open spec fn layout(self) -> Seq<(Square, Piece)> {
        all_squares().filter_map(
            |square: Square|
                match self.piece_on(square) {
                    Some(piece) => Some((square, piece)),
                    None => None,
                },
        )
    }

    /// The position after the legal move with a given index.
    pub closed spec fn after(self, index: int) -> CurPosition {
        CurPosition { inner: position_after(self.inner, index) }
    }

    /// The notation of the legal move with a given index.
    pub open spec fn notation(self, index: int) -> Seq<char> {
        san_text(self.engine(), index)
    }

    /// Whether this is the position at the start of a game, as far as the
    /// board and the side to move go.
    pub open spec fn is_starting(self) -> bool {
        &&& self.side_to_move() == Color::White
        &&& forall|square: Square|
            square.wf() ==> #[trigger] self.piece_on(square) == (match starting_piece(
                square.index,
            ) {
                Some(raw) => Some(decoded_piece(raw)),
                None => None,
            })
    }

    /// The position at the start of a game.
    pub fn new() -> (r: CurPosition)
        ensures
            r.is_starting(),
    {
        CurPosition { inner: initial_position() }
    }

    /// The legal moves.
    pub fn legal_moves(&self) -> (r: Vec<Move>)
        ensures
            r@ == self.moves(),
            forall|i: int| 0 <= i < r@.len() ==> (#[trigger] r@[i]).wf(),
    {
        let raw = legal_moves_raw(&self.inner);
        let mut moves: Vec<Move> = Vec::new();
        let mut i: usize = 0;
        while i < raw.len()
            invariant
                i <= raw.len(),
                raw@ == raw_legal_moves(self.engine()),
                forall|j: int| 0 <= j < raw@.len() ==> (#[trigger] raw@[j]).wf(),
                moves@ == raw@.take(i as int).map_values(|raw: RawMove| decoded(raw)),
                forall|j: int| 0 <= j < moves@.len() ==> (#[trigger] moves@[j]).wf(),
            decreases raw.len() - i,
        {
            moves.push(decode(raw[i]));
            proof {
                assert(raw@.take(i + 1) == raw@.take(i as int).push(raw@[i as int]));
            }
            i += 1;
        }
        proof {
            assert(raw@.take(raw.len() as int) == raw@);
        }
        moves
    }

    /// The side to move.
    pub fn turn(&self) -> (r: Color)
        ensures
            r == self.side_to_move(),
    {
        if turn_is_white(&self.inner) {
            Color::White
        } else {
            Color::Black
        }
    }

    /// The piece on a square, if any.
    pub fn piece(&self, square: Square) -> (r: Option<Piece>)
        ensures
            r == self.piece_on(square),
    {
        if square.index < 64 {
            match piece_at_raw(&self.inner, square.index) {
                Some(raw) => Some(decode_piece(raw)),
                None => None,
            }
        } else {
            None
        }
    }

    /// Whether a piece stands on a square.
    pub fn has_piece_at(&self, square: Square) -> (r: bool)
        ensures
            r == self.piece_on(square).is_some(),
    {
        self.piece(square).is_some()
    }

    /// The piece on a square, or a black knight where there is none.
    pub fn piece_at(&self, square: Square) -> (r: Piece)
        ensures
            r == (match self.piece_on(square) {
                Some(piece) => piece,
                None => Piece { color: Color::Black, role: crate::types::Role::Knight },
            }),
    {
        match self.piece(square) {
            Some(piece) => piece,
            None => piece_default(),
        }
    }

    /// The occupied squares with their pieces, a1 first and h8 last.
    pub fn board(&self) -> (r: Vec<(Square, Piece)>)
        ensures
            r@ == self.layout(),
    {
        let mut out: Vec<(Square, Piece)> = Vec::new();
        let ghost pick = |square: Square|
            match self.piece_on(square) {
                Some(piece) => Some((square, piece)),
                None => None,
            };
        let mut i: u8 = 0;
        while i < 64
            invariant
                i <= 64,
                pick == (|square: Square|
                    match self.piece_on(square) {
                        Some(piece) => Some((square, piece)),
                        None => None,
                    }),
                out@ == all_squares().take(i as int).filter_map(pick),
            decreases 64 - i,
        {
            let square = Square { index: i };
            proof {
                all_squares().lemma_filter_map_take_succ(pick, i as int);
                assert(all_squares()[i as int] == square);
            }
            match self.piece(square) {
                Some(piece) => {
                    out.push((square, piece));
                },
                None => {},
            }
            i += 1;
        }
        proof {
            assert(all_squares().take(64) == all_squares());
        }
        out
    }

    /// The occupied squares, a1 first and h8 last.
    pub fn squares(&self) -> (r: Vec<Square>)
        ensures
            r@ == self.layout().map_values(|entry: (Square, Piece)| entry.0),
    {
        let board = self.board();
        let mut out: Vec<Square> = Vec::new();
        let mut i: usize = 0;
        while i < board.len()
            invariant
                i <= board.len(),
                out@ == board@.take(i as int).map_values(|entry: (Square, Piece)| entry.0),
            decreases board.len() - i,
        {
            out.push(board[i].0);
            proof {
                assert(board@.take(i + 1) == board@.take(i as int).push(board@[i as int]));
            }
            i += 1;
        }
        proof {
            assert(board@.take(board.len() as int) == board@);
        }
        out
    }

    /// The pieces on the occupied squares, in the order of `squares`.
    pub fn pieces(&self) -> (r: Vec<Piece>)
        ensures
            r@ == self.layout().map_values(|entry: (Square, Piece)| entry.1),
    {
        let board = self.board();
        let mut out: Vec<Piece> = Vec::new();
        let mut i: usize = 0;
        while i < board.len()
            invariant
                i <= board.len(),
                out@ == board@.take(i as int).map_values(|entry: (Square, Piece)| entry.1),
            decreases board.len() - i,
        {
            out.push(board[i].1);
            proof {
                assert(board@.take(i + 1) == board@.take(i as int).push(board@[i as int]));
            }
            i += 1;
        }
        proof {
            assert(board@.take(board.len() as int) == board@);
        }
        out
    }

    /// The position after the legal move with a given index.
    pub(crate) fn play_index(&self, index: usize) -> (r: CurPosition)
        requires
            index < self.moves().len(),
        ensures
            r == self.after(index as int),
    {
        CurPosition { inner: play_nth(&self.inner, index) }
    }

    /// The notation of the legal move with a given index.
    pub(crate) fn san_index(&self, index: usize) -> (r: String)
        requires
            index < self.moves().len(),
        ensures
            r@ == self.notation(index as int),
    {
        san_nth(&self.inner, index)
    }

    /// Plays a move: the position after it, where the move is legal here.
    pub fn play(&self, m: &Move) -> (r: Option<CurPosition>)
        ensures
            r is Some <==> self.moves().contains(*m),
            r matches Some(next) ==> next == self.after(first_index(self.moves(), *m)),
    {
        let moves = self.legal_moves();
        match index_of(&moves, m) {
            Some(index) => {
                Some(self.play_index(index))
            },
            None => None,
        }
    }

    /// The notation of a move, where the move is legal here.
    pub fn san(&self, m: &Move) -> (r: Option<String>)
        ensures
            r is Some <==> self.moves().contains(*m),
            r matches Some(text) ==> text@ == self.notation(first_index(self.moves(), *m)),
    {
        let moves = self.legal_moves();
        match index_of(&moves, m) {
            Some(index) => {
                Some(self.san_index(index))
            },
            None => None,
        }
    }
}

/// A move has at most one first place in a list: whichever place is the
/// first is the one that `first_index` names.
pub proof fn lemma_first_index(moves: Seq<Move>, m: Move, i: int)
    requires
        is_first_index(moves, m, i),
    ensures
        moves.contains(m),
        first_index(moves, m) == i,
{
    let k = first_index(moves, m);
    assert(is_first_index(moves, m, k));
    if k < i {
        assert(moves[k] != m);
    }
    if i < k {
        assert(moves[i] != m);
    }
}

} // verus!
