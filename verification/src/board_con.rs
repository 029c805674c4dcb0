//! The board's presentation state: what the drawing surface binds to, and how
//! each backend event changes it.

use vstd::prelude::*;
use crate::signals::{Event, PieceSignals};
use crate::slots::{DragSlots, MouseEventSlots, Slots};

verus! {

/// Events that the drawing surface acts on directly, piece by piece.
#[derive(Clone, Debug, PartialEq, Eq)]
pub enum Signals {
    ResetBoard { initial_squares: Vec<u8>, initial_pieces: Vec<u8> },
    PlacePiece { id: u8, square: u8 },
    MovePiece { src_square: u8, dest_square: u8 },
    RemovePiece { square: u8 },
}

/// What a [`Signals`] value says, with its collections as sequences.
pub enum Drawing {
    ResetBoard { initial_squares: Seq<u8>, initial_pieces: Seq<u8> },
    PlacePiece { id: u8, square: u8 },
    MovePiece { src_square: u8, dest_square: u8 },
    RemovePiece { square: u8 },
}

impl View for Signals {
    type V = Drawing;

    open spec fn view(&self) -> Drawing {
        match *self {
            Signals::ResetBoard { initial_squares, initial_pieces } => Drawing::ResetBoard {
                initial_squares: initial_squares@,
                initial_pieces: initial_pieces@,
            },
            Signals::PlacePiece { id, square } => Drawing::PlacePiece { id, square },
            Signals::MovePiece { src_square, dest_square } => Drawing::MovePiece {
                src_square,
                dest_square,
            },
            Signals::RemovePiece { square } => Drawing::RemovePiece { square },
        }
    }
}

/// The properties of the board.
pub struct BoardCon {
    /// Side length of a square, in pixels.
    pub piece_size: u32,
    /// Piece shown under the pointer while dragging, -1 for none.
    pub phantom_id: i8,
    pub hint_sq: Vec<u8>,
    pub capture_sq: Vec<u8>,
    /// Selected square, -1 for none.
    pub highlight_sq: i8,
    /// Origin and target of the move last played, -1 for none.
    pub last_src_sq: i8,
    pub last_dest_sq: i8,
    /// File of the pending promotion, -1 for none.
    pub promoting_file: i8,
    pub pgn: String,
    /// Whether a backend is listening for commands.
    pub connected: bool,
}

/// The properties of a [`BoardCon`], with its collections as sequences.
pub struct Properties {
    pub piece_size: u32,
    pub phantom_id: i8,
    pub hint_sq: Seq<u8>,
    pub capture_sq: Seq<u8>,
    pub highlight_sq: i8,
    pub last_src_sq: i8,
    pub last_dest_sq: i8,
    pub promoting_file: i8,
    pub pgn: Seq<char>,
    pub connected: bool,
}

impl View for BoardCon {
    type V = Properties;

    open spec fn view(&self) -> Properties {
        Properties {
            piece_size: self.piece_size,
            phantom_id: self.phantom_id,
            hint_sq: self.hint_sq@,
            capture_sq: self.capture_sq@,
            highlight_sq: self.highlight_sq,
            last_src_sq: self.last_src_sq,
            last_dest_sq: self.last_dest_sq,
            promoting_file: self.promoting_file,
            pgn: self.pgn@,
            connected: self.connected,
        }
    }
}

/// The signed property value of an optional byte: the byte reinterpreted as
/// a signed one, or -1 where there is none.
pub open spec fn signed_or_none(value: Option<u8>) -> i8 {
    match value {
        Some(v) => if v < 128 {
            v as i8
        } else {
            (v - 256) as i8
        },
        None => -1i8,
    }
}

/// The first components of a sequence of pairs.
pub open spec fn firsts(pairs: Seq<(u8, u8)>) -> Seq<u8> {
    pairs.map_values(|p: (u8, u8)| p.0)
}

/// The second components of a sequence of pairs.
pub open spec fn seconds(pairs: Seq<(u8, u8)>) -> Seq<u8> {
    pairs.map_values(|p: (u8, u8)| p.1)
}

/// The properties after an event has been applied.
pub open spec fn properties_after(before: Properties, event: Event) -> Properties {
    match event {
        Event::Reset { .. } | Event::Piece(_) => before,
        Event::Phantom { id } => Properties { phantom_id: signed_or_none(id), ..before },
        Event::Hint { squares } => Properties { hint_sq: squares, ..before },
        Event::Capture { squares } => Properties { capture_sq: squares, ..before },
        Event::Highlight { square } => Properties { highlight_sq: signed_or_none(square), ..before },
        Event::LastMove { src_square, dest_square } => Properties {
            last_src_sq: signed_or_none(src_square),
            last_dest_sq: signed_or_none(dest_square),
            ..before
        },
        Event::Promoting { file } => Properties { promoting_file: signed_or_none(file), ..before },
        Event::PGN { string } => Properties { pgn: string, ..before },
    }
}

/// What an event asks the drawing surface to do, if anything.
pub open spec fn drawing_for(event: Event) -> Option<Drawing> {
    match event {
        Event::Reset { initial } => Some(
            Drawing::ResetBoard {
                initial_squares: firsts(initial),
                initial_pieces: seconds(initial),
            },
        ),
        Event::Piece(PieceSignals::Place { id, square }) => Some(Drawing::PlacePiece { id, square }),
        Event::Piece(PieceSignals::Move { src_square, dest_square }) => Some(
            Drawing::MovePiece { src_square, dest_square },
        ),
        Event::Piece(PieceSignals::Remove { square }) => Some(Drawing::RemovePiece { square }),
        _ => None,
    }
}

/// The view of an optional drawing signal.
pub open spec fn drawn(signal: Option<Signals>) -> Option<Drawing> {
    match signal {
        Some(s) => Some(s@),
        None => None,
    }
}

fn to_signed(value: Option<u8>) -> (r: i8)
    ensures
        r == signed_or_none(value),
{
    match value {
        Some(v) => if v < 128 {
            v as i8
        } else {
            let low: u8 = v - 128;
            (low as i8) + i8::MIN
        },
        None => -1,
    }
}

fn split_pairs(pairs: &Vec<(u8, u8)>) -> (r: (Vec<u8>, Vec<u8>))
    ensures
        r.0@ == firsts(pairs@),
        r.1@ == seconds(pairs@),
{
    let mut left: Vec<u8> = Vec::new();
    let mut right: Vec<u8> = Vec::new();
    let mut i: usize = 0;
    while i < pairs.len()
        invariant
            i <= pairs.len(),
            left@ == firsts(pairs@.take(i as int)),
            right@ == seconds(pairs@.take(i as int)),
        decreases pairs.len() - i,
    {
        let pair = pairs[i];
        left.push(pair.0);
        right.push(pair.1);
        proof {
            assert(pairs@.take(i + 1) == pairs@.take(i as int).push(pairs@[i as int]));
        }
        i += 1;
    }
    proof {
        assert(pairs@.take(pairs.len() as int) == pairs@);
    }
    (left, right)
}

impl Default for BoardCon {
    fn default() -> (r: BoardCon)
        ensures
            r@ == (Properties {
                piece_size: 8,
                phantom_id: -1i8,
                hint_sq: Seq::empty(),
                capture_sq: Seq::empty(),
                highlight_sq: -1i8,
                last_src_sq: -1i8,
                last_dest_sq: -1i8,
                promoting_file: -1i8,
                pgn: Seq::empty(),
                connected: false,
            }),
    {
        BoardCon {
            piece_size: 8,
            phantom_id: -1,
            hint_sq: Vec::new(),
            capture_sq: Vec::new(),
            highlight_sq: -1,
            last_src_sq: -1,
            last_dest_sq: -1,
            promoting_file: -1,
            pgn: String::new(),
            connected: false,
        }
    }
}

impl BoardCon {
    /// Applies one backend event: a property changes, or a drawing signal is
    /// handed back for the surface to act on.
    pub fn handle_signal(&mut self, signal: crate::signals::Signals) -> (r: Option<Signals>)
        ensures
            final(self)@ == properties_after(old(self)@, signal@),
            drawn(r) == drawing_for(signal@),
    {
        match signal {
            crate::signals::Signals::Reset { initial } => {
                let (initial_squares, initial_pieces) = split_pairs(&initial);
                Some(Signals::ResetBoard { initial_squares, initial_pieces })
            },
            crate::signals::Signals::Piece(piece) => match piece {
                PieceSignals::Place { id, square } => Some(Signals::PlacePiece { id, square }),
                PieceSignals::Move { src_square, dest_square } => Some(
                    Signals::MovePiece { src_square, dest_square },
                ),
                PieceSignals::Remove { square } => Some(Signals::RemovePiece { square }),
            },
            crate::signals::Signals::Phantom { id } => {
                self.phantom_id = to_signed(id);
                None
            },
            crate::signals::Signals::Hint { squares } => {
                self.hint_sq = squares;
                None
            },
            crate::signals::Signals::Capture { squares } => {
                self.capture_sq = squares;
                None
            },
            crate::signals::Signals::Highlight { square } => {
                self.highlight_sq = to_signed(square);
                None
            },
            crate::signals::Signals::LastMove { src_square, dest_square } => {
                self.last_src_sq = to_signed(src_square);
                self.last_dest_sq = to_signed(dest_square);
                None
            },
            crate::signals::Signals::Promoting { file } => {
                self.promoting_file = to_signed(file);
                None
            },
            crate::signals::Signals::PGN { string } => {
                self.pgn = string;
                None
            },
        }
    }

    /// The command to send, where a backend is listening.
    pub open spec fn outgoing(self, slot: Slots) -> Option<Slots> {
        if self.connected {
            Some(slot)
        } else {
            None
        }
    }

    /// A command on its way out: handed on where a backend is listening,
    /// dropped where none is.
    pub fn try_tx(&self, slot: Slots) -> (r: Option<Slots>)
        ensures
            r == self.outgoing(slot),
    {
        if self.connected {
            Some(slot)
        } else {
            None
        }
    }

    /// Asks for the whole layout again.
    pub fn resync_board(&self) -> (r: Option<Slots>)
        ensures
            r == self.outgoing(Slots::Resync),
    {
        self.try_tx(Slots::Resync)
    }

    /// A click at a pixel position.
    pub fn coord_clicked(&self, x: u32, y: u32) -> (r: Option<Slots>)
        ensures
            r == self.outgoing(
                Slots::MouseEvent {
                    slot: MouseEventSlots::Clicked { x, y },
                    piece_size: self.piece_size,
                },
            ),
    {
        self.try_tx(
            Slots::MouseEvent { slot: MouseEventSlots::Clicked { x, y }, piece_size: self.piece_size },
        )
    }

    /// The start of a drag at a pixel position.
    pub fn coord_drag_started(&self, src_x: u32, src_y: u32) -> (r: Option<Slots>)
        ensures
            r == self.outgoing(
                Slots::MouseEvent {
                    slot: MouseEventSlots::Drag(DragSlots::Started { src_x, src_y }),
                    piece_size: self.piece_size,
                },
            ),
    {
        self.try_tx(
            Slots::MouseEvent {
                slot: MouseEventSlots::Drag(DragSlots::Started { src_x, src_y }),
                piece_size: self.piece_size,
            },
        )
    }

    /// The end of a drag at a pixel position.
    pub fn coord_drag_ended(&self, dest_x: u32, dest_y: u32) -> (r: Option<Slots>)
        ensures
            r == self.outgoing(
                Slots::MouseEvent {
                    slot: MouseEventSlots::Drag(DragSlots::Ended { dest_x, dest_y }),
                    piece_size: self.piece_size,
                },
            ),
    {
        self.try_tx(
            Slots::MouseEvent {
                slot: MouseEventSlots::Drag(DragSlots::Ended { dest_x, dest_y }),
                piece_size: self.piece_size,
            },
        )
    }

    /// The role picked for the pending promotion.
    pub fn promote(&self, piece_id: u8) -> (r: Option<Slots>)
        ensures
            r == self.outgoing(Slots::Promote { id: piece_id }),
    {
        self.try_tx(Slots::Promote { id: piece_id })
    }

    /// One step back towards the root.
    pub fn prev_move(&self) -> (r: Option<Slots>)
        ensures
            r == self.outgoing(Slots::Traverse { forward: false }),
    {
        self.try_tx(Slots::Traverse { forward: false })
    }

    /// One step forward along the mainline.
    pub fn next_move(&self) -> (r: Option<Slots>)
        ensures
            r == self.outgoing(Slots::Traverse { forward: true }),
    {
        self.try_tx(Slots::Traverse { forward: true })
    }
}

} // verus!
