//! The presentation events that the backend emits, in the order in which the
//! board has to apply them.

use vstd::prelude::*;

verus! {

/// Events about a single piece on the board.
#[derive(Clone, Copy, Debug, PartialEq, Eq, Structural)]
pub enum PieceSignals {
    Place { id: u8, square: u8 },
    Move { src_square: u8, dest_square: u8 },
    Remove { square: u8 },
}

/// One presentation event.
#[derive(Clone, Debug, PartialEq, Eq)]
pub enum Signals {
    /// The whole layout, as pairs of a square and the number of its piece.
    Reset { initial: Vec<(u8, u8)> },
    Piece(PieceSignals),
    /// The piece shown under the pointer while dragging, or none.
    Phantom { id: Option<u8> },
    /// Squares reachable by a quiet move.
    Hint { squares: Vec<u8> },
    /// Squares reachable by a capture.
    Capture { squares: Vec<u8> },
    Highlight { square: Option<u8> },
    LastMove { src_square: Option<u8>, dest_square: Option<u8> },
    /// The file on which a promotion awaits its role, plus 10 for Black.
    Promoting { file: Option<u8> },
    /// The movetext of the whole game.
    PGN { string: String },
}

impl From<PieceSignals> for Signals {
    fn from(signals: PieceSignals) -> (r: Signals) {
        Signals::Piece(signals)
    }
}

impl vstd::std_specs::convert::FromSpecImpl<PieceSignals> for Signals {
    open spec fn obeys_from_spec() -> bool {
        true
    }

    open spec fn from_spec(signals: PieceSignals) -> Signals {
        Signals::Piece(signals)
    }
}

/// What a [`Signals`] value says, with its collections as sequences.
pub enum Event {
    Reset { initial: Seq<(u8, u8)> },
    Piece(PieceSignals),
    Phantom { id: Option<u8> },
    Hint { squares: Seq<u8> },
    Capture { squares: Seq<u8> },
    Highlight { square: Option<u8> },
    LastMove { src_square: Option<u8>, dest_square: Option<u8> },
    Promoting { file: Option<u8> },
    PGN { string: Seq<char> },
}

impl View for Signals {
    type V = Event;

    open spec fn view(&self) -> Event {
        match *self {
            Signals::Reset { initial } => Event::Reset { initial: initial@ },
            Signals::Piece(piece) => Event::Piece(piece),
            Signals::Phantom { id } => Event::Phantom { id },
            Signals::Hint { squares } => Event::Hint { squares: squares@ },
            Signals::Capture { squares } => Event::Capture { squares: squares@ },
            Signals::Highlight { square } => Event::Highlight { square },
            Signals::LastMove { src_square, dest_square } => Event::LastMove {
                src_square,
                dest_square,
            },
            Signals::Promoting { file } => Event::Promoting { file },
            Signals::PGN { string } => Event::PGN { string: string@ },
        }
    }
}

/// The events of a batch of signals, in order.
pub open spec fn events(signals: Seq<Signals>) -> Seq<Event> {
    signals.map_values(|s: Signals| s@)
}

} // verus!
