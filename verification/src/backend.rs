//! The interaction backend: a state machine that takes the board's commands
//! one at a time and answers each with the presentation events to apply, in
//! order.
//!
//! The state is the node being shown, the square selected by a click, the
//! piece in the air during a drag, and a promotion that still awaits its
//! role. A promotion is staged first and enters the game tree only once the
//! role is chosen.

use vstd::prelude::*;
use crate::game::movetext::movetext;
use crate::game::{can_extend, contains, extended, place_of, Game, GameError, NodeView};
use crate::moves::Move;
use crate::position::CurPosition;
use crate::resolver::{capture_squares, hint_squares, resolution};
use crate::rules::mint_identity;
use crate::signals::{events, Event, PieceSignals, Signals};
use crate::slots::{DragSlots, MouseEventSlots, Slots};
use crate::types::{square_from_coords, Color, Piece, Role, Square, Uuid};

verus! {

/// The number under which the board knows a piece: 0 to 5 for White's pawn
/// to king, 10 to 15 for Black's.
pub open spec fn piece_number(piece: Piece) -> u8 {
    if piece.color == Color::White {
        (piece.role.number() - 1) as u8
    } else {
        (piece.role.number() + 9) as u8
    }
}

/// The number under which the board knows a piece.
pub fn piece_to_u8(piece: &Piece) -> (r: u8)
    ensures
        r == piece_number(*piece),
{
    match piece.color {
        Color::White => piece.role.to_u8() - 1,
        Color::Black => piece.role.to_u8() + 9,
    }
}

/// The square under a pixel position, where squares are `piece_size` pixels
/// wide and the eighth rank is at the top; none where the position is off
/// the board or the size is zero.
pub open spec fn square_at(x: u32, y: u32, piece_size: u32) -> Option<Square> {
    if piece_size > 0 && x / piece_size < 8 && y / piece_size < 8 {
        Some(Square { index: ((7 - (y / piece_size) as int) * 8 + (x / piece_size) as int) as u8 })
    } else {
        None
    }
}

/// The square under a pixel position.
pub fn coord_to_square(x: u32, y: u32, piece_size: u32) -> (r: Option<Square>)
    ensures
        r == square_at(x, y, piece_size),
        r matches Some(square) ==> square.wf() && square.file_of() == x / piece_size
            && square.rank_of() == 7 - y / piece_size,
{
    if piece_size == 0 {
        return None;
    }
    let file: u32 = x / piece_size;
    let down: u32 = y / piece_size;
    if file >= 8 || down >= 8 {
        return None;
    }
    let rank: u32 = 7 - down;
    Some(square_from_coords(file as u8, rank as u8))
}

/// Where a move starts and where its piece ends up; for castling, the
/// king's two squares.
pub fn squares_from_move(m: &Move) -> (r: (Square, Square))
    requires
        m.origin() is Some,
    ensures
        r.0 == m.origin().unwrap(),
        r.1 == m.destination(),
{
    let src_sq = match m.from() {
        Some(square) => square,
        None => m.to(),
    };
    (src_sq, m.king_to())
}

/// The indices of a sequence of squares.
pub open spec fn square_indices(squares: Seq<Square>) -> Seq<u8> {
    squares.map_values(|square: Square| square.index)
}

/// The layout of a position as the board takes it: each occupied square
/// with the number of its piece, a1 first.
pub open spec fn reset_layout(position: CurPosition) -> Seq<(u8, u8)> {
    position.layout().map_values(|entry: (Square, Piece)| (entry.0.index, piece_number(entry.1)))
}

/// What takes every overlay off the board: no phantom, no hints, no capture
/// marks, no highlight.
pub open spec fn cleared() -> Seq<Event> {
    seq![
        Event::Phantom { id: None },
        Event::Hint { squares: Seq::empty() },
        Event::Capture { squares: Seq::empty() },
        Event::Highlight { square: None },
    ]
}

/// What marks the squares that the piece on `square` can reach.
pub open spec fn hinted(position: CurPosition, square: Square) -> Seq<Event> {
    seq![
        Event::Hint { squares: square_indices(hint_squares(position.moves(), square)) },
        Event::Capture { squares: square_indices(capture_squares(position.moves(), square)) },
    ]
}

/// What shows the move that led to the node now in view: its two squares,
/// or none at the root.
pub open spec fn last_move_shown(m: Option<Move>) -> Event {
    match m {
        Some(m) => Event::LastMove {
            src_square: match m.origin() {
                Some(from) => Some(from.index),
                None => None,
            },
            dest_square: Some(m.target().index),
        },
        None => Event::LastMove { src_square: None, dest_square: None },
    }
}

/// What a move does on the board besides moving its own piece: the pawn
/// taken en passant leaves, the rook of a castling move slides over.
pub open spec fn side_effects(m: Move) -> Seq<Event> {
    match m {
        Move::EnPassant { .. } => seq![
            Event::Piece(PieceSignals::Remove { square: m.en_passant_victim().unwrap().index }),
        ],
        Move::Castle { rook, .. } => seq![
            Event::Piece(
                PieceSignals::Move {
                    src_square: rook.index,
                    dest_square: m.rook_destination().unwrap().index,
                },
            ),
        ],
        _ => Seq::empty(),
    }
}

/// A promotion as it is staged: the pawn's move, with no role yet.
pub open spec fn staged(m: Move) -> Move {
    Move::Normal {
        role: Role::Pawn,
        from: m.origin().unwrap(),
        capture: m.captured(),
        to: m.target(),
        promotion: None,
    }
}

/// A staged promotion holds no role, and is the same whichever role the
/// move came with: the choices of role for one pawn move collapse into one
/// staged move.
pub proof fn lemma_staged_ignores_role(m: Move, a: Role, b: Role)
    requires
        m is Normal,
    ensures
        staged(m).promoted() is None,
        staged(m.with_promotion(a)) == staged(m.with_promotion(b)),
        staged(staged(m)) == staged(m),
        staged(m).with_promotion(a).without_promotion() == staged(m),
{
}

/// The role with a given place in the order pawn, knight, bishop, rook,
/// queen, king, counted from 0.
pub open spec fn role_at(id: u8) -> Role {
    Role::numbered(id + 1).unwrap()
}

/// The state of the backend, as the contracts see it.
pub struct State {
    pub game: Seq<NodeView>,
    /// The node in view.
    pub cur_node: Uuid,
    /// The piece in the air, with the square it was taken from.
    pub dragged_piece: Option<(Square, Piece)>,
    /// The square selected by a click.
    pub highlighted_square: Option<Square>,
    /// The promotion that awaits its role.
    pub promotion: Option<Move>,
}

impl State {
    /// A state is valid when its tree is well formed, the node in view is
    /// in the tree, a staged promotion is a pawn's move without a role, and
    /// no piece is in the air while a promotion is staged.
    pub open spec fn wf(self) -> bool {
        &&& crate::game::well_formed(self.game)
        &&& contains(self.game, self.cur_node)
        &&& self.promotion matches Some(m) ==> m == staged(m)
        &&& !(self.dragged_piece is Some && self.promotion is Some)
    }

    /// The position in view.
    pub open spec fn position(self) -> CurPosition {
        self.game[place_of(self.game, self.cur_node)].position
    }

    /// The whole layout of the position in view, as one event.
    pub open spec fn resynced(self) -> Seq<Event> {
        seq![Event::Reset { initial: reset_layout(self.position()) }]
    }

    /// Gives up a staged promotion: the picker closes, the pawn goes back,
    /// and a piece that stood on the target is drawn again.
    pub open spec fn cancelled(self) -> (State, Seq<Event>) {
        match self.promotion {
            Some(m) => (
                State { promotion: None, ..self },
                seq![
                    Event::Promoting { file: None },
                    Event::Piece(
                        PieceSignals::Move {
                            src_square: m.target().index,
                            dest_square: m.origin().unwrap().index,
                        },
                    ),
                ] + (match self.position().piece_on(m.target()) {
                    Some(piece) => seq![
                        Event::Piece(
                            PieceSignals::Place {
                                id: piece_number(piece),
                                square: m.target().index,
                            },
                        ),
                    ],
                    None => Seq::empty(),
                }),
            ),
            None => (self, Seq::empty()),
        }
    }

    /// Plays a move below the node in view, under the identity `fresh`: the
    /// new node comes into view and the movetext goes out. Where the tree
    /// refuses the node, nothing happens.
    pub open spec fn applied(self, m: Move, fresh: Uuid) -> (State, Seq<Event>) {
        if can_extend(self.game, self.cur_node, m) && !contains(self.game, fresh) {
            let game = extended(self.game, self.cur_node, m, fresh);
            (State { game, cur_node: fresh, ..self }, seq![Event::PGN { string: movetext(game) }])
        } else {
            (self, Seq::empty())
        }
    }

    /// The number sent for a staged promotion: the file of the target, plus
    /// 10 where Black is to move.
    pub open spec fn promotion_file(self, m: Move) -> u8 {
        if self.position().side_to_move() == Color::Black {
            (m.target().file_of() + 10) as u8
        } else {
            m.target().file_of() as u8
        }
    }

    /// Stages a promotion, or plays any other move: a promotion waits for
    /// its role and leaves the tree alone; any other move shows as the last
    /// move, has its side effects drawn and is then played.
    pub open spec fn staged_or_applied(self, m: Move, fresh: Uuid) -> (State, Seq<Event>) {
        if m.promoted() is Some {
            (
                State { promotion: Some(staged(m)), ..self },
                seq![Event::Promoting { file: Some(self.promotion_file(m)) }],
            )
        } else {
            (
                self.applied(m, fresh).0,
                seq![last_move_shown(Some(m))] + side_effects(m) + self.applied(m, fresh).1,
            )
        }
    }

    /// Selects a square, where a piece stands on it: the square is
    /// highlighted and the piece's reach is marked.
    pub open spec fn selected(self, square: Square) -> (State, Seq<Event>) {
        if self.position().piece_on(square) is Some {
            (
                State { highlighted_square: Some(square), ..self },
                seq![Event::Highlight { square: Some(square.index) }] + hinted(
                    self.position(),
                    square,
                ),
            )
        } else {
            (self, Seq::empty())
        }
    }

    /// A click on a square, with `prior` the square that was selected
    /// before: the same square again drops the selection; a square that a
    /// legal move leads to from `prior` plays or stages that move; any
    /// other square is selected, if a piece stands on it.
    pub open spec fn click_on(self, prior: Option<Square>, square: Square, fresh: Uuid) -> (
        State,
        Seq<Event>,
    ) {
        if prior == Some(square) {
            (self, Seq::empty())
        } else if prior is Some && resolution(self.position().moves(), prior.unwrap(), square)
            is Some {
            let m = self.position().moves()[resolution(
                self.position().moves(),
                prior.unwrap(),
                square,
            ).unwrap()];
            (
                self.staged_or_applied(m, fresh).0,
                seq![
                    Event::Piece(
                        PieceSignals::Move {
                            src_square: m.origin().unwrap().index,
                            dest_square: m.destination().index,
                        },
                    ),
                ] + self.staged_or_applied(m, fresh).1,
            )
        } else {
            self.selected(square)
        }
    }

    /// The state once a gesture begins: nothing selected, nothing in the
    /// air, no promotion staged.
    pub open spec fn at_rest(self) -> State {
        State { highlighted_square: None, dragged_piece: None, promotion: None, ..self }
    }

    /// A click: the overlays go, a staged promotion is given up, and then
    /// the click acts on its square, if it hit one.
    pub open spec fn clicked(self, square: Option<Square>, fresh: Uuid) -> (State, Seq<Event>) {
        let rest = match square {
            Some(square) => self.at_rest().click_on(self.highlighted_square, square, fresh),
            None => (self.at_rest(), Seq::empty()),
        };
        (rest.0, cleared() + self.cancelled().1 + rest.1)
    }

    /// Picks up the piece on a square, if one stands there: it leaves the
    /// board and follows the pointer, and its reach is marked.
    pub open spec fn picked_up(self, square: Square) -> (State, Seq<Event>) {
        match self.position().piece_on(square) {
            Some(piece) => (
                State {
                    highlighted_square: Some(square),
                    dragged_piece: Some((square, piece)),
                    ..self
                },
                seq![
                    Event::Piece(PieceSignals::Remove { square: square.index }),
                    Event::Highlight { square: Some(square.index) },
                    Event::Phantom { id: Some(piece_number(piece)) },
                ] + hinted(self.position(), square),
            ),
            None => (self, Seq::empty()),
        }
    }

    /// The start of a drag: the overlays go, a staged promotion is given
    /// up, and then the piece under the pointer is picked up.
    pub open spec fn drag_started(self, square: Option<Square>) -> (State, Seq<Event>) {
        let rest = match square {
            Some(square) => self.at_rest().picked_up(square),
            None => (self.at_rest(), Seq::empty()),
        };
        (rest.0, cleared() + self.cancelled().1 + rest.1)
    }

    /// The move that a drop on a square means, for a piece taken from
    /// `src`.
    pub open spec fn dropped_move(self, src: Square, square: Option<Square>) -> Option<Move> {
        match square {
            Some(dest) => match resolution(self.position().moves(), src, dest) {
                Some(i) => Some(self.position().moves()[i]),
                None => None,
            },
            None => None,
        }
    }

    /// The end of a drag: the phantom goes; with nothing in the air that
    /// is all. A drop that means no legal move puts the piece back where
    /// it came from. A drop that means one clears the overlays, sets the
    /// piece down where the move takes it, and plays or stages the move.
    pub open spec fn drag_ended(self, square: Option<Square>, fresh: Uuid) -> (State, Seq<Event>) {
        match self.dragged_piece {
            None => (self, seq![Event::Phantom { id: None }]),
            Some((src, piece)) => {
                let landed = State { dragged_piece: None, ..self };
                match self.dropped_move(src, square) {
                    None => (
                        landed,
                        seq![
                            Event::Phantom { id: None },
                            Event::Piece(
                                PieceSignals::Place { id: piece_number(piece), square: src.index },
                            ),
                        ],
                    ),
                    Some(m) => {
                        let settled = State { highlighted_square: None, ..landed };
                        (
                            settled.staged_or_applied(m, fresh).0,
                            seq![
                                Event::Phantom { id: None },
                                Event::Hint { squares: Seq::empty() },
                                Event::Capture { squares: Seq::empty() },
                                Event::Highlight { square: None },
                                Event::Piece(
                                    PieceSignals::Place {
                                        id: piece_number(piece),
                                        square: m.destination().index,
                                    },
                                ),
                            ] + settled.staged_or_applied(m, fresh).1,
                        )
                    },
                }
            },
        }
    }

    /// The number of the piece that a promotion puts on the board: the
    /// place of the role, plus 10 where Black is to move.
    pub open spec fn promoted_piece(self, id: u8) -> u8 {
        if self.position().side_to_move() == Color::Black {
            (id + 10) as u8
        } else {
            id
        }
    }

    /// The choice of a role: with no promotion staged, nothing happens.
    /// Otherwise the promoted piece is set down, the picker closes, and the
    /// move is played with the chosen role.
    pub open spec fn promoted(self, id: u8, fresh: Uuid) -> (State, Seq<Event>) {
        match self.promotion {
            None => (self, Seq::empty()),
            Some(m) => {
                let chosen = staged(m).with_promotion(role_at(id));
                let idle = State { promotion: None, ..self };
                (
                    idle.applied(chosen, fresh).0,
                    seq![
                        Event::Piece(
                            PieceSignals::Place {
                                id: self.promoted_piece(id),
                                square: m.target().index,
                            },
                        ),
                        Event::Promoting { file: None },
                    ] + idle.applied(chosen, fresh).1,
                )
            },
        }
    }

    /// A step back: at the root nothing happens. Otherwise the parent comes
    /// into view, its layout goes out, and the move that led to it shows as
    /// the last move.
    pub open spec fn stepped_back(self) -> (State, Seq<Event>) {
        match crate::game::parent_of(self.game, self.cur_node) {
            Some(parent) => {
                let next = State { cur_node: parent, ..self };
                (
                    next,
                    next.resynced() + seq![
                        last_move_shown(crate::game::move_to(self.game, parent)),
                    ],
                )
            },
            None => (self, Seq::empty()),
        }
    }

    /// A step forward: at a leaf nothing happens. Otherwise the mainline
    /// child comes into view, its layout goes out, and the move that led
    /// to it shows as the last move.
    pub open spec fn stepped_forward(self) -> (State, Seq<Event>) {
        match crate::game::mainline_of(self.game, self.cur_node) {
            Some(child) => {
                let next = State { cur_node: child, ..self };
                (
                    next,
                    next.resynced() + (match crate::game::move_to(self.game, child) {
                        Some(m) => seq![last_move_shown(Some(m))],
                        None => Seq::empty(),
                    }),
                )
            },
            None => (self, Seq::empty()),
        }
    }

    /// What a command does: the state after it and the events it emits, in
    /// order. `fresh` is the identity that a new node gets, should the
    /// command add one.
    pub open spec fn handled(self, slot: Slots, fresh: Uuid) -> (State, Seq<Event>) {
        match slot {
            Slots::Resync => (self, self.resynced()),
            Slots::MouseEvent { slot: MouseEventSlots::Clicked { x, y }, piece_size } => self.clicked(
                square_at(x, y, piece_size),
                fresh,
            ),
            Slots::MouseEvent {
                slot: MouseEventSlots::Drag(DragSlots::Started { src_x, src_y }),
                piece_size,
            } => self.drag_started(square_at(src_x, src_y, piece_size)),
            Slots::MouseEvent {
                slot: MouseEventSlots::Drag(DragSlots::Ended { dest_x, dest_y }),
                piece_size,
            } => self.drag_ended(square_at(dest_x, dest_y, piece_size), fresh),
            Slots::Promote { id } => self.promoted(id, fresh),
            Slots::Traverse { forward } => if forward {
                self.stepped_forward()
            } else {
                self.stepped_back()
            },
        }
    }
}

/// Asking for the layout changes nothing, so asking twice in a row gives
/// the same event twice.
pub proof fn lemma_resync_repeats(s: State, first: Uuid, second: Uuid)
    ensures
        s.handled(Slots::Resync, first).0 == s,
        s.handled(Slots::Resync, first).0.handled(Slots::Resync, second).1 == s.handled(
            Slots::Resync,
            first,
        ).1,
{
}

/// At the root a step back does nothing: no event goes out and the root
/// stays in view.
pub proof fn lemma_no_step_back_at_root(s: State, fresh: Uuid)
    requires
        s.wf(),
        s.cur_node == s.game[0].id,
    ensures
        s.handled(Slots::Traverse { forward: false }, fresh) == (s, Seq::<Event>::empty()),
{
    crate::game::lemma_place_unique(s.game, 0);
}

/// Every command leaves a valid state valid: the tree stays well formed,
/// the node in view stays in the tree, and no piece is in the air while a
/// promotion is staged.
pub proof fn lemma_handled_stays_valid(s: State, slot: Slots, fresh: Uuid)
    requires
        s.wf(),
    ensures
        s.handled(slot, fresh).0.wf(),
{
    let g = s.game;
    assert forall|t: State, m: Move| t.wf() implies (#[trigger] t.applied(m, fresh)).0.wf() by {
        if can_extend(t.game, t.cur_node, m) && !contains(t.game, fresh) {
            crate::game::lemma_add_node(t.game, t.cur_node, m, fresh);
        }
    }
    match slot {
        Slots::Traverse { forward } => {
            if forward {
                if let Some(child) = crate::game::mainline_of(g, s.cur_node) {
                    crate::game::lemma_children_contained(g, s.cur_node, 0);
                }
            } else {
                if let Some(parent) = crate::game::parent_of(g, s.cur_node) {
                    let i = place_of(g, s.cur_node);
                    assert(crate::game::linked(g, i));
                    crate::game::lemma_place_unique(g, g[i].parent.unwrap());
                }
            }
        },
        _ => {},
    }
}

/// The backend.
pub struct BoardConImpl {
    game: Game,
    cur_node: Uuid,
    dragged_piece: Option<(Square, Piece)>,
    highlighted_square: Option<Square>,
    promotion: Option<Move>,
}

impl View for BoardConImpl {
    type V = State;

    closed spec fn view(&self) -> State {
        State {
            game: self.game@,
            cur_node: self.cur_node,
            dragged_piece: self.dragged_piece,
            highlighted_square: self.highlighted_square,
            promotion: self.promotion,
        }
    }
}

fn emit(out: &mut Vec<Signals>, signal: Signals)
    ensures
        events(final(out)@) == events(old(out)@).push(signal@),
{
    out.push(signal);
    assert(events(out@) =~= events(old(out)@).push(signal@));
}

fn indices(squares: &Vec<Square>) -> (r: Vec<u8>)
    ensures
        r@ == square_indices(squares@),
{
    let mut out: Vec<u8> = Vec::new();
    let mut i: usize = 0;
    while i < squares.len()
        invariant
            i <= squares.len(),
            out@ == square_indices(squares@.take(i as int)),
        decreases squares.len() - i,
    {
        out.push(squares[i].index);
        proof {
            assert(squares@.take(i + 1) == squares@.take(i as int).push(squares@[i as int]));
        }
        i += 1;
    }
    proof {
        assert(squares@.take(squares.len() as int) == squares@);
    }
    out
}

fn reset_highlights(out: &mut Vec<Signals>)
    ensures
        events(final(out)@) == events(old(out)@) + cleared(),
{
    emit(out, Signals::Phantom { id: None });
    emit(out, Signals::Hint { squares: Vec::new() });
    emit(out, Signals::Capture { squares: Vec::new() });
    emit(out, Signals::Highlight { square: None });
    assert(events(out@) =~= events(old(out)@) + cleared());
}

impl BoardConImpl {
    /// Whether the backend is in a valid state.
    pub open spec fn wf(&self) -> bool {
        self@.wf()
    }

    /// A backend at the start of a game: the tree holds the starting
    /// position alone, and nothing is selected, in the air or staged.
    pub fn new() -> (r: BoardConImpl)
        ensures
            r.wf(),
            r@.game.len() == 1,
            r@.cur_node == r@.game[0].id,
            r@.position().is_starting(),
            r@.dragged_piece is None,
            r@.highlighted_square is None,
            r@.promotion is None,
    {
        let game = Game::new();
        let cur_node = game.root();
        proof {
            crate::game::lemma_place_unique(game@, 0);
        }
        BoardConImpl {
            game,
            cur_node,
            dragged_piece: None,
            highlighted_square: None,
            promotion: None,
        }
    }

    /// The game tree.
    pub fn game(&self) -> (r: &Game)
        ensures
            r@ == self@.game,
            self.wf() ==> r.wf(),
    {
        &self.game
    }

    /// The node in view.
    pub fn cur_node(&self) -> (r: Uuid)
        ensures
            r == self@.cur_node,
    {
        self.cur_node
    }

    /// The square selected by a click, if any.
    pub fn highlighted_square(&self) -> (r: Option<Square>)
        ensures
            r == self@.highlighted_square,
    {
        self.highlighted_square
    }

    /// The piece in the air, with the square it was taken from, if any.
    pub fn dragged_piece(&self) -> (r: Option<(Square, Piece)>)
        ensures
            r == self@.dragged_piece,
    {
        self.dragged_piece
    }

    /// The promotion that awaits its role, if any.
    pub fn promotion(&self) -> (r: Option<Move>)
        ensures
            r == self@.promotion,
    {
        self.promotion
    }

    /// The position in view.
    pub fn position(&self) -> (r: &CurPosition)
        requires
            self.wf(),
        ensures
            *r == self@.position(),
    {
        self.game.board_at(self.cur_node).unwrap()
    }

    fn legal_move(&self, src_sq: Square, dest_sq: Square) -> (r: Option<Move>)
        requires
            self.wf(),
        ensures
            r == (match resolution(self@.position().moves(), src_sq, dest_sq) {
                Some(i) => Some(self@.position().moves()[i]),
                None => None,
            }),
            r matches Some(m) ==> m.origin() == Some(src_sq),
    {
        match self.position().resolve(src_sq, dest_sq) {
            Some((_, m)) => Some(m),
            None => None,
        }
    }

    fn resync_into(&self, out: &mut Vec<Signals>)
        requires
            self.wf(),
        ensures
            events(final(out)@) == events(old(out)@) + self@.resynced(),
    {
        let board = self.position().board();
        let mut initial: Vec<(u8, u8)> = Vec::new();
        let mut i: usize = 0;
        while i < board.len()
            invariant
                i <= board.len(),
                initial@ == board@.take(i as int).map_values(
                    |entry: (Square, Piece)| (entry.0.index, piece_number(entry.1)),
                ),
            decreases board.len() - i,
        {
            let (square, piece) = board[i];
            initial.push((square.index, piece_to_u8(&piece)));
            proof {
                assert(board@.take(i + 1) == board@.take(i as int).push(board@[i as int]));
            }
            i += 1;
        }
        proof {
            assert(board@.take(board.len() as int) == board@);
        }
        emit(out, Signals::Reset { initial });
        assert(events(out@) =~= events(old(out)@) + self@.resynced());
    }

    /// The whole layout of the position in view, as one event. The state
    /// stays as it is, so asking again gives the same event again.
    pub fn resync_board(&self) -> (r: Vec<Signals>)
        requires
            self.wf(),
        ensures
            events(r@) == self@.resynced(),
    {
        let mut out: Vec<Signals> = Vec::new();
        self.resync_into(&mut out);
        assert(events(out@) =~= self@.resynced());
        out
    }

    fn show_hints(&self, sq: Square, out: &mut Vec<Signals>)
        requires
            self.wf(),
        ensures
            events(final(out)@) == events(old(out)@) + hinted(self@.position(), sq),
    {
        let (move_vec, capture_vec) = self.position().move_hints(sq);
        emit(out, Signals::Hint { squares: indices(&move_vec) });
        emit(out, Signals::Capture { squares: indices(&capture_vec) });
        assert(events(out@) =~= events(old(out)@) + hinted(self@.position(), sq));
    }

    fn cancel_promotion(&mut self, out: &mut Vec<Signals>) -> (r: bool)
        requires
            old(self).wf(),
        ensures
            final(self)@ == old(self)@.cancelled().0,
            final(self)@ == (State { promotion: None, ..old(self)@ }),
            events(final(out)@) == events(old(out)@) + old(self)@.cancelled().1,
            r == old(self)@.promotion.is_some(),
    {
        match self.promotion {
            Some(promotion_move) => {
                self.promotion = None;
                let to = promotion_move.to();
                let from = match promotion_move.from() {
                    Some(from) => from,
                    None => to,
                };
                emit(out, Signals::Promoting { file: None });
                emit(
                    out,
                    Signals::Piece(PieceSignals::Move { src_square: to.index, dest_square: from.index }),
                );
                match self.position().piece(to) {
                    Some(piece) => {
                        emit(
                            out,
                            Signals::Piece(
                                PieceSignals::Place { id: piece_to_u8(&piece), square: to.index },
                            ),
                        );
                    },
                    None => {},
                }
                assert(events(out@) =~= events(old(out)@) + old(self)@.cancelled().1);
                true
            },
            None => {
                assert(events(out@) =~= events(old(out)@) + old(self)@.cancelled().1);
                false
            },
        }
    }

    fn apply_move(&mut self, m: Move, fresh: Uuid, out: &mut Vec<Signals>)
        requires
            old(self).wf(),
        ensures
            final(self).wf(),
            final(self)@ == old(self)@.applied(m, fresh).0,
            events(final(out)@) == events(old(out)@) + old(self)@.applied(m, fresh).1,
    {
        match self.game.add_node_with_id(self.cur_node, m, fresh) {
            Ok(new_node) => {
                self.cur_node = new_node;
                proof {
                    let g = self.game@;
                    assert(g[g.len() - 1].id == fresh);
                }
                let string = self.game.pgn();
                emit(out, Signals::PGN { string });
                assert(events(out@) =~= events(old(out)@) + old(self)@.applied(m, fresh).1);
            },
            Err(refusal) => {
                assert(refusal == GameError::InvalidNode || refusal == GameError::IdentityTaken);
                assert(events(out@) =~= events(old(out)@) + old(self)@.applied(m, fresh).1);
            },
        }
    }

    fn try_apply_move(&mut self, m: Move, fresh: Uuid, out: &mut Vec<Signals>)
        requires
            old(self).wf(),
            old(self)@.dragged_piece is None,
            m.origin() is Some,
        ensures
            final(self).wf(),
            final(self)@ == old(self)@.staged_or_applied(m, fresh).0,
            events(final(out)@) == events(old(out)@) + old(self)@.staged_or_applied(m, fresh).1,
    {
        let to = m.to();
        let from = match m.from() {
            Some(from) => from,
            None => to,
        };
        if m.promotion().is_some() {
            let mut promotion_file: u8 = to.file();
            if self.position().turn() == Color::Black {
                promotion_file += 10;
            }
            self.promotion = Some(
                Move::Normal { role: Role::Pawn, from, capture: m.capture(), to, promotion: None },
            );
            emit(out, Signals::Promoting { file: Some(promotion_file) });
            assert(events(out@) =~= events(old(out)@) + old(self)@.staged_or_applied(m, fresh).1);
            return ;
        }
        emit(out, Signals::LastMove { src_square: Some(from.index), dest_square: Some(to.index) });
        match m.en_passant_square() {
            Some(ep_square) => {
                emit(out, Signals::Piece(PieceSignals::Remove { square: ep_square.index }));
            },
            None => {},
        }
        match m.rook_to() {
            Some(rook_to) => {
                emit(
                    out,
                    Signals::Piece(
                        PieceSignals::Move { src_square: to.index, dest_square: rook_to.index },
                    ),
                );
            },
            None => {},
        }
        let ghost head = events(out@);
        assert(head =~= events(old(out)@) + (seq![last_move_shown(Some(m))] + side_effects(m)));
        self.apply_move(m, fresh, out);
        assert(events(out@) =~= events(old(out)@) + old(self)@.staged_or_applied(m, fresh).1);
    }

    /// A click at a pixel position. `fresh` is the identity that a new node
    /// gets, should the click complete a move.
    pub fn coord_clicked(&mut self, x: u32, y: u32, piece_size: u32, fresh: Uuid) -> (r: Vec<
        Signals,
    >)
        requires
            old(self).wf(),
        ensures
            final(self).wf(),
            final(self)@ == old(self)@.clicked(square_at(x, y, piece_size), fresh).0,
            events(r@) == old(self)@.clicked(square_at(x, y, piece_size), fresh).1,
    {
        let ghost before = self@;
        let ghost target = square_at(x, y, piece_size);
        let mut out: Vec<Signals> = Vec::new();
        reset_highlights(&mut out);
        let highlighted_square = self.highlighted_square;
        self.highlighted_square = None;
        self.dragged_piece = None;
        self.cancel_promotion(&mut out);
        assert(self@ == before.at_rest());
        assert(events(out@) =~= cleared() + before.cancelled().1);
        let ghost head = events(out@);
        let sq = match coord_to_square(x, y, piece_size) {
            Some(sq) => sq,
            None => {
                assert(events(out@) =~= before.clicked(target, fresh).1);
                return out;
            },
        };
        match highlighted_square {
            Some(src_sq) => {
                if src_sq == sq {
                    assert(events(out@) =~= before.clicked(target, fresh).1);
                    return out;
                }
                match self.legal_move(src_sq, sq) {
                    Some(m) => {
                        let (src_sq, dest_sq) = squares_from_move(&m);
                        emit(
                            &mut out,
                            Signals::Piece(
                                PieceSignals::Move {
                                    src_square: src_sq.index,
                                    dest_square: dest_sq.index,
                                },
                            ),
                        );
                        self.try_apply_move(m, fresh, &mut out);
                        assert(events(out@) =~= before.clicked(target, fresh).1);
                        return out;
                    },
                    None => {},
                }
            },
            None => {},
        }
        if self.position().piece(sq).is_none() {
            assert(events(out@) =~= before.clicked(target, fresh).1);
            return out;
        }
        self.highlighted_square = Some(sq);
        emit(&mut out, Signals::Highlight { square: Some(sq.index) });
        self.show_hints(sq, &mut out);
        assert(events(out@) =~= before.clicked(target, fresh).1);
        out
    }

    /// The start of a drag at a pixel position.
    pub fn coord_drag_started(&mut self, src_x: u32, src_y: u32, piece_size: u32) -> (r: Vec<
        Signals,
    >)
        requires
            old(self).wf(),
        ensures
            final(self).wf(),
            final(self)@ == old(self)@.drag_started(square_at(src_x, src_y, piece_size)).0,
            events(r@) == old(self)@.drag_started(square_at(src_x, src_y, piece_size)).1,
    {
        let ghost before = self@;
        let ghost target = square_at(src_x, src_y, piece_size);
        let mut out: Vec<Signals> = Vec::new();
        reset_highlights(&mut out);
        self.highlighted_square = None;
        self.dragged_piece = None;
        self.cancel_promotion(&mut out);
        assert(self@ == before.at_rest());
        assert(events(out@) =~= cleared() + before.cancelled().1);
        let sq = match coord_to_square(src_x, src_y, piece_size) {
            Some(sq) => sq,
            None => {
                assert(events(out@) =~= before.drag_started(target).1);
                return out;
            },
        };
        let piece = match self.position().piece(sq) {
            Some(piece) => piece,
            None => {
                assert(events(out@) =~= before.drag_started(target).1);
                return out;
            },
        };
        self.highlighted_square = Some(sq);
        self.dragged_piece = Some((sq, piece));
        emit(&mut out, Signals::Piece(PieceSignals::Remove { square: sq.index }));
        emit(&mut out, Signals::Highlight { square: Some(sq.index) });
        emit(&mut out, Signals::Phantom { id: Some(piece_to_u8(&piece)) });
        self.show_hints(sq, &mut out);
        assert(events(out@) =~= before.drag_started(target).1);
        out
    }

    /// The end of a drag at a pixel position. `fresh` is the identity that
    /// a new node gets, should the drop complete a move.
    pub fn coord_drag_ended(&mut self, dest_x: u32, dest_y: u32, piece_size: u32, fresh: Uuid) -> (r:
        Vec<Signals>)
        requires
            old(self).wf(),
        ensures
            final(self).wf(),
            final(self)@ == old(self)@.drag_ended(square_at(dest_x, dest_y, piece_size), fresh).0,
            events(r@) == old(self)@.drag_ended(square_at(dest_x, dest_y, piece_size), fresh).1,
    {
        let ghost before = self@;
        let ghost target = square_at(dest_x, dest_y, piece_size);
        let mut out: Vec<Signals> = Vec::new();
        emit(&mut out, Signals::Phantom { id: None });
        let (src_sq, piece) = match self.dragged_piece {
            Some(val) => val,
            None => {
                assert(events(out@) =~= before.drag_ended(target, fresh).1);
                return out;
            },
        };
        self.dragged_piece = None;
        let resolved = match coord_to_square(dest_x, dest_y, piece_size) {
            Some(dest_sq) => self.legal_move(src_sq, dest_sq),
            None => None,
        };
        assert(resolved == before.dropped_move(src_sq, target));
        let m = match resolved {
            Some(m) => m,
            None => {
                emit(
                    &mut out,
                    Signals::Piece(
                        PieceSignals::Place { id: piece_to_u8(&piece), square: src_sq.index },
                    ),
                );
                assert(events(out@) =~= before.drag_ended(target, fresh).1);
                return out;
            },
        };
        let (_, dest_sq) = squares_from_move(&m);
        self.highlighted_square = None;
        emit(&mut out, Signals::Hint { squares: Vec::new() });
        emit(&mut out, Signals::Capture { squares: Vec::new() });
        emit(&mut out, Signals::Highlight { square: None });
        emit(
            &mut out,
            Signals::Piece(PieceSignals::Place { id: piece_to_u8(&piece), square: dest_sq.index }),
        );
        self.try_apply_move(m, fresh, &mut out);
        assert(events(out@) =~= before.drag_ended(target, fresh).1);
        out
    }

    /// The choice of a role for the staged promotion, by its place in the
    /// order pawn, knight, bishop, rook, queen, king. `fresh` is the
    /// identity that the new node gets. While a promotion is staged, the
    /// place has to name a role.
    pub fn finalize_promotion(&mut self, id: u8, fresh: Uuid) -> (r: Vec<Signals>)
        requires
            old(self).wf(),
            old(self)@.promotion is Some ==> id < 6,
        ensures
            final(self).wf(),
            final(self)@ == old(self)@.promoted(id, fresh).0,
            events(r@) == old(self)@.promoted(id, fresh).1,
    {
        let ghost before = self@;
        let mut out: Vec<Signals> = Vec::new();
        let promotion_move = match self.promotion {
            Some(m) => m,
            None => {
                assert(events(out@) =~= before.promoted(id, fresh).1);
                return out;
            },
        };
        self.promotion = None;
        assert(id < 6);
        let role = match Role::from_u8(id + 1) {
            Some(role) => role,
            None => Role::Pawn,
        };
        let to = promotion_move.to();
        let from = match promotion_move.from() {
            Some(from) => from,
            None => to,
        };
        let promotion_move = Move::Normal {
            role: Role::Pawn,
            from,
            capture: promotion_move.capture(),
            to,
            promotion: Some(role),
        };
        let mut piece_id = id;
        if self.position().turn() == Color::Black {
            piece_id += 10;
        }
        emit(&mut out, Signals::Piece(PieceSignals::Place { id: piece_id, square: to.index }));
        emit(&mut out, Signals::Promoting { file: None });
        self.apply_move(promotion_move, fresh, &mut out);
        assert(events(out@) =~= before.promoted(id, fresh).1);
        out
    }

    fn to_prev_node(&mut self) -> (r: Vec<Signals>)
        requires
            old(self).wf(),
        ensures
            final(self).wf(),
            final(self)@ == old(self)@.stepped_back().0,
            events(r@) == old(self)@.stepped_back().1,
    {
        let ghost before = self@;
        let mut out: Vec<Signals> = Vec::new();
        let parent_node = match self.game.parent(self.cur_node) {
            Some(val) => val,
            None => {
                assert(events(out@) =~= before.stepped_back().1);
                return out;
            },
        };
        self.cur_node = parent_node;
        self.resync_into(&mut out);
        match self.game.prev_move(self.cur_node) {
            Some(m) => {
                emit(
                    &mut out,
                    Signals::LastMove {
                        src_square: match m.from() {
                            Some(from) => Some(from.index),
                            None => None,
                        },
                        dest_square: Some(m.to().index),
                    },
                );
            },
            None => {
                emit(&mut out, Signals::LastMove { src_square: None, dest_square: None });
            },
        }
        assert(events(out@) =~= before.stepped_back().1);
        out
    }

    fn to_next_mainline_node(&mut self) -> (r: Vec<Signals>)
        requires
            old(self).wf(),
        ensures
            final(self).wf(),
            final(self)@ == old(self)@.stepped_forward().0,
            events(r@) == old(self)@.stepped_forward().1,
    {
        let ghost before = self@;
        let mut out: Vec<Signals> = Vec::new();
        let child_node = match self.game.mainline(self.cur_node) {
            Some(val) => val,
            None => {
                assert(events(out@) =~= before.stepped_forward().1);
                return out;
            },
        };
        self.cur_node = child_node;
        self.resync_into(&mut out);
        match self.game.prev_move(self.cur_node) {
            Some(m) => {
                emit(
                    &mut out,
                    Signals::LastMove {
                        src_square: match m.from() {
                            Some(from) => Some(from.index),
                            None => None,
                        },
                        dest_square: Some(m.to().index),
                    },
                );
            },
            None => {},
        }
        assert(events(out@) =~= before.stepped_forward().1);
        out
    }

    /// Handles one command, with `fresh` the identity that a new node gets,
    /// should the command add one.
    pub fn handle_slot_with(&mut self, slot: Slots, fresh: Uuid) -> (r: Vec<Signals>)
        requires
            old(self).wf(),
            slot matches Slots::Promote { id } ==> old(self)@.promotion is Some ==> id < 6,
        ensures
            final(self).wf(),
            final(self)@ == old(self)@.handled(slot, fresh).0,
            events(r@) == old(self)@.handled(slot, fresh).1,
    {
        match slot {
            Slots::Resync => self.resync_board(),
            Slots::MouseEvent { slot, piece_size } => match slot {
                MouseEventSlots::Clicked { x, y } => self.coord_clicked(x, y, piece_size, fresh),
                MouseEventSlots::Drag(slot) => match slot {
                    DragSlots::Started { src_x, src_y } => self.coord_drag_started(
                        src_x,
                        src_y,
                        piece_size,
                    ),
                    DragSlots::Ended { dest_x, dest_y } => self.coord_drag_ended(
                        dest_x,
                        dest_y,
                        piece_size,
                        fresh,
                    ),
                },
            },
            Slots::Promote { id } => self.finalize_promotion(id, fresh),
            Slots::Traverse { forward } => {
                if forward {
                    self.to_next_mainline_node()
                } else {
                    self.to_prev_node()
                }
            },
        }
    }

    /// Handles one command. A node that the command adds gets a random
    /// identity; whatever identity that is, the command does what
    /// `handle_slot_with` does under it.
    pub fn handle_slot(&mut self, slot: Slots) -> (r: Vec<Signals>)
        requires
            old(self).wf(),
            slot matches Slots::Promote { id } ==> old(self)@.promotion is Some ==> id < 6,
        ensures
            final(self).wf(),
            exists|fresh: Uuid|
                final(self)@ == (#[trigger] old(self)@.handled(slot, fresh)).0 && events(r@) == old(
                    self,
                )@.handled(slot, fresh).1,
    {
        let fresh = mint_identity();
        self.handle_slot_with(slot, fresh)
    }
}

} // verus!
