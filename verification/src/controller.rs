//! The face that the library shows to a board written elsewhere: moves with
//! their notation, and the game tree behind plain questions and answers.

use vstd::prelude::*;
use crate::game::movetext::movetext;
use crate::game::{
    can_extend, contains, extended, mainline_of, mainline_path, move_to, parent_of, place_of,
    position_at, siblings_of, variations_of, Game, GameError, NodeView,
};
use crate::position::CurPosition;
use crate::resolver::resolution;
use crate::types::{Role, Square, Uuid};

verus! {

/// A move together with its notation in the position it was found in.
pub struct Move {
    inner: crate::moves::Move,
    san: String,
}

/// A [`Move`] as the contracts see it.
pub struct Notated {
    pub inner: crate::moves::Move,
    pub san: Seq<char>,
}

impl View for Move {
    type V = Notated;

    closed spec fn view(&self) -> Notated {
        Notated { inner: self.inner, san: self.san@ }
    }
}

impl Move {
    /// The move itself.
    pub fn inner(&self) -> (r: crate::moves::Move)
        ensures
            r == self@.inner,
    {
        self.inner
    }

    /// A copy of the move and its notation.
    pub fn clone(&self) -> (r: Move)
        ensures
            r@ == self@,
    {
        Move { inner: self.inner, san: self.san.clone() }
    }

    /// The square the move starts from. A drop starts nowhere and must not
    /// be asked.
    pub fn from(&self) -> (r: Square)
        requires
            self@.inner.origin() is Some,
        ensures
            Some(r) == self@.inner.origin(),
    {
        self.inner.from().unwrap()
    }

    /// The square where the moving piece ends up; for castling, where the
    /// king lands.
    pub fn to(&self) -> (r: Square)
        ensures
            r == self@.inner.destination(),
    {
        self.inner.king_to()
    }

    /// Whether the move promotes a pawn.
    pub fn is_promotion(&self) -> (r: bool)
        ensures
            r == self@.inner.promoted().is_some(),
    {
        self.inner.is_promotion()
    }

    /// Puts a promotion role into the move; only a normal move has room for
    /// one. The notation stays as it was.
    pub fn set_promotion(&mut self, role: Role)
        ensures
            final(self)@ == (Notated { inner: old(self)@.inner.with_promotion(role), ..old(self)@ }),
    {
        self.inner.set_promotion(role);
    }

    /// Whether the move captures en passant.
    pub fn is_en_passant(&self) -> (r: bool)
        ensures
            r == (self@.inner is EnPassant),
    {
        self.inner.is_en_passant()
    }

    /// Whether the move castles.
    pub fn is_castle(&self) -> (r: bool)
        ensures
            r == (self@.inner is Castle),
    {
        self.inner.is_castle()
    }

    /// The square the rook of a castling move starts on; a1 for any other
    /// move.
    pub fn castle_rook_from(&self) -> (r: Square)
        ensures
            r == (if self@.inner is Castle {
                self@.inner.target()
            } else {
                Square { index: 0 }
            }),
    {
        if self.inner.is_castle() {
            self.inner.to()
        } else {
            Square { index: 0 }
        }
    }

    /// The square where the rook of a castling move lands; a1 for any
    /// other move.
    pub fn castle_rook_to(&self) -> (r: Square)
        ensures
            r == (match self@.inner.rook_destination() {
                Some(square) => square,
                None => Square { index: 0 },
            }),
    {
        match self.inner.rook_to() {
            Some(square) => square,
            None => Square { index: 0 },
        }
    }

    /// The notation of the move.
    pub fn to_string(&self) -> (r: String)
        ensures
            r@ == self@.san,
    {
        self.san.clone()
    }
}

impl CurPosition {
    /// The legal move that leads from `src` to `dest`, with its notation.
    pub fn legal_move(&self, src: Square, dest: Square) -> (r: Option<Move>)
        ensures
            r is Some <==> resolution(self.moves(), src, dest) is Some,
            r matches Some(m) ==> {
                let i = resolution(self.moves(), src, dest).unwrap();
                &&& m@ == (Notated { inner: self.moves()[i], san: self.notation(i) })
                &&& m@.inner.origin() == Some(src)
            },
    {
        match self.resolve(src, dest) {
            Some((index, m)) => Some(Move { inner: m, san: self.san_index(index) }),
            None => None,
        }
    }
}

/// The game tree, asked and answered in plain values.
pub struct GameTree {
    inner: Game,
}

impl View for GameTree {
    type V = Seq<NodeView>;

    closed spec fn view(&self) -> Seq<NodeView> {
        self.inner@
    }
}

/// A tree that holds the starting position alone.
pub fn game_default() -> (r: GameTree)
    ensures
        r.wf(),
        r@.len() == 1,
        r@[0].position.is_starting(),
{
    GameTree { inner: Game::new() }
}

impl GameTree {
    /// Whether the tree is valid.
    pub open spec fn wf(&self) -> bool {
        crate::game::well_formed(self@)
    }

    /// The identity of the root.
    pub fn root(&self) -> (r: Uuid)
        requires
            self.wf(),
        ensures
            r == self@[0].id,
            contains(self@, r),
    {
        self.inner.root()
    }

    /// The position at a node; `InvalidNode` where the identity names no
    /// node of this tree.
    pub fn position(&self, node: Uuid) -> (r: Result<&CurPosition, GameError>)
        requires
            self.wf(),
        ensures
            r is Ok <==> contains(self@, node),
            r matches Ok(position) ==> Some(*position) == position_at(self@, node),
            r matches Err(refusal) ==> refusal == GameError::InvalidNode,
    {
        match self.inner.board_at(node) {
            Some(position) => Ok(position),
            None => Err(GameError::InvalidNode),
        }
    }

    /// Whether a move led to the node: true of every node but the root.
    pub fn has_prev_move(&self, node: Uuid) -> (r: bool)
        requires
            self.wf(),
        ensures
            r == move_to(self@, node).is_some(),
    {
        self.inner.prev_move(node).is_some()
    }

    /// The move that led to a node, with its notation; none for the root.
    pub fn prev_move(&self, node: Uuid) -> (r: Option<Move>)
        requires
            self.wf(),
        ensures
            r is Some <==> move_to(self@, node) is Some,
            r matches Some(m) ==> Some(m@.inner) == move_to(self@, node) && m@.san == self@[place_of(
                self@,
                node,
            )].notation,
    {
        match self.inner.prev_move(node) {
            Some(m) => match self.inner.san_at(node) {
                Some(san) => Some(Move { inner: m, san }),
                None => None,
            },
            None => None,
        }
    }

    /// Whether the node has a parent.
    pub fn has_prev_node(&self, node: Uuid) -> (r: bool)
        requires
            self.wf(),
        ensures
            r == parent_of(self@, node).is_some(),
    {
        self.inner.parent(node).is_some()
    }

    /// The parent of a node, or the all-zero identity where it has none.
    pub fn prev_node(&self, node: Uuid) -> (r: Uuid)
        requires
            self.wf(),
        ensures
            parent_of(self@, node) matches Some(parent) ==> r == parent,
            parent_of(self@, node) is None ==> r.l == 0 && r.w1 == 0 && r.w2 == 0 && forall|i: int|
                0 <= i < 8 ==> r.b[i] == 0,
    {
        match self.inner.parent(node) {
            Some(parent) => parent,
            None => Uuid::nil(),
        }
    }

    /// Whether the node has a child.
    pub fn has_next_mainline_node(&self, node: Uuid) -> (r: bool)
        requires
            self.wf(),
        ensures
            r == mainline_of(self@, node).is_some(),
    {
        self.inner.mainline(node).is_some()
    }

    /// The mainline child of a node, or the all-zero identity where it has
    /// none.
    pub fn next_mainline_node(&self, node: Uuid) -> (r: Uuid)
        requires
            self.wf(),
        ensures
            mainline_of(self@, node) matches Some(child) ==> r == child,
            mainline_of(self@, node) is None ==> r.l == 0 && r.w1 == 0 && r.w2 == 0 && forall|
                i: int,
            |
                0 <= i < 8 ==> r.b[i] == 0,
    {
        match self.inner.mainline(node) {
            Some(child) => child,
            None => Uuid::nil(),
        }
    }

    /// The variations below a node: its children but the first.
    pub fn variations(&self, node: Uuid) -> (r: Vec<Uuid>)
        requires
            self.wf(),
        ensures
            r@ == variations_of(self@, node),
    {
        self.inner.other_variations(node)
    }

    /// The other children of the parent of a node.
    pub fn siblings(&self, node: Uuid) -> (r: Vec<Uuid>)
        requires
            self.wf(),
        ensures
            r@ == siblings_of(self@, node),
    {
        self.inner.siblings(node)
    }

    /// The mainline below a node, down to a leaf.
    pub fn mainline_nodes(&self, node: Uuid) -> (r: Vec<Uuid>)
        requires
            self.wf(),
        ensures
            r@ == mainline_path(self@, node),
    {
        self.inner.mainline_nodes(node)
    }

    /// Adds a node below `node` by a move, under a fresh identity, and
    /// hands the identity back. The tree refuses with `InvalidNode` where
    /// `node` names no node or the move is not legal there; whenever it
    /// refuses, it stays as it is.
    pub fn add_node(&mut self, node: Uuid, m: &Move) -> (r: Result<Uuid, GameError>)
        requires
            old(self).wf(),
        ensures
            final(self).wf(),
            !can_extend(old(self)@, node, m@.inner) <==> r == Err::<Uuid, GameError>(
                GameError::InvalidNode,
            ),
            r matches Ok(id) ==> !contains(old(self)@, id) && final(self)@ == extended(
                old(self)@,
                node,
                m@.inner,
                id,
            ),
            r is Err ==> final(self)@ == old(self)@,
    {
        self.inner.add_node(node, m.inner)
    }

    /// The movetext of the whole tree.
    pub fn pgn(&self) -> (r: String)
        requires
            self.wf(),
        ensures
            r@ == movetext(self@),
    {
        self.inner.pgn()
    }
}

} // verus!
