//! The game tree: every position reached so far, each under its own
//! identity, with the move that led to it.
//!
//! Nodes are only ever added. The first child of a node is its mainline
//! continuation; later children are variations.

use vstd::prelude::*;
use crate::moves::Move;
use crate::position::{first_index, index_of, CurPosition};
use crate::rules::mint_identity;
use crate::types::Uuid;

pub mod movetext;

verus! {

/// Why the tree refused a node.
#[derive(Clone, Copy, Debug, PartialEq, Eq, Structural)]
pub enum GameError {
    /// The parent is not a node of this tree, or the move is not legal in
    /// the parent's position.
    InvalidNode,
    /// The identity offered for the new node already names a node.
    IdentityTaken,
}

/// One node of the tree, as the contracts see it.
pub struct NodeView {
    pub id: Uuid,
    /// The place of the parent in the tree; the root has none.
    pub parent: Option<int>,
    /// The move that led here; the root has none.
    pub prev_move: Option<Move>,
    /// The notation of that move.
    pub notation: Seq<char>,
    pub position: CurPosition,
}

struct Node {
    id: Uuid,
    parent: Option<usize>,
    prev_move: Option<Move>,
    san: String,
    position: CurPosition,
}

impl View for Node {
    type V = NodeView;

    closed spec fn view(&self) -> NodeView {
        NodeView {
            id: self.id,
            parent: match self.parent {
                Some(p) => Some(p as int),
                None => None,
            },
            prev_move: self.prev_move,
            notation: self.san@,
            position: self.position,
        }
    }
}

/// Whether node `i` hangs below an earlier node by a move that is legal
/// there, and holds the position and the notation that the move gives.
pub open spec fn linked(g: Seq<NodeView>, i: int) -> bool {
    &&& g[i].parent matches Some(p)
    &&& 0 <= p < i
    &&& g[i].prev_move matches Some(m)
    &&& g[p].position.moves().contains(m)
    &&& g[i].position == g[p].position.after(first_index(g[p].position.moves(), m))
    &&& g[i].notation == g[p].position.notation(first_index(g[p].position.moves(), m))
}

/// A tree is well formed when it starts with a root that has no parent,
/// every other node is linked to an earlier one, and no identity occurs
/// twice.
pub open spec fn well_formed(g: Seq<NodeView>) -> bool {
    &&& g.len() >= 1
    &&& g[0].parent is None
    &&& g[0].prev_move is None
    &&& forall|i: int| 1 <= i < g.len() ==> linked(g, i)
    &&& forall|i: int, j: int| 0 <= i < j < g.len() ==> g[i].id != g[j].id
}

/// Whether an identity names a node of the tree.
pub open spec fn contains(g: Seq<NodeView>, id: Uuid) -> bool {
    exists|i: int| 0 <= i < g.len() && (#[trigger] g[i]).id == id
}

/// The place of the node with a given identity; meant for an identity that
/// names a node.
pub open spec fn place_of(g: Seq<NodeView>, id: Uuid) -> int {
    choose|i: int| 0 <= i < g.len() && (#[trigger] g[i]).id == id
}

/// The identity of the parent of a node.
pub open spec fn parent_of(g: Seq<NodeView>, id: Uuid) -> Option<Uuid> {
    if contains(g, id) {
        match g[place_of(g, id)].parent {
            Some(p) => Some(g[p].id),
            None => None,
        }
    } else {
        None
    }
}

/// The move that led to a node.
pub open spec fn move_to(g: Seq<NodeView>, id: Uuid) -> Option<Move> {
    if contains(g, id) {
        g[place_of(g, id)].prev_move
    } else {
        None
    }
}

/// The position at a node.
pub open spec fn position_at(g: Seq<NodeView>, id: Uuid) -> Option<CurPosition> {
    if contains(g, id) {
        Some(g[place_of(g, id)].position)
    } else {
        None
    }
}

/// The children of a node, in the order in which they were added.
pub open spec fn children_of(g: Seq<NodeView>, id: Uuid) -> Seq<Uuid> {
    if contains(g, id) {
        g.filter(|n: NodeView| n.parent == Some(place_of(g, id))).map_values(|n: NodeView| n.id)
    } else {
        Seq::empty()
    }
}

/// The mainline child of a node: the first child it was given.
pub open spec fn mainline_of(g: Seq<NodeView>, id: Uuid) -> Option<Uuid> {
    if children_of(g, id).len() > 0 {
        Some(children_of(g, id)[0])
    } else {
        None
    }
}

/// The variations below a node: its children but the first.
pub open spec fn variations_of(g: Seq<NodeView>, id: Uuid) -> Seq<Uuid> {
    if children_of(g, id).len() > 0 {
        children_of(g, id).drop_first()
    } else {
        Seq::empty()
    }
}

/// A sequence of identities without one of them.
pub open spec fn without(ids: Seq<Uuid>, id: Uuid) -> Seq<Uuid> {
    ids.filter(|other: Uuid| other != id)
}

/// Taking an identity out of a sequence goes element by element.
proof fn lemma_without_push(ids: Seq<Uuid>, next: Uuid, id: Uuid)
    ensures
        without(ids.push(next), id) == if next != id {
            without(ids, id).push(next)
        } else {
            without(ids, id)
        },
{
    reveal(Seq::filter);
    assert(ids.push(next).drop_last() =~= ids);
}

/// The other children of the parent of a node.
pub open spec fn siblings_of(g: Seq<NodeView>, id: Uuid) -> Seq<Uuid> {
    match parent_of(g, id) {
        Some(parent) => without(children_of(g, parent), id),
        None => Seq::empty(),
    }
}

/// The mainline below a node: its mainline child, that child's mainline
/// child, and so on down to a leaf.
pub open spec fn mainline_path(g: Seq<NodeView>, id: Uuid) -> Seq<Uuid>
    decreases g.len() - place_of(g, id),
{
    match mainline_of(g, id) {
        Some(child) => if place_of(g, id) < place_of(g, child) < g.len() {
            seq![child] + mainline_path(g, child)
        } else {
            seq![child]
        },
        None => Seq::empty(),
    }
}

/// Whether a move can be played below a node: the node is in the tree and
/// the move is legal in its position.
pub open spec fn can_extend(g: Seq<NodeView>, parent: Uuid, m: Move) -> bool {
    contains(g, parent) && g[place_of(g, parent)].position.moves().contains(m)
}

/// The tree with one more node, reached from `parent` by `m` and named
/// `id`.
pub open spec fn extended(g: Seq<NodeView>, parent: Uuid, m: Move, id: Uuid) -> Seq<NodeView> {
    let p = place_of(g, parent);
    let index = first_index(g[p].position.moves(), m);
    g.push(
        NodeView {
            id,
            parent: Some(p),
            prev_move: Some(m),
            notation: g[p].position.notation(index),
            position: g[p].position.after(index),
        },
    )
}

/// In a well-formed tree an identity names one place only.
pub proof fn lemma_place_unique(g: Seq<NodeView>, i: int)
    requires
        well_formed(g),
        0 <= i < g.len(),
    ensures
        contains(g, g[i].id),
        place_of(g, g[i].id) == i,
{
    let k = place_of(g, g[i].id);
    assert(0 <= k < g.len() && g[k].id == g[i].id);
}

/// Every child of a node is a node of the tree.
pub proof fn lemma_children_contained(g: Seq<NodeView>, id: Uuid, j: int)
    requires
        0 <= j < children_of(g, id).len(),
    ensures
        contains(g, children_of(g, id)[j]),
{
    let below = |n: NodeView| n.parent == Some(place_of(g, id));
    let child = g.filter(below)[j];
    g.lemma_filter_contains_rev(below, child);
    let k = choose|k: int| 0 <= k < g.len() && g[k] == child;
    assert(g[k].id == children_of(g, id)[j]);
}

/// The game tree.
pub struct Game {
    nodes: Vec<Node>,
}

impl View for Game {
    type V = Seq<NodeView>;

    closed spec fn view(&self) -> Seq<NodeView> {
        self.nodes@.map_values(|n: Node| n@)
    }
}

impl Game {
    /// A tree is valid when its nodes form a well-formed tree.
    pub open spec fn wf(&self) -> bool {
        well_formed(self@)
    }

    /// A tree of one node, the starting position, under a given identity.
    pub fn with_root(id: Uuid) -> (r: Game)
        ensures
            r@.len() == 1,
            r@[0].id == id,
            r@[0].parent is None,
            r@[0].prev_move is None,
            r@[0].notation == Seq::<char>::empty(),
            r@[0].position.is_starting(),
            r.wf(),
    {
        let root = Node {
            id,
            parent: None,
            prev_move: None,
            san: String::new(),
            position: CurPosition::new(),
        };
        let mut nodes: Vec<Node> = Vec::new();
        nodes.push(root);
        Game { nodes }
    }

    /// A tree of one node, the starting position, under a fresh identity.
    pub fn new() -> (r: Game)
        ensures
            r@.len() == 1,
            r@[0].parent is None,
            r@[0].prev_move is None,
            r@[0].position.is_starting(),
            r.wf(),
    {
        Game::with_root(mint_identity())
    }

    fn len(&self) -> (r: usize)
        ensures
            r == self@.len(),
    {
        self.nodes.len()
    }

    fn parent_place(&self, k: usize) -> (r: Option<usize>)
        requires
            k < self@.len(),
        ensures
            self@[k as int].parent == (match r {
                Some(p) => Some(p as int),
                None => None,
            }),
    {
        self.nodes[k].parent
    }

    fn notation_at(&self, k: usize) -> (r: &String)
        requires
            k < self@.len(),
        ensures
            r@ == self@[k as int].notation,
    {
        &self.nodes[k].san
    }

    fn find(&self, id: &Uuid) -> (r: Option<usize>)
        requires
            self.wf(),
        ensures
            r is Some <==> contains(self@, *id),
            r matches Some(i) ==> i < self@.len() && i == place_of(self@, *id) && self@[i as int].id
                == *id,
    {
        let mut i: usize = 0;
        while i < self.nodes.len()
            invariant
                i <= self.nodes.len(),
                self.wf(),
                forall|j: int| 0 <= j < i ==> (#[trigger] self@[j]).id != *id,
            decreases self.nodes.len() - i,
        {
            if self.nodes[i].id.same(id) {
                proof {
                    lemma_place_unique(self@, i as int);
                }
                return Some(i);
            }
            i += 1;
        }
        None
    }

    /// The identity of the root.
    pub fn root(&self) -> (r: Uuid)
        requires
            self.wf(),
        ensures
            r == self@[0].id,
            contains(self@, r),
    {
        self.nodes[0].id
    }

    /// The position at a node, where the identity names one.
    pub fn board_at(&self, node: Uuid) -> (r: Option<&CurPosition>)
        requires
            self.wf(),
        ensures
            r is Some <==> contains(self@, node),
            r matches Some(position) ==> Some(*position) == position_at(self@, node),
    {
        match self.find(&node) {
            Some(i) => Some(&self.nodes[i].position),
            None => None,
        }
    }

    /// The move that led to a node; none for the root or for an identity
    /// that names no node.
    pub fn prev_move(&self, node: Uuid) -> (r: Option<Move>)
        requires
            self.wf(),
        ensures
            r == move_to(self@, node),
    {
        match self.find(&node) {
            Some(i) => self.nodes[i].prev_move,
            None => None,
        }
    }

    /// The identity of the parent of a node; none for the root or for an
    /// identity that names no node.
    pub fn parent(&self, node: Uuid) -> (r: Option<Uuid>)
        requires
            self.wf(),
        ensures
            r == parent_of(self@, node),
            r matches Some(p) ==> contains(self@, p),
    {
        match self.find(&node) {
            Some(i) => match self.nodes[i].parent {
                Some(p) => {
                    assert(i == 0 || linked(self@, i as int));
                    Some(self.nodes[p].id)
                },
                None => None,
            },
            None => None,
        }
    }

    fn children_at(&self, p: usize) -> (r: Vec<Uuid>)
        requires
            self.wf(),
            p < self@.len(),
        ensures
            r@ == self@.filter(|n: NodeView| n.parent == Some(p as int)).map_values(
                |n: NodeView| n.id,
            ),
            forall|j: int|
                0 <= j < r@.len() ==> contains(self@, #[trigger] r@[j]) && p < place_of(
                    self@,
                    r@[j],
                ),
    {
        let ghost below = |n: NodeView| n.parent == Some(p as int);
        let ghost name = |n: NodeView| n.id;
        let mut out: Vec<Uuid> = Vec::new();
        let mut k: usize = 0;
        while k < self.nodes.len()
            invariant
                k <= self.nodes.len(),
                below == (|n: NodeView| n.parent == Some(p as int)),
                name == (|n: NodeView| n.id),
                self.wf(),
                out@ == self@.take(k as int).filter(below).map_values(name),
                forall|j: int|
                    0 <= j < out@.len() ==> contains(self@, #[trigger] out@[j]) && p < place_of(
                        self@,
                        out@[j],
                    ),
            decreases self.nodes.len() - k,
        {
            proof {
                assert(self@.take(k + 1) == self@.take(k as int).push(self@[k as int]));
                self@.take(k as int).lemma_filter_push(self@[k as int], below);
            }
            let is_child = match self.nodes[k].parent {
                Some(q) => q == p,
                None => false,
            };
            if is_child {
                out.push(self.nodes[k].id);
                proof {
                    let kept = self@.take(k as int).filter(below);
                    assert(kept.push(self@[k as int]).map_values(name) == kept.map_values(
                        name,
                    ).push(self@[k as int].id));
                    assert(linked(self@, k as int));
                    lemma_place_unique(self@, k as int);
                }
            }
            k += 1;
        }
        proof {
            assert(self@.take(self@.len() as int) == self@);
        }
        out
    }

    /// The children of a node, in the order in which they were added.
    pub fn children(&self, node: Uuid) -> (r: Vec<Uuid>)
        requires
            self.wf(),
        ensures
            r@ == children_of(self@, node),
            forall|j: int|
                0 <= j < r@.len() ==> contains(self@, #[trigger] r@[j]) && place_of(self@, node)
                    < place_of(self@, r@[j]),
    {
        match self.find(&node) {
            Some(p) => self.children_at(p),
            None => Vec::new(),
        }
    }

    /// The mainline child of a node: the first child it was given.
    pub fn mainline(&self, node: Uuid) -> (r: Option<Uuid>)
        requires
            self.wf(),
        ensures
            r == mainline_of(self@, node),
            r matches Some(child) ==> contains(self@, child) && place_of(self@, node) < place_of(
                self@,
                child,
            ),
    {
        let children = self.children(node);
        if children.len() > 0 {
            Some(children[0])
        } else {
            None
        }
    }

    /// The notation of the move that led to a node; none for the root or
    /// for an identity that names no node.
    pub fn san_at(&self, node: Uuid) -> (r: Option<String>)
        requires
            self.wf(),
        ensures
            r is Some <==> move_to(self@, node) is Some,
            r matches Some(text) ==> text@ == self@[place_of(self@, node)].notation,
    {
        match self.find(&node) {
            Some(i) => {
                if self.nodes[i].prev_move.is_some() {
                    Some(self.nodes[i].san.clone())
                } else {
                    None
                }
            },
            None => None,
        }
    }

    /// The variations below a node: its children but the first.
    pub fn other_variations(&self, node: Uuid) -> (r: Vec<Uuid>)
        requires
            self.wf(),
        ensures
            r@ == variations_of(self@, node),
    {
        let children = self.children(node);
        let mut out: Vec<Uuid> = Vec::new();
        if children.len() == 0 {
            return out;
        }
        let mut i: usize = 1;
        while i < children.len()
            invariant
                1 <= i <= children.len(),
                out@ == children@.subrange(1, i as int),
            decreases children.len() - i,
        {
            out.push(children[i]);
            proof {
                assert(children@.subrange(1, i + 1) == children@.subrange(1, i as int).push(
                    children@[i as int],
                ));
            }
            i += 1;
        }
        proof {
            assert(children@.subrange(1, children.len() as int) == children@.drop_first());
        }
        out
    }

    /// The other children of the parent of a node, in the order in which
    /// they were added.
    pub fn siblings(&self, node: Uuid) -> (r: Vec<Uuid>)
        requires
            self.wf(),
        ensures
            r@ == siblings_of(self@, node),
    {
        let parent = match self.parent(node) {
            Some(parent) => parent,
            None => {
                return Vec::new();
            },
        };
        let children = self.children(parent);
        let mut out: Vec<Uuid> = Vec::new();
        let mut i: usize = 0;
        while i < children.len()
            invariant
                i <= children.len(),
                out@ == without(children@.take(i as int), node),
            decreases children.len() - i,
        {
            proof {
                assert(children@.take(i + 1) == children@.take(i as int).push(children@[i as int]));
                lemma_without_push(children@.take(i as int), children@[i as int], node);
            }
            if !children[i].same(&node) {
                out.push(children[i]);
            }
            i += 1;
        }
        proof {
            assert(children@.take(children.len() as int) == children@);
        }
        out
    }

    /// The mainline below a node, from its mainline child down to a leaf.
    pub fn mainline_nodes(&self, node: Uuid) -> (r: Vec<Uuid>)
        requires
            self.wf(),
        ensures
            r@ == mainline_path(self@, node),
    {
        let mut node_vec: Vec<Uuid> = Vec::new();
        let mut cur_node = match self.mainline(node) {
            Some(child) => child,
            None => {
                return node_vec;
            },
        };
        node_vec.push(cur_node);
        proof {
            if !contains(self@, node) {
                assert(children_of(self@, node).len() == 0);
            }
            assert(mainline_path(self@, node) == seq![cur_node] + mainline_path(self@, cur_node));
        }
        loop
            invariant
                self.wf(),
                contains(self@, cur_node),
                node_vec@ + mainline_path(self@, cur_node) == mainline_path(self@, node),
            ensures
                node_vec@ == mainline_path(self@, node),
            decreases self@.len() - place_of(self@, cur_node),
        {
            let child = match self.mainline(cur_node) {
                Some(child) => child,
                None => {
                    assert(node_vec@ + Seq::<Uuid>::empty() == node_vec@);
                    break ;
                },
            };
            proof {
                assert(mainline_path(self@, cur_node) == seq![child] + mainline_path(self@, child));
                assert(node_vec@.push(child) + mainline_path(self@, child) == node_vec@ + (seq![
                    child,
                ] + mainline_path(self@, child)));
            }
            node_vec.push(child);
            cur_node = child;
        }
        node_vec
    }

    /// Adds a node under a given identity.
    ///
    /// The node is added exactly when `parent` names a node, `m` is legal in
    /// its position and `id` names no node yet; otherwise the tree stays as
    /// it is.
    pub fn add_node_with_id(&mut self, parent: Uuid, m: Move, id: Uuid) -> (r: Result<
        Uuid,
        GameError,
    >)
        requires
            old(self).wf(),
        ensures
            final(self).wf(),
            !can_extend(old(self)@, parent, m) <==> r == Err::<Uuid, GameError>(
                GameError::InvalidNode,
            ),
            can_extend(old(self)@, parent, m) && contains(old(self)@, id) <==> r == Err::<
                Uuid,
                GameError,
            >(GameError::IdentityTaken),
            r is Ok ==> r == Ok::<Uuid, GameError>(id) && final(self)@ == extended(
                old(self)@,
                parent,
                m,
                id,
            ),
            r is Err ==> final(self)@ == old(self)@,
    {
        let p = match self.find(&parent) {
            Some(p) => p,
            None => {
                return Err(GameError::InvalidNode);
            },
        };
        let moves = self.nodes[p].position.legal_moves();
        let index = match index_of(&moves, &m) {
            Some(index) => index,
            None => {
                return Err(GameError::InvalidNode);
            },
        };
        if self.find(&id).is_some() {
            return Err(GameError::IdentityTaken);
        }
        let position = self.nodes[p].position.play_index(index);
        let san = self.nodes[p].position.san_index(index);
        let node = Node { id, parent: Some(p), prev_move: Some(m), san, position };
        proof {
            let g = self@;
            let h = extended(g, parent, m, id);
            assert(g.push(node@) == h);
            assert(self.nodes@.push(node).map_values(|n: Node| n@) == h);
            lemma_extended_well_formed(g, parent, m, id);
        }
        self.nodes.push(node);
        Ok(id)
    }

    /// Adds a node under a fresh identity and hands the identity back.
    ///
    /// Where `parent` names no node or `m` is not legal in its position, the
    /// tree refuses with `InvalidNode`. Whenever the tree refuses, it stays
    /// as it is.
    pub fn add_node(&mut self, parent: Uuid, m: Move) -> (r: Result<Uuid, GameError>)
        requires
            old(self).wf(),
        ensures
            final(self).wf(),
            !can_extend(old(self)@, parent, m) <==> r == Err::<Uuid, GameError>(
                GameError::InvalidNode,
            ),
            r matches Ok(id) ==> !contains(old(self)@, id) && final(self)@ == extended(
                old(self)@,
                parent,
                m,
                id,
            ),
            r is Err ==> final(self)@ == old(self)@,
    {
        let id = mint_identity();
        self.add_node_with_id(parent, m, id)
    }
}

/// Adding a node to a well-formed tree, under a new identity and by a legal
/// move, gives a well-formed tree.
pub proof fn lemma_extended_well_formed(g: Seq<NodeView>, parent: Uuid, m: Move, id: Uuid)
    requires
        well_formed(g),
        can_extend(g, parent, m),
        !contains(g, id),
    ensures
        well_formed(extended(g, parent, m, id)),
{
    let h = extended(g, parent, m, id);
    let p = place_of(g, parent);
    assert forall|i: int| 1 <= i < h.len() implies linked(h, i) by {
        if i < g.len() {
            assert(linked(g, i));
        }
    }
    assert forall|i: int, j: int| 0 <= i < j < h.len() implies h[i].id != h[j].id by {
        if j == g.len() {
            assert(g[i].id != id);
        }
    }
}

/// A node of the tree keeps its place when a node is added.
pub proof fn lemma_place_kept(g: Seq<NodeView>, parent: Uuid, m: Move, id: Uuid, n: Uuid)
    requires
        well_formed(g),
        can_extend(g, parent, m),
        !contains(g, id),
        contains(g, n),
    ensures
        contains(extended(g, parent, m, id), n),
        place_of(extended(g, parent, m, id), n) == place_of(g, n),
{
    let h = extended(g, parent, m, id);
    lemma_extended_well_formed(g, parent, m, id);
    let i = place_of(g, n);
    assert(h[i].id == n);
    lemma_place_unique(h, i);
}

/// The children of the node at place `i` once a node is added to the tree:
/// one more where the new node names `i` as its parent, the same otherwise.
proof fn lemma_children_after_push(g: Seq<NodeView>, node: NodeView, i: int)
    ensures
        g.push(node).filter(|n: NodeView| n.parent == Some(i)).map_values(|n: NodeView| n.id) == if node.parent
            == Some(i) {
            g.filter(|n: NodeView| n.parent == Some(i)).map_values(|n: NodeView| n.id).push(node.id)
        } else {
            g.filter(|n: NodeView| n.parent == Some(i)).map_values(|n: NodeView| n.id)
        },
{
    let below = |n: NodeView| n.parent == Some(i);
    let name = |n: NodeView| n.id;
    g.lemma_filter_push(node, below);
    if node.parent == Some(i) {
        assert(g.filter(below).push(node).map_values(name) =~= g.filter(below).map_values(name).push(
            node.id,
        ));
    }
}

/// Adding a node below `parent` by the legal move `m` gives a tree in which
/// the new node has `parent` as its parent and `m` as the move that led to
/// it, and is the last child of `parent`. Nothing else changes: every node
/// keeps its parent, its move, its position and, but for `parent`, its
/// children. So the first child that a node was given stays its mainline
/// child for good.
pub proof fn lemma_add_node(g: Seq<NodeView>, parent: Uuid, m: Move, id: Uuid)
    requires
        well_formed(g),
        can_extend(g, parent, m),
        !contains(g, id),
    ensures
        well_formed(extended(g, parent, m, id)),
        contains(extended(g, parent, m, id), id),
        parent_of(extended(g, parent, m, id), id) == Some(parent),
        move_to(extended(g, parent, m, id), id) == Some(m),
        children_of(extended(g, parent, m, id), id) == Seq::<Uuid>::empty(),
        children_of(extended(g, parent, m, id), parent) == children_of(g, parent).push(id),
        mainline_of(extended(g, parent, m, id), parent) == (match mainline_of(g, parent) {
            Some(first) => Some(first),
            None => Some(id),
        }),
        forall|n: Uuid|
            contains(g, n) ==> {
                &&& contains(extended(g, parent, m, id), n)
                &&& parent_of(extended(g, parent, m, id), n) == parent_of(g, n)
                &&& move_to(extended(g, parent, m, id), n) == move_to(g, n)
                &&& position_at(extended(g, parent, m, id), n) == position_at(g, n)
            },
        forall|n: Uuid|
            contains(g, n) && n != parent ==> children_of(extended(g, parent, m, id), n)
                == children_of(g, n),
        forall|n: Uuid|
            contains(g, n) && mainline_of(g, n) is Some ==> mainline_of(
                extended(g, parent, m, id),
                n,
            ) == mainline_of(g, n),
{
    let h = extended(g, parent, m, id);
    let p = place_of(g, parent);
    let node = h[g.len() as int];
    lemma_extended_well_formed(g, parent, m, id);
    lemma_place_unique(h, g.len() as int);
    lemma_place_unique(g, p);
    assert(h[p].id == parent);

    let last = g.len() as int;
    let below_last = |n: NodeView| n.parent == Some(last);
    if h.filter(below_last).len() > 0 {
        let child = h.filter(below_last)[0];
        h.lemma_filter_pred(below_last, 0);
        h.lemma_filter_contains_rev(below_last, child);
        let k = choose|k: int| 0 <= k < h.len() && h[k] == child;
        if k >= 1 {
            assert(linked(h, k));
        }
    }
    assert(children_of(h, id) =~= Seq::<Uuid>::empty());

    lemma_place_kept(g, parent, m, id, parent);
    lemma_children_after_push(g, node, p);

    assert forall|n: Uuid| contains(g, n) implies {
        &&& contains(h, n)
        &&& parent_of(h, n) == parent_of(g, n)
        &&& move_to(h, n) == move_to(g, n)
        &&& position_at(h, n) == position_at(g, n)
    } by {
        lemma_place_kept(g, parent, m, id, n);
        let i = place_of(g, n);
        if i >= 1 {
            assert(linked(g, i));
        }
    }
    assert forall|n: Uuid| contains(g, n) && n != parent implies children_of(h, n) == children_of(
        g,
        n,
    ) by {
        lemma_place_kept(g, parent, m, id, n);
        lemma_children_after_push(g, node, place_of(g, n));
        if place_of(g, n) == p {
            assert(g[p].id == n);
        }
    }
    assert forall|n: Uuid| contains(g, n) && mainline_of(g, n) is Some implies mainline_of(h, n)
        == mainline_of(g, n) by {
        lemma_place_kept(g, parent, m, id, n);
        lemma_children_after_push(g, node, place_of(g, n));
    }
}

} // verus!
