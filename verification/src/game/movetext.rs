//! The movetext of a game tree: the mainline with move numbers, and every
//! variation in brackets behind the move it replaces.

use vstd::prelude::*;
use super::{linked, Game, NodeView};

verus! {

/// The places of the children of the node at place `i`, in the order in
/// which they were added.
pub open spec fn child_places(g: Seq<NodeView>, i: int) -> Seq<int> {
    Seq::new(g.len(), |k: int| k).filter(|k: int| g[k].parent == Some(i))
}

/// The character of a decimal digit.
pub open spec fn digit_char(d: int) -> char {
    if d == 0 {
        '0'
    } else if d == 1 {
        '1'
    } else if d == 2 {
        '2'
    } else if d == 3 {
        '3'
    } else if d == 4 {
        '4'
    } else if d == 5 {
        '5'
    } else if d == 6 {
        '6'
    } else if d == 7 {
        '7'
    } else if d == 8 {
        '8'
    } else {
        '9'
    }
}

/// A number in decimal digits.
pub open spec fn number_text(n: nat) -> Seq<char>
    decreases n,
{
    if n < 10 {
        seq![digit_char(n as int)]
    } else {
        number_text(n / 10).push(digit_char((n % 10) as int))
    }
}

/// The move that leads to the node at place `k`, played after `ply` half
/// moves.
///
/// A move of White carries its number and a dot. A move of Black carries its
/// number and three dots where it opens a line or follows a bracket, and
/// stands bare otherwise.
pub open spec fn move_token(g: Seq<NodeView>, k: int, ply: nat, numbered: bool) -> Seq<char> {
    if ply % 2 == 0 {
        number_text(ply / 2 + 1) + seq!['.', ' '] + g[k].notation
    } else if numbered {
        number_text(ply / 2 + 1) + seq!['.', '.', '.', ' '] + g[k].notation
    } else {
        g[k].notation
    }
}

/// The play below the node at place `i`, reached after `ply` half moves:
/// the mainline move, each variation in brackets, and then what follows the
/// mainline move. Empty below a leaf.
pub open spec fn line_text(g: Seq<NodeView>, i: int, ply: nat, numbered: bool) -> Seq<char>
    decreases g.len() - i, 2int, 0int,
{
    let children = child_places(g, i);
    if children.len() == 0 {
        Seq::empty()
    } else {
        move_token(g, children[0], ply, numbered) + variations_text(g, i, 1, ply)
            + continuation_text(g, i, children[0], ply + 1, children.len() > 1)
    }
}

/// The variations below the node at place `i`, from the `j`-th child on,
/// each with a space before its opening bracket.
pub open spec fn variations_text(g: Seq<NodeView>, i: int, j: int, ply: nat) -> Seq<char>
    decreases g.len() - i, 1int, child_places(g, i).len() - j,
{
    let children = child_places(g, i);
    if 1 <= j < children.len() {
        seq![' ', '('] + move_token(g, children[j], ply, true) + continuation_text(
            g,
            i,
            children[j],
            ply + 1,
            false,
        ) + seq![')'] + variations_text(g, i, j + 1, ply)
    } else {
        Seq::empty()
    }
}

/// What follows the move into the node at place `k`, a child of the node
/// at place `i`: a space and the play below `k`, or nothing below a leaf.
pub open spec fn continuation_text(
    g: Seq<NodeView>,
    i: int,
    k: int,
    ply: nat,
    numbered: bool,
) -> Seq<char>
    decreases g.len() - i, 0int, 0int,
{
    if i < k < g.len() && child_places(g, k).len() > 0 {
        seq![' '] + line_text(g, k, ply, numbered)
    } else {
        Seq::empty()
    }
}

/// The movetext of a whole tree.
pub open spec fn movetext(g: Seq<NodeView>) -> Seq<char> {
    line_text(g, 0, 0, false)
}

fn push_digit(out: &mut String, d: usize)
    requires
        d < 10,
    ensures
        final(out)@ == old(out)@.push(digit_char(d as int)),
{
    proof {
        reveal_strlit("0");
        reveal_strlit("1");
        reveal_strlit("2");
        reveal_strlit("3");
        reveal_strlit("4");
        reveal_strlit("5");
        reveal_strlit("6");
        reveal_strlit("7");
        reveal_strlit("8");
        reveal_strlit("9");
    }
    let text = if d == 0 {
        "0"
    } else if d == 1 {
        "1"
    } else if d == 2 {
        "2"
    } else if d == 3 {
        "3"
    } else if d == 4 {
        "4"
    } else if d == 5 {
        "5"
    } else if d == 6 {
        "6"
    } else if d == 7 {
        "7"
    } else if d == 8 {
        "8"
    } else {
        "9"
    };
    assert(text@ == seq![digit_char(d as int)]);
    out.append(text);
    assert(out@ == old(out)@.push(digit_char(d as int)));
}

fn write_number(out: &mut String, n: usize)
    ensures
        final(out)@ == old(out)@ + number_text(n as nat),
    decreases n,
{
    if n >= 10 {
        write_number(out, n / 10);
    }
    push_digit(out, n % 10);
    assert(out@ == old(out)@ + number_text(n as nat));
}

impl Game {
    fn child_places_at(&self, i: usize) -> (r: Vec<usize>)
        requires
            self.wf(),
            i < self@.len(),
        ensures
            r@.map_values(|k: usize| k as int) == child_places(self@, i as int),
            forall|j: int| 0 <= j < r@.len() ==> i < (#[trigger] r@[j]) < self@.len(),
    {
        let ghost places = Seq::new(self@.len(), |k: int| k);
        let ghost below = |k: int| self@[k].parent == Some(i as int);
        let ghost widen = |k: usize| k as int;
        let mut out: Vec<usize> = Vec::new();
        let n = self.len();
        let mut k: usize = 0;
        while k < n
            invariant
                k <= n,
                n == self@.len(),
                self.wf(),
                places == Seq::new(self@.len(), |k: int| k),
                below == (|k: int| self@[k].parent == Some(i as int)),
                widen == (|k: usize| k as int),
                out@.map_values(widen) == places.take(k as int).filter(below),
                forall|j: int| 0 <= j < out@.len() ==> i < (#[trigger] out@[j]) < self@.len(),
            decreases n - k,
        {
            proof {
                assert(places.take(k + 1) == places.take(k as int).push(k as int));
                places.take(k as int).lemma_filter_push(k as int, below);
            }
            let is_child = match self.parent_place(k) {
                Some(p) => p == i,
                None => false,
            };
            if is_child {
                proof {
                    assert(k >= 1);
                    assert(linked(self@, k as int));
                    assert(out@.push(k).map_values(widen) == out@.map_values(widen).push(k as int));
                }
                out.push(k);
            }
            k += 1;
        }
        proof {
            assert(places.take(n as int) == places);
        }
        out
    }

    fn write_move(&self, out: &mut String, k: usize, ply: usize, numbered: bool)
        requires
            k < self@.len(),
            ply < usize::MAX,
        ensures
            final(out)@ == old(out)@ + move_token(self@, k as int, ply as nat, numbered),
    {
        proof {
            reveal_strlit(". ");
            reveal_strlit("... ");
        }
        if ply % 2 == 0 {
            write_number(out, ply / 2 + 1);
            out.append(". ");
            assert(". "@ == seq!['.', ' ']);
        } else if numbered {
            write_number(out, ply / 2 + 1);
            out.append("... ");
            assert("... "@ == seq!['.', '.', '.', ' ']);
        }
        out.append(self.notation_at(k).as_str());
        assert(out@ == old(out)@ + move_token(self@, k as int, ply as nat, numbered));
    }

    fn write_continuation(&self, out: &mut String, i: usize, k: usize, ply: usize, numbered: bool)
        requires
            self.wf(),
            i < k < self@.len(),
            ply <= k,
        ensures
            final(out)@ == old(out)@ + continuation_text(
                self@,
                i as int,
                k as int,
                ply as nat,
                numbered,
            ),
        decreases self@.len() - i, 0int,
    {
        let children = self.child_places_at(k);
        proof {
            assert(children@.map_values(|k: usize| k as int).len() == children@.len());
            reveal_strlit(" ");
        }
        if children.len() > 0 {
            out.append(" ");
            assert(" "@ == seq![' ']);
            self.write_line(out, k, &children, ply, numbered);
            assert(out@ == old(out)@ + (seq![' '] + line_text(
                self@,
                k as int,
                ply as nat,
                numbered,
            )));
        } else {
            assert(out@ == old(out)@ + Seq::<char>::empty());
        }
    }

    fn write_line(
        &self,
        out: &mut String,
        i: usize,
        children: &Vec<usize>,
        ply: usize,
        numbered: bool,
    )
        requires
            self.wf(),
            i < self@.len(),
            ply <= i,
            children@.map_values(|k: usize| k as int) == child_places(self@, i as int),
            forall|j: int| 0 <= j < children@.len() ==> i < (#[trigger] children@[j]) < self@.len(),
        ensures
            final(out)@ == old(out)@ + line_text(self@, i as int, ply as nat, numbered),
        decreases self@.len() - i, 1int,
    {
        let ghost g = self@;
        let ghost places = child_places(g, i as int);
        proof {
            assert(places.len() == children@.len());
            assert forall|j: int| 0 <= j < children@.len() implies places[j] == children@[j] by {
                assert(children@.map_values(|k: usize| k as int)[j] == children@[j] as int);
            }
        }
        if children.len() == 0 {
            assert(out@ == old(out)@ + Seq::<char>::empty());
            return ;
        }
        let main = children[0];
        self.write_move(out, main, ply, numbered);
        let ghost after_move = out@;
        let mut j: usize = 1;
        while j < children.len()
            invariant
                1 <= j <= children.len(),
                self.wf(),
                g == self@,
                i < g.len(),
                ply <= i,
                places == child_places(g, i as int),
                places.len() == children@.len(),
                forall|j: int| 0 <= j < children@.len() ==> places[j] == children@[j],
                forall|j: int|
                    0 <= j < children@.len() ==> i < (#[trigger] children@[j]) < self@.len(),
                out@ + variations_text(g, i as int, j as int, ply as nat) == after_move
                    + variations_text(g, i as int, 1, ply as nat),
            decreases children.len() - j,
        {
            let ghost before = out@;
            let child = children[j];
            proof {
                reveal_strlit(" (");
                reveal_strlit(")");
            }
            out.append(" (");
            assert(" ("@ == seq![' ', '(']);
            self.write_move(out, child, ply, true);
            self.write_continuation(out, i, child, ply + 1, false);
            out.append(")");
            assert(")"@ == seq![')']);
            proof {
                let head = seq![' ', '('] + move_token(g, child as int, ply as nat, true)
                    + continuation_text(g, i as int, child as int, (ply + 1) as nat, false) + seq![
                    ')',
                ];
                assert(out@ == before + head);
                assert(variations_text(g, i as int, j as int, ply as nat) == head
                    + variations_text(g, i as int, j + 1, ply as nat));
                assert(before + (head + variations_text(g, i as int, j + 1, ply as nat)) == (before
                    + head) + variations_text(g, i as int, j + 1, ply as nat));
            }
            j += 1;
        }
        proof {
            assert(variations_text(g, i as int, j as int, ply as nat) == Seq::<char>::empty());
            assert(out@ + Seq::<char>::empty() == out@);
        }
        let ghost after_variations = out@;
        self.write_continuation(out, i, main, ply + 1, children.len() > 1);
        proof {
            let token = move_token(g, main as int, ply as nat, numbered);
            let variations = variations_text(g, i as int, 1, ply as nat);
            let rest = continuation_text(
                g,
                i as int,
                main as int,
                (ply + 1) as nat,
                children@.len() > 1,
            );
            assert(after_move == old(out)@ + token);
            assert(after_variations == after_move + variations);
            assert(out@ == after_variations + rest);
            assert(out@ == old(out)@ + (token + variations + rest));
        }
    }

    /// The movetext of the whole tree.
    pub fn pgn(&self) -> (r: String)
        requires
            self.wf(),
        ensures
            r@ == movetext(self@),
    {
        let mut out = String::new();
        let children = self.child_places_at(0);
        self.write_line(&mut out, 0, &children, 0, false);
        assert(out@ == Seq::<char>::empty() + movetext(self@));
        out
    }
}

} // verus!
