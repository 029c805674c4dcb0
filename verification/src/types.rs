//! Plain value types shared by every layer: node identities, colours, roles,
//! pieces and board squares.

use vstd::prelude::*;

verus! {

/// A 128-bit node identity, split into the four customary fields.
///
/// Identities carry no order; they are only ever compared for equality.
#[derive(Clone, Copy, Debug, PartialEq, Eq)]
pub struct Uuid {
    pub l: u32,
    pub w1: u16,
    pub w2: u16,
    pub b: [u8; 8],
}

impl Uuid {
    /// The all-zero identity, handed out where a lookup finds nothing.
    pub fn nil() -> (r: Uuid)
        ensures
            r.l == 0,
            r.w1 == 0,
            r.w2 == 0,
            forall|i: int| 0 <= i < 8 ==> r.b[i] == 0,
    {
        Uuid { l: 0, w1: 0, w2: 0, b: [0u8; 8] }
    }

    /// Whether two identities are the same value.
    pub fn same(&self, other: &Uuid) -> (r: bool)
        ensures
            r == (*self == *other),
    {
        let fields = self.l == other.l && self.w1 == other.w1 && self.w2 == other.w2;
        let bytes = self.b[0] == other.b[0] && self.b[1] == other.b[1] && self.b[2] == other.b[2]
            && self.b[3] == other.b[3] && self.b[4] == other.b[4] && self.b[5] == other.b[5]
            && self.b[6] == other.b[6] && self.b[7] == other.b[7];
        proof {
            if bytes {
                assert(self.b =~= other.b);
            }
        }
        fields && bytes
    }
}

/// The two sides.
#[derive(Clone, Copy, Debug, PartialEq, Eq, Structural)]
pub enum Color {
    Black,
    White,
}

/// What kind of piece a piece is.
#[derive(Clone, Copy, Debug, PartialEq, Eq, Structural)]
pub enum Role {
    Pawn,
    Knight,
    Bishop,
    Rook,
    Queen,
    King,
}

impl Role {
    /// The customary number of a role: pawn 1, knight 2, bishop 3, rook 4,
    /// queen 5, king 6.
    pub open spec fn number(self) -> int {
        match self {
            Role::Pawn => 1,
            Role::Knight => 2,
            Role::Bishop => 3,
            Role::Rook => 4,
            Role::Queen => 5,
            Role::King => 6,
        }
    }

    /// The role with a given number, if the number names one.
    pub open spec fn numbered(n: int) -> Option<Role> {
        if n == 1 {
            Some(Role::Pawn)
        } else if n == 2 {
            Some(Role::Knight)
        } else if n == 3 {
            Some(Role::Bishop)
        } else if n == 4 {
            Some(Role::Rook)
        } else if n == 5 {
            Some(Role::Queen)
        } else if n == 6 {
            Some(Role::King)
        } else {
            None
        }
    }

    /// The number of the role.
    pub fn to_u8(self) -> (r: u8)
        ensures
            r == self.number(),
            1 <= r <= 6,
    {
        match self {
            Role::Pawn => 1,
            Role::Knight => 2,
            Role::Bishop => 3,
            Role::Rook => 4,
            Role::Queen => 5,
            Role::King => 6,
        }
    }

    /// The role with a given number, if the number names one.
    pub fn from_u8(n: u8) -> (r: Option<Role>)
        ensures
            r == Role::numbered(n as int),
            r is Some <==> 1 <= n <= 6,
    {
        match n {
            1 => Some(Role::Pawn),
            2 => Some(Role::Knight),
            3 => Some(Role::Bishop),
            4 => Some(Role::Rook),
            5 => Some(Role::Queen),
            6 => Some(Role::King),
            _ => None,
        }
    }
}

/// A piece: a role in a colour.
#[derive(Clone, Copy, Debug, PartialEq, Eq, Structural)]
pub struct Piece {
    pub color: Color,
    pub role: Role,
}

/// The piece given for a square that holds none: a black knight.
pub fn piece_default() -> (r: Piece)
    ensures
        r == (Piece { color: Color::Black, role: Role::Knight }),
{
    Piece { color: Color::Black, role: Role::Knight }
}

/// A board square, numbered 0 to 63 from a1 along the ranks to h8.
#[derive(Clone, Copy, Debug, PartialEq, Eq, Structural)]
pub struct Square {
    pub index: u8,
}

/// The index of the square on a given file and rank.
pub open spec fn coords_index(file: int, rank: int) -> int {
    rank * 8 + file
}

impl Square {
    /// A square is valid when it lies on the board.
    pub open spec fn wf(self) -> bool {
        self.index < 64
    }

    /// The file, 0 for the a-file to 7 for the h-file.
    pub open spec fn file_of(self) -> int {
        self.index as int % 8
    }

    /// The rank, 0 for the first rank to 7 for the eighth.
    pub open spec fn rank_of(self) -> int {
        self.index as int / 8
    }

    /// The file, 0 for the a-file to 7 for the h-file.
    pub fn file(&self) -> (r: u8)
        ensures
            r == self.file_of(),
            r < 8,
    {
        let i = self.index;
        assert(i & 7 == i % 8) by (bit_vector);
        self.index & 7
    }

    /// The rank, 0 for the first rank to 7 for the eighth.
    pub fn rank(&self) -> (r: u8)
        ensures
            r == self.rank_of(),
            self.wf() ==> r < 8,
    {
        let i = self.index;
        assert(i >> 3 == i / 8) by (bit_vector);
        self.index >> 3
    }
}

/// The square given where none is meant: a1.
pub fn square_default() -> (r: Square)
    ensures
        r.index == 0,
{
    Square { index: 0 }
}

/// The square on a given file and rank, both counted from 0.
pub fn square_from_coords(file: u8, rank: u8) -> (r: Square)
    requires
        file < 8,
        rank < 8,
    ensures
        r.index == coords_index(file as int, rank as int),
        r.wf(),
        r.file_of() == file,
        r.rank_of() == rank,
{
    Square { index: rank * 8 + file }
}

/// Every valid square has a file and a rank below 8, and is the square that
/// its own file and rank name.
pub proof fn lemma_square_round_trip(s: Square)
    requires
        s.wf(),
    ensures
        0 <= s.file_of() < 8,
        0 <= s.rank_of() < 8,
        coords_index(s.file_of(), s.rank_of()) == s.index,
{
}

} // verus!
