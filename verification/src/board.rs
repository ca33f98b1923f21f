//! The vocabulary of the board: files, ranks, squares, sides, pieces and
//! moves, as plain values.

use vstd::prelude::*;

verus! {

/// A column of the board, `A` on White's left.
#[derive(Clone, Copy, Debug, PartialEq, Eq, Hash, Structural)]
pub enum File {
    A,
    B,
    C,
    D,
    E,
    F,
    G,
    H,
}

/// A row of the board, `First` nearest to White.
#[derive(Clone, Copy, Debug, PartialEq, Eq, Hash, Structural)]
pub enum Rank {
    First,
    Second,
    Third,
    Fourth,
    Fifth,
    Sixth,
    Seventh,
    Eighth,
}

/// One of the two sides.
#[derive(Clone, Copy, Debug, PartialEq, Eq, Hash, Structural)]
pub enum Color {
    White,
    Black,
}

/// A kind of piece.
#[derive(Clone, Copy, Debug, PartialEq, Eq, Hash, Structural)]
pub enum Piece {
    Pawn,
    Knight,
    Bishop,
    Rook,
    Queen,
    King,
}

/// One of the 64 cells of the board.
#[derive(Clone, Copy, Debug, PartialEq, Eq, Hash, Structural)]
pub struct Square {
    pub rank: Rank,
    pub file: File,
}

/// A move: where a piece leaves, where it lands, and what a pawn becomes.
#[derive(Clone, Copy, Debug, PartialEq, Eq, Hash, Structural)]
pub struct ChessMove {
    pub source: Square,
    pub dest: Square,
    pub promotion: Option<Piece>,
}

impl File {
    /// The file's number, 0 for `A` up to 7 for `H`.
    pub open spec fn index(self) -> int {
        match self {
            File::A => 0,
            File::B => 1,
            File::C => 2,
            File::D => 3,
            File::E => 4,
            File::F => 5,
            File::G => 6,
            File::H => 7,
        }
    }

    /// The file with the given number.
    pub open spec fn of(i: int) -> File {
        if i == 0 {
            File::A
        } else if i == 1 {
            File::B
        } else if i == 2 {
            File::C
        } else if i == 3 {
            File::D
        } else if i == 4 {
            File::E
        } else if i == 5 {
            File::F
        } else if i == 6 {
            File::G
        } else {
            File::H
        }
    }

    pub fn to_index(&self) -> (i: usize)
        ensures
            i == self.index(),
            i < 8,
    {
        match self {
            File::A => 0,
            File::B => 1,
            File::C => 2,
            File::D => 3,
            File::E => 4,
            File::F => 5,
            File::G => 6,
            File::H => 7,
        }
    }

    /// The file numbered `i` modulo 8.
    pub fn from_index(i: usize) -> (f: File)
        ensures
            f == File::of(i as int % 8),
            f.index() == i as int % 8,
    {
        match i % 8 {
            0 => File::A,
            1 => File::B,
            2 => File::C,
            3 => File::D,
            4 => File::E,
            5 => File::F,
            6 => File::G,
            _ => File::H,
        }
    }
}

impl Rank {
    /// The rank's number, 0 for `First` up to 7 for `Eighth`.
    pub open spec fn index(self) -> int {
        match self {
            Rank::First => 0,
            Rank::Second => 1,
            Rank::Third => 2,
            Rank::Fourth => 3,
            Rank::Fifth => 4,
            Rank::Sixth => 5,
            Rank::Seventh => 6,
            Rank::Eighth => 7,
        }
    }

    /// The rank with the given number.
    pub open spec fn of(i: int) -> Rank {
        if i == 0 {
            Rank::First
        } else if i == 1 {
            Rank::Second
        } else if i == 2 {
            Rank::Third
        } else if i == 3 {
            Rank::Fourth
        } else if i == 4 {
            Rank::Fifth
        } else if i == 5 {
            Rank::Sixth
        } else if i == 6 {
            Rank::Seventh
        } else {
            Rank::Eighth
        }
    }

    pub fn to_index(&self) -> (i: usize)
        ensures
            i == self.index(),
            i < 8,
    {
        match self {
            Rank::First => 0,
            Rank::Second => 1,
            Rank::Third => 2,
            Rank::Fourth => 3,
            Rank::Fifth => 4,
            Rank::Sixth => 5,
            Rank::Seventh => 6,
            Rank::Eighth => 7,
        }
    }

    /// The rank numbered `i` modulo 8.
    pub fn from_index(i: usize) -> (r: Rank)
        ensures
            r == Rank::of(i as int % 8),
            r.index() == i as int % 8,
    {
        match i % 8 {
            0 => Rank::First,
            1 => Rank::Second,
            2 => Rank::Third,
            3 => Rank::Fourth,
            4 => Rank::Fifth,
            5 => Rank::Sixth,
            6 => Rank::Seventh,
            _ => Rank::Eighth,
        }
    }
}

impl Color {
    /// 0 for White, 1 for Black.
    pub open spec fn index(self) -> int {
        match self {
            Color::White => 0,
            Color::Black => 1,
        }
    }

    pub fn to_index(&self) -> (i: usize)
        ensures
            i == self.index(),
            i < 2,
    {
        match self {
            Color::White => 0,
            Color::Black => 1,
        }
    }

    /// White for an even number, Black for an odd one.
    pub fn from_index(i: usize) -> (c: Color)
        ensures
            c.index() == i as int % 2,
    {
        if i % 2 == 0 {
            Color::White
        } else {
            Color::Black
        }
    }
}

impl Piece {
    /// The piece's number, from 0 for a pawn to 5 for a king.
    pub open spec fn index(self) -> int {
        match self {
            Piece::Pawn => 0,
            Piece::Knight => 1,
            Piece::Bishop => 2,
            Piece::Rook => 3,
            Piece::Queen => 4,
            Piece::King => 5,
        }
    }

    pub fn to_index(&self) -> (i: usize)
        ensures
            i == self.index(),
            i < 6,
    {
        match self {
            Piece::Pawn => 0,
            Piece::Knight => 1,
            Piece::Bishop => 2,
            Piece::Rook => 3,
            Piece::Queen => 4,
            Piece::King => 5,
        }
    }

    /// The piece numbered `i` modulo 6.
    pub fn from_index(i: usize) -> (p: Piece)
        ensures
            p.index() == i as int % 6,
    {
        match i % 6 {
            0 => Piece::Pawn,
            1 => Piece::Knight,
            2 => Piece::Bishop,
            3 => Piece::Rook,
            4 => Piece::Queen,
            _ => Piece::King,
        }
    }
}

impl Square {
    /// The square's number: eight times the rank's plus the file's, so `A1`
    /// is 0 and `H8` is 63.
    pub open spec fn index(self) -> int {
        self.rank.index() * 8 + self.file.index()
    }

    /// The square with the given number.
    pub open spec fn of(i: int) -> Square {
        Square { rank: Rank::of(i / 8), file: File::of(i % 8) }
    }

    /// The square one rank nearer to `color`'s own side, if there is one.
    pub open spec fn spec_backward(self, color: Color) -> Option<Square> {
        match color {
            Color::White => if self.rank == Rank::First {
                None
            } else {
                Some(Square { rank: Rank::of(self.rank.index() - 1), file: self.file })
            },
            Color::Black => if self.rank == Rank::Eighth {
                None
            } else {
                Some(Square { rank: Rank::of(self.rank.index() + 1), file: self.file })
            },
        }
    }

    pub fn make_square(rank: Rank, file: File) -> (sq: Square)
        ensures
            sq == (Square { rank, file }),
    {
        Square { rank, file }
    }

    pub fn get_rank(&self) -> (r: Rank)
        ensures
            r == self.rank,
    {
        self.rank
    }

    pub fn get_file(&self) -> (f: File)
        ensures
            f == self.file,
    {
        self.file
    }

    pub fn to_index(&self) -> (i: usize)
        ensures
            i == self.index(),
            i < 64,
    {
        self.rank.to_index() * 8 + self.file.to_index()
    }

    /// The square numbered `i` modulo 64.
    pub fn from_index(i: usize) -> (sq: Square)
        ensures
            sq == Square::of(i as int % 64),
            sq.index() == i as int % 64,
    {
        let j: usize = i % 64;
        Square { rank: Rank::from_index(j / 8), file: File::from_index(j % 8) }
    }

    /// The square numbered `i`.
    pub fn nth(i: usize) -> (sq: Square)
        requires
            i < 64,
        ensures
            sq == Square::of(i as int),
    {
        Square { rank: Rank::from_index(i / 8), file: File::from_index(i % 8) }
    }

    /// The square behind this one as `color` sees the board: one rank down
    /// for White, one rank up for Black, none at the edge.
    pub fn backward(&self, color: Color) -> (r: Option<Square>)
        ensures
            r == self.spec_backward(color),
    {
        let rank: usize = self.rank.to_index();
        match color {
            Color::White => if rank == 0 {
                None
            } else {
                Some(Square { rank: Rank::from_index(rank - 1), file: self.file })
            },
            Color::Black => if rank == 7 {
                None
            } else {
                Some(Square { rank: Rank::from_index(rank + 1), file: self.file })
            },
        }
    }
}

impl ChessMove {
    pub fn new(source: Square, dest: Square, promotion: Option<Piece>) -> (mv: ChessMove)
        ensures
            mv == (ChessMove { source, dest, promotion }),
    {
        ChessMove { source, dest, promotion }
    }

    pub fn get_source(&self) -> (sq: Square)
        ensures
            sq == self.source,
    {
        self.source
    }

    pub fn get_dest(&self) -> (sq: Square)
        ensures
            sq == self.dest,
    {
        self.dest
    }

    pub fn get_promotion(&self) -> (p: Option<Piece>)
        ensures
            p == self.promotion,
    {
        self.promotion
    }
}

/// A set of squares, one bit for each: bit `i` stands for the square
/// numbered `i`.
#[derive(Clone, Copy, Debug, PartialEq, Eq, Hash, Structural)]
pub struct SquareSet {
    pub bits: u64,
}

/// Whether bit `i` of `bits` is set.
pub open spec fn bit(bits: u64, i: u64) -> bool {
    (bits >> i) & 1 == 1
}

/// `set` with `sq` put in if it was out, and taken out if it was in.
pub open spec fn toggled(set: Set<Square>, sq: Square) -> Set<Square> {
    if set.contains(sq) {
        set.remove(sq)
    } else {
        set.insert(sq)
    }
}

proof fn lemma_flip_bit(bits: u64, i: u64, j: u64)
    by (bit_vector)
    requires
        i < 64,
        j < 64,
    ensures
        bit(bits ^ (1u64 << i), j) == (if i == j {
            !bit(bits, j)
        } else {
            bit(bits, j)
        }),
{
}

proof fn lemma_no_bit(j: u64)
    by (bit_vector)
    requires
        j < 64,
    ensures
        !bit(0u64, j),
{
}

proof fn lemma_test_bit(bits: u64, i: u64)
    by (bit_vector)
    requires
        i < 64,
    ensures
        (bits & (1u64 << i) != 0) == bit(bits, i),
{
}

impl View for SquareSet {
    type V = Set<Square>;

    open spec fn view(&self) -> Set<Square> {
        Set::new(|sq: Square| bit(self.bits, sq.index() as u64))
    }
}

impl SquareSet {
    pub fn new() -> (set: SquareSet)
        ensures
            set@ == Set::<Square>::empty(),
            set.bits == 0,
    {
        let set = SquareSet { bits: 0 };
        proof {
            assert forall|sq: Square| !set@.contains(sq) by {
                lemma_no_bit(sq.index() as u64);
            }
            assert(set@ =~= Set::<Square>::empty());
        }
        set
    }

    pub fn contains(&self, sq: Square) -> (inside: bool)
        ensures
            inside == self@.contains(sq),
    {
        let i: u64 = sq.to_index() as u64;
        proof {
            lemma_test_bit(self.bits, i);
        }
        self.bits & (1u64 << i) != 0
    }

    /// Puts `sq` in if it was out, and takes it out if it was in.
    pub fn toggle(&mut self, sq: Square)
        ensures
            final(self)@ == toggled(old(self)@, sq),
            final(self).bits == old(self).bits ^ (1u64 << (sq.index() as u64)),
    {
        let i: u64 = sq.to_index() as u64;
        let bits: u64 = self.bits ^ (1u64 << i);
        proof {
            let after = SquareSet { bits };
            assert forall|other: Square|
                after@.contains(other) == toggled(old(self)@, sq).contains(other) by {
                lemma_flip_bit(old(self).bits, i, other.index() as u64);
                if other.index() == sq.index() {
                    lemma_square_index_injective(other, sq);
                }
            }
            assert(after@ =~= toggled(old(self)@, sq));
        }
        self.bits = bits;
    }
}

/// Toggling a square twice gives the set back.
pub proof fn lemma_toggle_twice(set: Set<Square>, sq: Square)
    ensures
        toggled(toggled(set, sq), sq) == set,
{
    assert(toggled(toggled(set, sq), sq) =~= set);
}

/// A square is the one its number names.
pub proof fn lemma_square_of_index(sq: Square)
    ensures
        0 <= sq.index() < 64,
        Square::of(sq.index()) == sq,
{
}

/// Squares with the same number are the same square.
pub proof fn lemma_square_index_injective(a: Square, b: Square)
    requires
        a.index() == b.index(),
    ensures
        a == b,
{
    lemma_square_of_index(a);
    lemma_square_of_index(b);
}

} // verus!
