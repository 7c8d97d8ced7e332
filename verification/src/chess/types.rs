use vstd::prelude::*;

verus! {

/// Side to move or owner of a piece.
#[derive(Debug, Clone, Copy, PartialEq, Eq, Hash, Structural)]
pub enum Color {
    White,
    Black,
}

impl Color {
    pub open spec fn spec_other(self) -> Color {
        match self {
            Color::White => Color::Black,
            Color::Black => Color::White,
        }
    }

    /// The opposite side.
    pub fn other(self) -> (c: Color)
        ensures
            c == self.spec_other(),
    {
        match self {
            Color::White => Color::Black,
            Color::Black => Color::White,
        }
    }
}

/// Kind of a chess piece.
#[derive(Debug, Clone, Copy, PartialEq, Eq, Hash, Structural)]
pub enum Role {
    Pawn,
    Knight,
    Bishop,
    Rook,
    Queen,
    King,
}

/// A square of the board: `index == rank * 8 + file`, so a1 is 0 and h8 is 63.
#[derive(Debug, Clone, Copy, PartialEq, Eq, Hash, Structural)]
pub struct Square(pub u8);

} // verus!

verus! {

impl Role {
    /// The lowercase letter of the piece kind, as in UCI promotions.
    pub open spec fn spec_char(self) -> char {
        match self {
            Role::Pawn => 'p',
            Role::Knight => 'n',
            Role::Bishop => 'b',
            Role::Rook => 'r',
            Role::Queen => 'q',
            Role::King => 'k',
        }
    }

    pub open spec fn spec_from_char(c: char) -> Option<Role> {
        if c == 'p' {
            Some(Role::Pawn)
        } else if c == 'n' {
            Some(Role::Knight)
        } else if c == 'b' {
            Some(Role::Bishop)
        } else if c == 'r' {
            Some(Role::Rook)
        } else if c == 'q' {
            Some(Role::Queen)
        } else if c == 'k' {
            Some(Role::King)
        } else {
            None
        }
    }

    pub fn to_char(self) -> (c: char)
        ensures
            c == self.spec_char(),
    {
        match self {
            Role::Pawn => 'p',
            Role::Knight => 'n',
            Role::Bishop => 'b',
            Role::Rook => 'r',
            Role::Queen => 'q',
            Role::King => 'k',
        }
    }

    /// The piece kind named by a lowercase letter.
    pub fn from_char(c: char) -> (r: Option<Role>)
        ensures
            r == Role::spec_from_char(c),
            r matches Some(role) ==> role.spec_char() == c,
    {
        if c == 'p' {
            Some(Role::Pawn)
        } else if c == 'n' {
            Some(Role::Knight)
        } else if c == 'b' {
            Some(Role::Bishop)
        } else if c == 'r' {
            Some(Role::Rook)
        } else if c == 'q' {
            Some(Role::Queen)
        } else if c == 'k' {
            Some(Role::King)
        } else {
            None
        }
    }
}

impl Square {
    pub open spec fn file(self) -> int {
        self.0 as int % 8
    }

    pub open spec fn rank(self) -> int {
        self.0 as int / 8
    }

    /// The square on a file and rank, both counted from zero.
    pub fn from_coords(file: u8, rank: u8) -> (s: Square)
        requires
            file < 8,
            rank < 8,
        ensures
            s.0 == rank * 8 + file,
            s.file() == file,
            s.rank() == rank,
    {
        Square(rank * 8 + file)
    }

    /// The file (0 for a to 7 for h) of a square on the board.
    pub fn file_index(self) -> (f: u8)
        ensures
            f == self.file(),
    {
        self.0 % 8
    }

    /// The rank (0 for 1 to 7 for 8) of a square.
    pub fn rank_index(self) -> (r: u8)
        ensures
            r == self.rank(),
    {
        self.0 / 8
    }

    /// Whether two characters name a square, such as `e4`.
    pub open spec fn spec_parse(s: Seq<char>) -> Option<Square> {
        if s.len() == 2 && 'a' <= s[0] && s[0] <= 'h' && '1' <= s[1] && s[1] <= '8' {
            Some(Square(((s[1] as int - '1' as int) * 8 + (s[0] as int - 'a' as int)) as u8))
        } else {
            None
        }
    }

    /// The two-character name of a square on the board.
    pub open spec fn spec_name(self) -> Seq<char> {
        seq![('a' as int + self.file()) as char, ('1' as int + self.rank()) as char]
    }

    /// Reads a square name such as `e4` (exactly a file letter and a rank digit).
    pub fn parse(s: &[char]) -> (r: Option<Square>)
        ensures
            r == Square::spec_parse(s@),
            r matches Some(sq) ==> sq.0 < 64,
    {
        if s.len() == 2 && 'a' <= s[0] && s[0] <= 'h' && '1' <= s[1] && s[1] <= '8' {
            let f = (s[0] as u32 - 'a' as u32) as u8;
            let k = (s[1] as u32 - '1' as u32) as u8;
            Some(Square(k * 8 + f))
        } else {
            None
        }
    }

    /// Reads a square name given as text.
    pub fn parse_str(s: &str) -> (r: Option<Square>)
        ensures
            r == Square::spec_parse(s@),
    {
        let v = crate::text::chars_of(s);
        Square::parse(v.as_slice())
    }

    /// The two-character name of a square, such as `e4`.
    pub fn name(self) -> (v: Vec<char>)
        ensures
            v@ == self.spec_name(),
    {
        let f = self.0 % 8;
        let k = self.0 / 8;
        let mut v: Vec<char> = Vec::new();
        v.push(((97u8 + f) as char));
        v.push(((49u8 + k) as char));
        proof {
            assert(v@ =~= self.spec_name());
        }
        v
    }
}

/// Naming a square and reading the name back gives the same square.
pub proof fn lemma_square_name_roundtrip(sq: Square)
    requires
        sq.0 < 64,
    ensures
        Square::spec_parse(sq.spec_name()) == Some(sq),
{
    let n = sq.spec_name();
    assert(n.len() == 2);
    assert(Square::spec_parse(n) == Some(Square(((n[1] as int - '1' as int) * 8 + (n[0] as int - 'a' as int)) as u8)));
    assert((sq.0 as int / 8) * 8 + (sq.0 as int % 8) == sq.0 as int);
}

/// Reading a square name and naming the square gives the same text.
pub proof fn lemma_square_parse_roundtrip(s: Seq<char>)
    requires
        Square::spec_parse(s) is Some,
    ensures
        Square::spec_parse(s).unwrap().spec_name() == s,
        Square::spec_parse(s).unwrap().0 < 64,
{
    let sq = Square::spec_parse(s).unwrap();
    let f = s[0] as int - 'a' as int;
    let k = s[1] as int - '1' as int;
    assert(sq.0 == k * 8 + f);
    assert(sq.file() == f);
    assert(sq.rank() == k);
    assert(sq.spec_name() =~= s);
}

} // verus!
