use vstd::prelude::*;

verus! {

/// The six kinds of chess piece.
#[derive(Copy, Clone, Debug, PartialEq, Eq, Structural)]
pub enum PieceType {
    Pawn,
    Knight,
    Bishop,
    Rook,
    Queen,
    King,
}

/// The two sides.
#[derive(Copy, Clone, Debug, PartialEq, Eq, Structural)]
pub enum Color {
    White,
    Black,
}

impl Color {
    /// The opposing side.
    pub open spec fn spec_other(self) -> Color {
        match self {
            Color::White => Color::Black,
            Color::Black => Color::White,
        }
    }

}

/// A piece: a kind together with the side that owns it.
#[derive(Copy, Clone, Debug, PartialEq, Eq, Structural)]
pub struct Piece {
    pub piece_type: PieceType,
    pub color: Color,
}

/// The piece denoted by a FEN symbol, if any: lower case letters are
/// Black's pieces and upper case letters are White's.
pub open spec fn spec_piece_of_symbol(c: char) -> Option<(PieceType, Color)> {
    if c == 'p' { Some((PieceType::Pawn, Color::Black)) }
    else if c == 'r' { Some((PieceType::Rook, Color::Black)) }
    else if c == 'n' { Some((PieceType::Knight, Color::Black)) }
    else if c == 'b' { Some((PieceType::Bishop, Color::Black)) }
    else if c == 'q' { Some((PieceType::Queen, Color::Black)) }
    else if c == 'k' { Some((PieceType::King, Color::Black)) }
    else if c == 'P' { Some((PieceType::Pawn, Color::White)) }
    else if c == 'R' { Some((PieceType::Rook, Color::White)) }
    else if c == 'N' { Some((PieceType::Knight, Color::White)) }
    else if c == 'B' { Some((PieceType::Bishop, Color::White)) }
    else if c == 'Q' { Some((PieceType::Queen, Color::White)) }
    else if c == 'K' { Some((PieceType::King, Color::White)) }
    else { None }
}

impl PieceType {
    /// Decode a FEN piece symbol into a kind and a side.
    pub fn from_symbol(character: char) -> (r: Option<(PieceType, Color)>)
        ensures
            r == spec_piece_of_symbol(character),
    {
        match character {
            'p' => Some((PieceType::Pawn, Color::Black)),
            'r' => Some((PieceType::Rook, Color::Black)),
            'n' => Some((PieceType::Knight, Color::Black)),
            'b' => Some((PieceType::Bishop, Color::Black)),
            'q' => Some((PieceType::Queen, Color::Black)),
            'k' => Some((PieceType::King, Color::Black)),
            'P' => Some((PieceType::Pawn, Color::White)),
            'R' => Some((PieceType::Rook, Color::White)),
            'N' => Some((PieceType::Knight, Color::White)),
            'B' => Some((PieceType::Bishop, Color::White)),
            'Q' => Some((PieceType::Queen, Color::White)),
            'K' => Some((PieceType::King, Color::White)),
            _ => None,
        }
    }
}

impl Piece {
    /// The piece a FEN symbol stands for, if any.
    pub fn from_symbol(character: char) -> (r: Option<Piece>)
        ensures
            match spec_piece_of_symbol(character) {
                Some(tc) => r == Some(Piece { piece_type: tc.0, color: tc.1 }),
                None => r is None,
            },
    {
        match PieceType::from_symbol(character) {
            Some((piece_type, color)) => Some(Piece { piece_type, color }),
            None => None,
        }
    }

    /// This piece's FEN symbol.
    pub open spec fn spec_symbol(self) -> char {
        match self.color {
            Color::White => match self.piece_type {
                PieceType::Pawn => 'P',
                PieceType::Knight => 'N',
                PieceType::Bishop => 'B',
                PieceType::Rook => 'R',
                PieceType::Queen => 'Q',
                PieceType::King => 'K',
            },
            Color::Black => match self.piece_type {
                PieceType::Pawn => 'p',
                PieceType::Knight => 'n',
                PieceType::Bishop => 'b',
                PieceType::Rook => 'r',
                PieceType::Queen => 'q',
                PieceType::King => 'k',
            },
        }
    }

    pub fn symbol(self) -> (r: char)
        ensures
            r == self.spec_symbol(),
    {
        match self.color {
            Color::White => match self.piece_type {
                PieceType::Pawn => 'P',
                PieceType::Knight => 'N',
                PieceType::Bishop => 'B',
                PieceType::Rook => 'R',
                PieceType::Queen => 'Q',
                PieceType::King => 'K',
            },
            Color::Black => match self.piece_type {
                PieceType::Pawn => 'p',
                PieceType::Knight => 'n',
                PieceType::Bishop => 'b',
                PieceType::Rook => 'r',
                PieceType::Queen => 'q',
                PieceType::King => 'k',
            },
        }
    }

    pub fn piece_type(self) -> (r: PieceType)
        ensures
            r == self.piece_type,
    {
        self.piece_type
    }

    pub fn color(self) -> (r: Color)
        ensures
            r == self.color,
    {
        self.color
    }
}

/// A board square. `A1` is square 0; indices then run file-first up to
/// `H8`, square 63.
#[derive(Copy, Clone, Debug, PartialEq, Eq, Structural)]
pub enum Square {
    A1, B1, C1, D1, E1, F1, G1, H1,
    A2, B2, C2, D2, E2, F2, G2, H2,
    A3, B3, C3, D3, E3, F3, G3, H3,
    A4, B4, C4, D4, E4, F4, G4, H4,
    A5, B5, C5, D5, E5, F5, G5, H5,
    A6, B6, C6, D6, E6, F6, G6, H6,
    A7, B7, C7, D7, E7, F7, G7, H7,
    A8, B8, C8, D8, E8, F8, G8, H8,
}

impl Square {
    /// The square's index in 0..64: file + 8 * rank.
    pub open spec fn spec_index(self) -> int {
        match self {
            Square::A1 => 0,
            Square::B1 => 1,
            Square::C1 => 2,
            Square::D1 => 3,
            Square::E1 => 4,
            Square::F1 => 5,
            Square::G1 => 6,
            Square::H1 => 7,
            Square::A2 => 8,
            Square::B2 => 9,
            Square::C2 => 10,
            Square::D2 => 11,
            Square::E2 => 12,
            Square::F2 => 13,
            Square::G2 => 14,
            Square::H2 => 15,
            Square::A3 => 16,
            Square::B3 => 17,
            Square::C3 => 18,
            Square::D3 => 19,
            Square::E3 => 20,
            Square::F3 => 21,
            Square::G3 => 22,
            Square::H3 => 23,
            Square::A4 => 24,
            Square::B4 => 25,
            Square::C4 => 26,
            Square::D4 => 27,
            Square::E4 => 28,
            Square::F4 => 29,
            Square::G4 => 30,
            Square::H4 => 31,
            Square::A5 => 32,
            Square::B5 => 33,
            Square::C5 => 34,
            Square::D5 => 35,
            Square::E5 => 36,
            Square::F5 => 37,
            Square::G5 => 38,
            Square::H5 => 39,
            Square::A6 => 40,
            Square::B6 => 41,
            Square::C6 => 42,
            Square::D6 => 43,
            Square::E6 => 44,
            Square::F6 => 45,
            Square::G6 => 46,
            Square::H6 => 47,
            Square::A7 => 48,
            Square::B7 => 49,
            Square::C7 => 50,
            Square::D7 => 51,
            Square::E7 => 52,
            Square::F7 => 53,
            Square::G7 => 54,
            Square::H7 => 55,
            Square::A8 => 56,
            Square::B8 => 57,
            Square::C8 => 58,
            Square::D8 => 59,
            Square::E8 => 60,
            Square::F8 => 61,
            Square::G8 => 62,
            Square::H8 => 63,
        }
    }

    pub fn index(self) -> (r: u8)
        ensures
            r as int == self.spec_index(),
            r < 64,
    {
        match self {
            Square::A1 => 0,
            Square::B1 => 1,
            Square::C1 => 2,
            Square::D1 => 3,
            Square::E1 => 4,
            Square::F1 => 5,
            Square::G1 => 6,
            Square::H1 => 7,
            Square::A2 => 8,
            Square::B2 => 9,
            Square::C2 => 10,
            Square::D2 => 11,
            Square::E2 => 12,
            Square::F2 => 13,
            Square::G2 => 14,
            Square::H2 => 15,
            Square::A3 => 16,
            Square::B3 => 17,
            Square::C3 => 18,
            Square::D3 => 19,
            Square::E3 => 20,
            Square::F3 => 21,
            Square::G3 => 22,
            Square::H3 => 23,
            Square::A4 => 24,
            Square::B4 => 25,
            Square::C4 => 26,
            Square::D4 => 27,
            Square::E4 => 28,
            Square::F4 => 29,
            Square::G4 => 30,
            Square::H4 => 31,
            Square::A5 => 32,
            Square::B5 => 33,
            Square::C5 => 34,
            Square::D5 => 35,
            Square::E5 => 36,
            Square::F5 => 37,
            Square::G5 => 38,
            Square::H5 => 39,
            Square::A6 => 40,
            Square::B6 => 41,
            Square::C6 => 42,
            Square::D6 => 43,
            Square::E6 => 44,
            Square::F6 => 45,
            Square::G6 => 46,
            Square::H6 => 47,
            Square::A7 => 48,
            Square::B7 => 49,
            Square::C7 => 50,
            Square::D7 => 51,
            Square::E7 => 52,
            Square::F7 => 53,
            Square::G7 => 54,
            Square::H7 => 55,
            Square::A8 => 56,
            Square::B8 => 57,
            Square::C8 => 58,
            Square::D8 => 59,
            Square::E8 => 60,
            Square::F8 => 61,
            Square::G8 => 62,
            Square::H8 => 63,
        }
    }

    /// The square's file in 0..8, 0 being the a-file.
    pub fn file(self) -> (r: u8)
        ensures
            r as int == self.spec_index() % 8,
    {
        self.index() % 8
    }

    /// The square's rank in 0..8, 0 being White's home rank.
    pub fn rank(self) -> (r: u8)
        ensures
            r as int == self.spec_index() / 8,
    {
        self.index() / 8
    }

    /// The colour of the square itself on a printed board.
    pub fn background_color(self) -> (r: Color)
        ensures
            r == (if (self.spec_index() % 8 + self.spec_index() / 8) % 2 == 0 {
                Color::Black
            } else {
                Color::White
            }),
    {
        if (self.file() + self.rank()) % 2 == 0 {
            Color::Black
        } else {
            Color::White
        }
    }

    /// The square with the given index.
    pub fn from_index(idx: u8) -> (r: Square)
        requires
            idx < 64,
        ensures
            r.spec_index() == idx as int,
    {
        match idx {
            0 => Square::A1,
            1 => Square::B1,
            2 => Square::C1,
            3 => Square::D1,
            4 => Square::E1,
            5 => Square::F1,
            6 => Square::G1,
            7 => Square::H1,
            8 => Square::A2,
            9 => Square::B2,
            10 => Square::C2,
            11 => Square::D2,
            12 => Square::E2,
            13 => Square::F2,
            14 => Square::G2,
            15 => Square::H2,
            16 => Square::A3,
            17 => Square::B3,
            18 => Square::C3,
            19 => Square::D3,
            20 => Square::E3,
            21 => Square::F3,
            22 => Square::G3,
            23 => Square::H3,
            24 => Square::A4,
            25 => Square::B4,
            26 => Square::C4,
            27 => Square::D4,
            28 => Square::E4,
            29 => Square::F4,
            30 => Square::G4,
            31 => Square::H4,
            32 => Square::A5,
            33 => Square::B5,
            34 => Square::C5,
            35 => Square::D5,
            36 => Square::E5,
            37 => Square::F5,
            38 => Square::G5,
            39 => Square::H5,
            40 => Square::A6,
            41 => Square::B6,
            42 => Square::C6,
            43 => Square::D6,
            44 => Square::E6,
            45 => Square::F6,
            46 => Square::G6,
            47 => Square::H6,
            48 => Square::A7,
            49 => Square::B7,
            50 => Square::C7,
            51 => Square::D7,
            52 => Square::E7,
            53 => Square::F7,
            54 => Square::G7,
            55 => Square::H7,
            56 => Square::A8,
            57 => Square::B8,
            58 => Square::C8,
            59 => Square::D8,
            60 => Square::E8,
            61 => Square::F8,
            62 => Square::G8,
            _ => Square::H8,
        }
    }

    /// The square on the given file and rank, each in 0..8.
    pub fn from_coords(file: u8, rank: u8) -> (r: Square)
        requires
            file < 8,
            rank < 8,
        ensures
            r.spec_index() == file + 8 * rank,
    {
        Square::from_index(file + 8 * rank)
    }
}

} // verus!
