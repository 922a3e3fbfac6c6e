use vstd::prelude::*;

verus! {

/// One of the 64 cells of the board.
///
/// The variants are listed row by row, from the eighth rank down to the first,
/// and from file a to file h within a row. The place of a variant in that list,
/// counted from zero, is the square's ordinal.
#[derive(Copy, Clone, Debug, PartialEq, Eq, Structural)]
pub enum Square {
    A8, B8, C8, D8, E8, F8, G8, H8,
    A7, B7, C7, D7, E7, F7, G7, H7,
    A6, B6, C6, D6, E6, F6, G6, H6,
    A5, B5, C5, D5, E5, F5, G5, H5,
    A4, B4, C4, D4, E4, F4, G4, H4,
    A3, B3, C3, D3, E3, F3, G3, H3,
    A2, B2, C2, D2, E2, F2, G2, H2,
    A1, B1, C1, D1, E1, F1, G1, H1,
}

impl Square {
    /// The ordinal of the square: `0` for `A8`, `7` for `H8`, `63` for `H1`.
    pub open spec fn spec_ordinal(self) -> u8 {
        match self {
            Square::A8 => 0,
            Square::B8 => 1,
            Square::C8 => 2,
            Square::D8 => 3,
            Square::E8 => 4,
            Square::F8 => 5,
            Square::G8 => 6,
            Square::H8 => 7,
            Square::A7 => 8,
            Square::B7 => 9,
            Square::C7 => 10,
            Square::D7 => 11,
            Square::E7 => 12,
            Square::F7 => 13,
            Square::G7 => 14,
            Square::H7 => 15,
            Square::A6 => 16,
            Square::B6 => 17,
            Square::C6 => 18,
            Square::D6 => 19,
            Square::E6 => 20,
            Square::F6 => 21,
            Square::G6 => 22,
            Square::H6 => 23,
            Square::A5 => 24,
            Square::B5 => 25,
            Square::C5 => 26,
            Square::D5 => 27,
            Square::E5 => 28,
            Square::F5 => 29,
            Square::G5 => 30,
            Square::H5 => 31,
            Square::A4 => 32,
            Square::B4 => 33,
            Square::C4 => 34,
            Square::D4 => 35,
            Square::E4 => 36,
            Square::F4 => 37,
            Square::G4 => 38,
            Square::H4 => 39,
            Square::A3 => 40,
            Square::B3 => 41,
            Square::C3 => 42,
            Square::D3 => 43,
            Square::E3 => 44,
            Square::F3 => 45,
            Square::G3 => 46,
            Square::H3 => 47,
            Square::A2 => 48,
            Square::B2 => 49,
            Square::C2 => 50,
            Square::D2 => 51,
            Square::E2 => 52,
            Square::F2 => 53,
            Square::G2 => 54,
            Square::H2 => 55,
            Square::A1 => 56,
            Square::B1 => 57,
            Square::C1 => 58,
            Square::D1 => 59,
            Square::E1 => 60,
            Square::F1 => 61,
            Square::G1 => 62,
            Square::H1 => 63,
        }
    }

    /// The square with ordinal `n`. For `n` outside `0..64` the value is `H1`
    /// and carries no meaning.
    pub open spec fn at(n: u8) -> Square {
        match n {
            0 => Square::A8,
            1 => Square::B8,
            2 => Square::C8,
            3 => Square::D8,
            4 => Square::E8,
            5 => Square::F8,
            6 => Square::G8,
            7 => Square::H8,
            8 => Square::A7,
            9 => Square::B7,
            10 => Square::C7,
            11 => Square::D7,
            12 => Square::E7,
            13 => Square::F7,
            14 => Square::G7,
            15 => Square::H7,
            16 => Square::A6,
            17 => Square::B6,
            18 => Square::C6,
            19 => Square::D6,
            20 => Square::E6,
            21 => Square::F6,
            22 => Square::G6,
            23 => Square::H6,
            24 => Square::A5,
            25 => Square::B5,
            26 => Square::C5,
            27 => Square::D5,
            28 => Square::E5,
            29 => Square::F5,
            30 => Square::G5,
            31 => Square::H5,
            32 => Square::A4,
            33 => Square::B4,
            34 => Square::C4,
            35 => Square::D4,
            36 => Square::E4,
            37 => Square::F4,
            38 => Square::G4,
            39 => Square::H4,
            40 => Square::A3,
            41 => Square::B3,
            42 => Square::C3,
            43 => Square::D3,
            44 => Square::E3,
            45 => Square::F3,
            46 => Square::G3,
            47 => Square::H3,
            48 => Square::A2,
            49 => Square::B2,
            50 => Square::C2,
            51 => Square::D2,
            52 => Square::E2,
            53 => Square::F2,
            54 => Square::G2,
            55 => Square::H2,
            56 => Square::A1,
            57 => Square::B1,
            58 => Square::C1,
            59 => Square::D1,
            60 => Square::E1,
            61 => Square::F1,
            62 => Square::G1,
            _ => Square::H1,
        }
    }

    /// The rank of the square as it is written on the board: `8` for the top
    /// row (`A8`..`H8`), `1` for the bottom row (`A1`..`H1`).
    pub open spec fn spec_rank(self) -> u8 {
        (8 - self.spec_ordinal() / 8) as u8
    }

    /// The file of the square counted from zero: `0` for file a, `7` for file h.
    pub open spec fn spec_file(self) -> u8 {
        self.spec_ordinal() % 8
    }

    /// The square on the rank with index `rank_index` and the file with index
    /// `file_index`, both counted from zero: rank index `0` is the first rank,
    /// file index `0` is file a. `None` unless both lie in `0..8`.
    pub open spec fn spec_new(rank_index: u8, file_index: u8) -> Option<Square> {
        if rank_index <= 7 && file_index <= 7 {
            Some(Square::at(((7 - rank_index) * 8 + file_index) as u8))
        } else {
            None
        }
    }

    /// The square's ordinal.
    #[verifier::when_used_as_spec(spec_ordinal)]
    pub fn ordinal(self) -> (n: u8)
        ensures
            n == self.spec_ordinal(),
            n < 64,
    {
        match self {
            Square::A8 => 0,
            Square::B8 => 1,
            Square::C8 => 2,
            Square::D8 => 3,
            Square::E8 => 4,
            Square::F8 => 5,
            Square::G8 => 6,
            Square::H8 => 7,
            Square::A7 => 8,
            Square::B7 => 9,
            Square::C7 => 10,
            Square::D7 => 11,
            Square::E7 => 12,
            Square::F7 => 13,
            Square::G7 => 14,
            Square::H7 => 15,
            Square::A6 => 16,
            Square::B6 => 17,
            Square::C6 => 18,
            Square::D6 => 19,
            Square::E6 => 20,
            Square::F6 => 21,
            Square::G6 => 22,
            Square::H6 => 23,
            Square::A5 => 24,
            Square::B5 => 25,
            Square::C5 => 26,
            Square::D5 => 27,
            Square::E5 => 28,
            Square::F5 => 29,
            Square::G5 => 30,
            Square::H5 => 31,
            Square::A4 => 32,
            Square::B4 => 33,
            Square::C4 => 34,
            Square::D4 => 35,
            Square::E4 => 36,
            Square::F4 => 37,
            Square::G4 => 38,
            Square::H4 => 39,
            Square::A3 => 40,
            Square::B3 => 41,
            Square::C3 => 42,
            Square::D3 => 43,
            Square::E3 => 44,
            Square::F3 => 45,
            Square::G3 => 46,
            Square::H3 => 47,
            Square::A2 => 48,
            Square::B2 => 49,
            Square::C2 => 50,
            Square::D2 => 51,
            Square::E2 => 52,
            Square::F2 => 53,
            Square::G2 => 54,
            Square::H2 => 55,
            Square::A1 => 56,
            Square::B1 => 57,
            Square::C1 => 58,
            Square::D1 => 59,
            Square::E1 => 60,
            Square::F1 => 61,
            Square::G1 => 62,
            Square::H1 => 63,
        }
    }

    /// The square with the given ordinal, if there is one.
    pub fn from_ordinal(n: u8) -> (r: Option<Square>)
        ensures
            n < 64 ==> r == Some(Square::at(n)),
            n >= 64 ==> r.is_none(),
    {
        match n {
            0 => Some(Square::A8),
            1 => Some(Square::B8),
            2 => Some(Square::C8),
            3 => Some(Square::D8),
            4 => Some(Square::E8),
            5 => Some(Square::F8),
            6 => Some(Square::G8),
            7 => Some(Square::H8),
            8 => Some(Square::A7),
            9 => Some(Square::B7),
            10 => Some(Square::C7),
            11 => Some(Square::D7),
            12 => Some(Square::E7),
            13 => Some(Square::F7),
            14 => Some(Square::G7),
            15 => Some(Square::H7),
            16 => Some(Square::A6),
            17 => Some(Square::B6),
            18 => Some(Square::C6),
            19 => Some(Square::D6),
            20 => Some(Square::E6),
            21 => Some(Square::F6),
            22 => Some(Square::G6),
            23 => Some(Square::H6),
            24 => Some(Square::A5),
            25 => Some(Square::B5),
            26 => Some(Square::C5),
            27 => Some(Square::D5),
            28 => Some(Square::E5),
            29 => Some(Square::F5),
            30 => Some(Square::G5),
            31 => Some(Square::H5),
            32 => Some(Square::A4),
            33 => Some(Square::B4),
            34 => Some(Square::C4),
            35 => Some(Square::D4),
            36 => Some(Square::E4),
            37 => Some(Square::F4),
            38 => Some(Square::G4),
            39 => Some(Square::H4),
            40 => Some(Square::A3),
            41 => Some(Square::B3),
            42 => Some(Square::C3),
            43 => Some(Square::D3),
            44 => Some(Square::E3),
            45 => Some(Square::F3),
            46 => Some(Square::G3),
            47 => Some(Square::H3),
            48 => Some(Square::A2),
            49 => Some(Square::B2),
            50 => Some(Square::C2),
            51 => Some(Square::D2),
            52 => Some(Square::E2),
            53 => Some(Square::F2),
            54 => Some(Square::G2),
            55 => Some(Square::H2),
            56 => Some(Square::A1),
            57 => Some(Square::B1),
            58 => Some(Square::C1),
            59 => Some(Square::D1),
            60 => Some(Square::E1),
            61 => Some(Square::F1),
            62 => Some(Square::G1),
            63 => Some(Square::H1),
            _ => None,
        }
    }

    /// Builds a square from a rank index and a file index, both counted from
    /// zero. The ordinal is `row * 8 + file_index`, where `row = 7 - rank_index`
    /// counts the rows down from the eighth rank.
    #[verifier::when_used_as_spec(spec_new)]
    pub fn new(rank_index: u8, file_index: u8) -> (r: Option<Square>)
        ensures
            r == Square::spec_new(rank_index, file_index),
            r.is_some() <==> rank_index <= 7 && file_index <= 7,
            r matches Some(s) ==> s.spec_ordinal() == (7 - rank_index) * 8 + file_index,
    {
        if rank_index > 7 || file_index > 7 {
            return None;
        }
        let row: u8 = 7 - rank_index;
        proof {
            Square::lemma_at_ordinal((row * 8 + file_index) as u8);
        }
        Square::from_ordinal(row * 8 + file_index)
    }

    /// The rank of the square, `8 - ordinal / 8`: between `1` and `8`.
    #[verifier::when_used_as_spec(spec_rank)]
    pub fn rank(self) -> (r: u8)
        ensures
            r == self.spec_rank(),
            r == 8 - self.spec_ordinal() / 8,
            1 <= r <= 8,
    {
        8 - self.ordinal() / 8
    }

    /// The file of the square, `ordinal % 8`: between `0` and `7`.
    #[verifier::when_used_as_spec(spec_file)]
    pub fn file(self) -> (f: u8)
        ensures
            f == self.spec_file(),
            f == self.spec_ordinal() % 8,
            f <= 7,
    {
        self.ordinal() % 8
    }

    /// Every ordinal lies in `0..64`, and `at` undoes `ordinal`.
    pub proof fn lemma_ordinal_at(s: Square)
        ensures
            0 <= s.spec_ordinal() < 64,
            Square::at(s.spec_ordinal()) == s,
    {
    }

    /// Every number in `0..64` is the ordinal of the square that `at` gives.
    pub proof fn lemma_at_ordinal(n: u8)
        requires
            n < 64,
        ensures
            Square::at(n).spec_ordinal() == n,
    {
    }

    /// Two squares with the same ordinal are the same square: together with
    /// `lemma_at_ordinal` this makes `ordinal` a bijection onto `0..64`.
    pub proof fn lemma_ordinal_injective(a: Square, b: Square)
        requires
            a.spec_ordinal() == b.spec_ordinal(),
        ensures
            a == b,
    {
        Square::lemma_ordinal_at(a);
        Square::lemma_ordinal_at(b);
    }

    /// The conversion between squares and pairs of a rank index and a file
    /// index in `0..8` is total and one-to-one in both directions: a square's
    /// own pair builds the square again.
    pub proof fn lemma_new_of_rank_file(s: Square)
        ensures
            1 <= s.spec_rank() <= 8,
            s.spec_file() <= 7,
            Square::spec_new((s.spec_rank() - 1) as u8, s.spec_file()) == Some(s),
    {
        Square::lemma_ordinal_at(s);
    }

    /// A square built from a pair in `0..8` x `0..8` has that pair: its rank is
    /// the rank index plus one, its file is the file index.
    pub proof fn lemma_rank_file_of_new(rank_index: u8, file_index: u8)
        requires
            rank_index <= 7,
            file_index <= 7,
        ensures
            Square::spec_new(rank_index, file_index) matches Some(s) && s.spec_rank()
                == rank_index + 1 && s.spec_file() == file_index,
    {
        Square::lemma_at_ordinal(((7 - rank_index) * 8 + file_index) as u8);
    }
}

} // verus!
