use vstd::prelude::*;
use vstd::std_specs::convert::{FromSpecImpl, TryFromSpecImpl};
use crate::square::Square;

verus! {

/// A square as the wire protocol writes it: a file letter, `'a'` to `'h'`, and a
/// rank number, `1` to `8`. Any pair can be held; only those on the board
/// convert into a `Square`.
#[derive(Copy, Clone, Debug, PartialEq, Eq, Structural)]
pub struct Coordinate {
    pub file: char,
    pub rank: u8,
}

/// A coordinate named a file other than `'a'` to `'h'` or a rank other than `1`
/// to `8`.
#[derive(Copy, Clone, Debug, PartialEq, Eq, Structural)]
pub struct TryIntoSquareError;

impl Coordinate {
    /// Whether the coordinate names one of the 64 squares.
    pub open spec fn spec_is_on_board(self) -> bool {
        'a' <= self.file <= 'h' && 1 <= self.rank <= 8
    }

    /// The square that the coordinate names. The file letter and the rank
    /// number are first brought to indices counted from zero, `file - 'a'` and
    /// `rank - 1`; the square is the one that `Square::new` builds from them.
    pub open spec fn to_square(self) -> Result<Square, TryIntoSquareError> {
        if self.spec_is_on_board() {
            match Square::spec_new((self.rank - 1) as u8, (self.file as u32 - 'a' as u32) as u8) {
                Some(s) => Ok(s),
                None => Err(TryIntoSquareError),
            }
        } else {
            Err(TryIntoSquareError)
        }
    }

    /// The coordinate that names a square: the letter of its file and its rank.
    pub open spec fn of_square(s: Square) -> Coordinate {
        Coordinate { file: ('a' as u8 + s.spec_file()) as char, rank: s.spec_rank() }
    }

    /// A coordinate with the given file letter and rank number.
    pub fn new(file: char, rank: u8) -> (c: Coordinate)
        ensures
            c.file == file,
            c.rank == rank,
    {
        Coordinate { file, rank }
    }

    /// Whether the coordinate names one of the 64 squares.
    #[verifier::when_used_as_spec(spec_is_on_board)]
    pub fn is_on_board(self) -> (b: bool)
        ensures
            b == self.spec_is_on_board(),
    {
        'a' <= self.file && self.file <= 'h' && 1 <= self.rank && self.rank <= 8
    }

    /// Converting a square to its coordinate and back gives the square again.
    pub proof fn lemma_square_round_trip(s: Square)
        ensures
            Coordinate::of_square(s).spec_is_on_board(),
            Coordinate::of_square(s).to_square() == Ok::<Square, TryIntoSquareError>(s),
    {
        Square::lemma_new_of_rank_file(s);
    }

    /// Converting a coordinate on the board to its square and back gives the
    /// coordinate again.
    pub proof fn lemma_coordinate_round_trip(c: Coordinate)
        requires
            c.spec_is_on_board(),
        ensures
            c.to_square() matches Ok(s) && Coordinate::of_square(s) == c,
    {
        Square::lemma_rank_file_of_new((c.rank - 1) as u8, (c.file as u32 - 'a' as u32) as u8);
    }

    /// A coordinate off the board converts to no square, and one on the board
    /// always converts.
    pub proof fn lemma_converts_iff_on_board(c: Coordinate)
        ensures
            c.to_square().is_ok() <==> c.spec_is_on_board(),
            !c.spec_is_on_board() ==> c.to_square() == Err::<Square, TryIntoSquareError>(
                TryIntoSquareError,
            ),
    {
    }
}

impl TryFrom<Coordinate> for Square {
    type Error = TryIntoSquareError;

    /// The square that a coordinate names, or an error if its file is not one
    /// of `'a'` to `'h'` or its rank is not one of `1` to `8`.
    fn try_from(x: Coordinate) -> (r: Result<Square, TryIntoSquareError>)
        ensures
            r == x.to_square(),
            r.is_ok() <==> 'a' <= x.file <= 'h' && 1 <= x.rank <= 8,
            r matches Ok(s) ==> s.spec_ordinal() == (8 - x.rank) * 8 + (x.file as u32 - 'a' as u32),
    {
        if !x.is_on_board() {
            return Err(TryIntoSquareError);
        }
        let file: u8 = (x.file as u32 - 'a' as u32) as u8;
        let rank: u8 = x.rank - 1;
        match Square::new(rank, file) {
            Some(s) => Ok(s),
            None => Err(TryIntoSquareError),
        }
    }
}

impl TryFromSpecImpl<Coordinate> for Square {
    open spec fn obeys_try_from_spec() -> bool {
        true
    }

    open spec fn try_from_spec(v: Coordinate) -> Result<Square, TryIntoSquareError> {
        v.to_square()
    }
}

impl From<Square> for Coordinate {
    /// The coordinate that names the square.
    fn from(s: Square) -> (c: Coordinate)
        ensures
            c == Coordinate::of_square(s),
            c.file as u32 == 'a' as u32 + s.spec_ordinal() % 8,
            c.rank == 8 - s.spec_ordinal() / 8,
    {
        let letter: u8 = 97 + s.file();
        Coordinate { file: letter as char, rank: s.rank() }
    }
}

impl FromSpecImpl<Square> for Coordinate {
    open spec fn obeys_from_spec() -> bool {
        true
    }

    open spec fn from_spec(v: Square) -> Coordinate {
        Coordinate::of_square(v)
    }
}

} // verus!
