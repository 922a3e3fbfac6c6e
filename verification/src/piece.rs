use vstd::prelude::*;
use vstd::std_specs::convert::FromSpecImpl;

verus! {

/// The kind of a piece. The colour of a piece is not part of its kind: it
/// follows from the slot of the position that holds the piece.
#[derive(Copy, Clone, Debug, PartialEq, Eq, Structural)]
pub enum Piece {
    Pawn,
    Knight,
    Bishop,
    Rook,
    Queen,
    King,
}

/// The name of a piece kind as the wire protocol hands it over.
#[derive(Copy, Clone, Debug, PartialEq, Eq, Structural)]
pub enum PieceToken {
    Pawn,
    Knight,
    Bishop,
    Rook,
    Queen,
    King,
}

/// A token that names no piece a pawn can be promoted to was given where a
/// promotion was asked for.
#[derive(Copy, Clone, Debug, PartialEq, Eq, Structural)]
pub struct PieceConversionError;

impl Piece {
    /// The kind that a token names.
    pub open spec fn of_token(token: PieceToken) -> Piece {
        match token {
            PieceToken::Pawn => Piece::Pawn,
            PieceToken::Knight => Piece::Knight,
            PieceToken::Bishop => Piece::Bishop,
            PieceToken::Rook => Piece::Rook,
            PieceToken::Queen => Piece::Queen,
            PieceToken::King => Piece::King,
        }
    }

    /// Whether a pawn can be promoted to this kind: knight, bishop, rook and
    /// queen, and no other.
    pub open spec fn spec_is_promotable(self) -> bool {
        self == Piece::Knight || self == Piece::Bishop || self == Piece::Rook || self
            == Piece::Queen
    }

    /// What a token stands for where a promotion is asked for: the kind it
    /// names if a pawn can be promoted to it, an error otherwise.
    pub open spec fn spec_promotion_from(token: PieceToken) -> Result<
        Piece,
        PieceConversionError,
    > {
        if Piece::of_token(token).spec_is_promotable() {
            Ok(Piece::of_token(token))
        } else {
            Err(PieceConversionError)
        }
    }

    /// Whether a pawn can be promoted to this kind.
    #[verifier::when_used_as_spec(spec_is_promotable)]
    pub fn is_promotable(self) -> (b: bool)
        ensures
            b == self.spec_is_promotable(),
    {
        match self {
            Piece::Knight | Piece::Bishop | Piece::Rook | Piece::Queen => true,
            Piece::Pawn | Piece::King => false,
        }
    }

    /// Converts a token that was given as the promotion of a move. Succeeds
    /// exactly for knight, bishop, rook and queen.
    #[verifier::when_used_as_spec(spec_promotion_from)]
    pub fn promotion_from(token: PieceToken) -> (r: Result<Piece, PieceConversionError>)
        ensures
            r == Piece::spec_promotion_from(token),
            r.is_ok() <==> token == PieceToken::Knight || token == PieceToken::Bishop || token
                == PieceToken::Rook || token == PieceToken::Queen,
            r matches Ok(p) ==> p == Piece::of_token(token),
    {
        let piece = Piece::from(token);
        if piece.is_promotable() {
            Ok(piece)
        } else {
            Err(PieceConversionError)
        }
    }
}

impl From<PieceToken> for Piece {
    /// The kind that the token names; every token names one.
    fn from(x: PieceToken) -> (p: Piece)
        ensures
            p == Piece::of_token(x),
    {
        match x {
            PieceToken::Pawn => Piece::Pawn,
            PieceToken::Knight => Piece::Knight,
            PieceToken::Bishop => Piece::Bishop,
            PieceToken::Rook => Piece::Rook,
            PieceToken::Queen => Piece::Queen,
            PieceToken::King => Piece::King,
        }
    }
}

impl FromSpecImpl<PieceToken> for Piece {
    open spec fn obeys_from_spec() -> bool {
        true
    }

    open spec fn from_spec(v: PieceToken) -> Piece {
        Piece::of_token(v)
    }
}

} // verus!
