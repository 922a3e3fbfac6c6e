use vstd::prelude::*;
use crate::piece::Piece;
use crate::square::Square;
use crate::status::{
    bits_contain, bits_valid, lemma_toggle, lemma_toggle_twice, PositionStatus, StatusFlag,
};

verus! {

/// A promotion was asked for a piece that is no pawn, or for a pawn that did
/// not reach the far rank of its side.
#[derive(Copy, Clone, Debug, PartialEq, Eq, Structural)]
pub struct IllegalMoveError;

/// Whether the piece of a slot starts the game as a pawn. The first sixteen
/// slots belong to the side that starts on the first and second rank, the other
/// sixteen to the side that starts on the seventh and eighth; the first eight
/// slots of either side are its pawns.
pub open spec fn is_pawn_slot(slot: int) -> bool {
    0 <= slot < 8 || 16 <= slot < 24
}

/// The rank on which the pawns of the slot's side are promoted, the far rank
/// of that side: the eighth for the first sixteen slots, the first for the
/// others.
pub open spec fn promotion_rank(slot: int) -> int {
    if slot < 16 {
        8
    } else {
        1
    }
}

/// Whether the piece of `slot`, having moved to `to`, can be promoted: it is a
/// pawn and `to` lies on the far rank of its side.
pub open spec fn may_promote(slot: int, to: Square) -> bool {
    is_pawn_slot(slot) && to.spec_rank() == promotion_rank(slot)
}

/// The entry of the promotions that belongs to a pawn slot: the number of the
/// pawn among the sixteen pawns.
pub open spec fn promotion_index(slot: int) -> int {
    if slot < 8 {
        slot
    } else {
        slot - 8
    }
}

/// The rank on which the piece of a slot starts the game.
pub open spec fn starting_rank(slot: int) -> int {
    if slot < 8 {
        2
    } else if slot < 16 {
        1
    } else if slot < 24 {
        7
    } else {
        8
    }
}

/// The square on which the piece of a slot starts the game: on the starting
/// rank of the slot, on the file with index `slot % 8`.
pub open spec fn starting_square(slot: int) -> Square {
    Square::at(((8 - starting_rank(slot)) * 8 + slot % 8) as u8)
}

/// Whether `slot` is the first slot of `pieces` that holds `sq`.
pub open spec fn is_first_slot_holding(pieces: Seq<Option<Square>>, sq: Square, slot: int) -> bool {
    &&& 0 <= slot < pieces.len()
    &&& pieces[slot] == Some(sq)
    &&& forall|j: int| 0 <= j < slot ==> pieces[j] != Some(sq)
}

/// The first slot of `pieces` that holds `sq`, if any does.
pub open spec fn first_slot_holding(pieces: Seq<Option<Square>>, sq: Square) -> Option<int> {
    if exists|slot: int| is_first_slot_holding(pieces, sq, slot) {
        Some(choose|slot: int| is_first_slot_holding(pieces, sq, slot))
    } else {
        None
    }
}

/// The slots after the piece of `slot` has gone to `to`: that slot holds `to`,
/// every other slot that held `to` is empty, and the rest is as before.
pub open spec fn after_move(pieces: Seq<Option<Square>>, slot: int, to: Square) -> Seq<
    Option<Square>,
> {
    Seq::new(
        pieces.len(),
        |j: int|
            if j == slot {
                Some(to)
            } else if pieces[j] == Some(to) {
                None
            } else {
                pieces[j]
            },
    )
}

/// What a position is: the square of each of the 32 pieces, the kind that each
/// of the 16 pawns was promoted to, the bit pattern of the status, the target
/// of a capture in passing, and the count of reversible moves.
pub struct PositionView {
    pub pieces: Seq<Option<Square>>,
    pub promotions: Seq<Option<Piece>>,
    pub status: u8,
    pub en_passant: Option<Square>,
    pub reversible_moves: u16,
}

impl PositionView {
    /// The position at the start of a game.
    pub open spec fn starting() -> PositionView {
        PositionView {
            pieces: Seq::new(32, |slot: int| Some(starting_square(slot))),
            promotions: Seq::new(16, |pawn: int| None),
            status: 0,
            en_passant: None,
            reversible_moves: 0,
        }
    }

    /// The position without any piece.
    pub open spec fn empty() -> PositionView {
        PositionView {
            pieces: Seq::new(32, |slot: int| None),
            promotions: Seq::new(16, |pawn: int| None),
            status: 0,
            en_passant: None,
            reversible_moves: 0,
        }
    }

    /// There are 32 slots and 16 promotion entries, the status sets no bit
    /// without a meaning, and no two pieces stand on the same square.
    pub open spec fn wf(self) -> bool {
        &&& self.pieces.len() == 32
        &&& self.promotions.len() == 16
        &&& bits_valid(self.status)
        &&& forall|i: int, j: int|
            0 <= i < j < 32 && self.pieces[i].is_some() ==> self.pieces[i] != self.pieces[j]
    }

    /// The position after the half-move from `from` to `to`.
    ///
    /// The piece that moves is the one of the first slot that holds `from`. It
    /// goes to `to`, and any other piece on `to` leaves the board. If a
    /// promotion is given and the piece may be promoted on `to`, the kind is
    /// entered for its pawn. A promotion that is refused still leaves the piece
    /// on `to`. If no slot holds `from`, no piece moves or leaves. In every case
    /// the half-move flag of the status flips and nothing else changes.
    pub open spec fn after_halfmove(
        self,
        from: Square,
        to: Square,
        promotion: Option<Piece>,
    ) -> PositionView {
        let status = self.status ^ StatusFlag::Halfmove.spec_bit();
        match first_slot_holding(self.pieces, from) {
            None => PositionView { status, ..self },
            Some(slot) => PositionView {
                pieces: after_move(self.pieces, slot, to),
                promotions: match promotion {
                    Some(kind) if may_promote(slot, to) => self.promotions.update(
                        promotion_index(slot),
                        Some(kind),
                    ),
                    _ => self.promotions,
                },
                status,
                ..self
            },
        }
    }

    /// Whether the half-move from `from` to `to` is accepted. It is refused
    /// exactly if a piece moves, a promotion is given, and the piece may not be
    /// promoted on `to`.
    pub open spec fn halfmove_outcome(
        self,
        from: Square,
        to: Square,
        promotion: Option<Piece>,
    ) -> Result<(), IllegalMoveError> {
        match first_slot_holding(self.pieces, from) {
            Some(slot) if promotion.is_some() && !may_promote(slot, to) => Err(IllegalMoveError),
            _ => Ok(()),
        }
    }
}

/// The mutable state of a game: where the pieces stand and what is recorded
/// beside the board.
#[derive(Debug)]
pub struct Position {
    pieces: [Option<Square>; 32],
    promotions: [Option<Piece>; 16],
    position_status: PositionStatus,
    en_passant: Option<Square>,
    reversible_moves: u16,
}

impl View for Position {
    type V = PositionView;

    closed spec fn view(&self) -> PositionView {
        PositionView {
            pieces: self.pieces@,
            promotions: self.promotions@,
            status: self.position_status@,
            en_passant: self.en_passant,
            reversible_moves: self.reversible_moves,
        }
    }
}

impl Position {
    /// The position at the start of a game: all 32 pieces on their starting
    /// squares, no promotion, no flag set, no target of a capture in passing,
    /// no reversible move counted.
    pub fn starting() -> (p: Position)
        ensures
            p@ == PositionView::starting(),
            p@.wf(),
            forall|slot: int| 0 <= slot < 32 ==> p@.pieces[slot] == Some(starting_square(slot)),
            forall|pawn: int| 0 <= pawn < 16 ==> p@.promotions[pawn].is_none(),
    {
        let p = Position {
            pieces: [
                Some(Square::A2), Some(Square::B2), Some(Square::C2), Some(Square::D2),
                Some(Square::E2), Some(Square::F2), Some(Square::G2), Some(Square::H2),
                Some(Square::A1), Some(Square::B1), Some(Square::C1), Some(Square::D1),
                Some(Square::E1), Some(Square::F1), Some(Square::G1), Some(Square::H1),
                Some(Square::A7), Some(Square::B7), Some(Square::C7), Some(Square::D7),
                Some(Square::E7), Some(Square::F7), Some(Square::G7), Some(Square::H7),
                Some(Square::A8), Some(Square::B8), Some(Square::C8), Some(Square::D8),
                Some(Square::E8), Some(Square::F8), Some(Square::G8), Some(Square::H8),
            ],
            promotions: [
                None, None, None, None, None, None, None, None,
                None, None, None, None, None, None, None, None,
            ],
            position_status: PositionStatus::empty(),
            en_passant: None,
            reversible_moves: 0,
        };
        proof {
            assert(p@.pieces =~= PositionView::starting().pieces);
            assert(p@.promotions =~= PositionView::starting().promotions);
            lemma_starting_wf();
        }
        p
    }

    /// The square of the piece of each slot; `None` for a piece that has left
    /// the board.
    pub fn pieces(&self) -> (r: &[Option<Square>; 32])
        ensures
            r@ == self@.pieces,
    {
        &self.pieces
    }

    /// The kind that each of the sixteen pawns was promoted to; `None` for a
    /// pawn that was not promoted.
    pub fn promotions(&self) -> (r: &[Option<Piece>; 16])
        ensures
            r@ == self@.promotions,
    {
        &self.promotions
    }

    /// The flags of the position.
    pub fn status(&self) -> (s: PositionStatus)
        ensures
            s@ == self@.status,
    {
        self.position_status
    }

    /// The square on which a pawn can be captured in passing, if there is one.
    pub fn en_passant(&self) -> (r: Option<Square>)
        ensures
            r == self@.en_passant,
    {
        self.en_passant
    }

    /// The count of moves since the last capture or pawn move.
    pub fn reversible_moves(&self) -> (n: u16)
        ensures
            n == self@.reversible_moves,
    {
        self.reversible_moves
    }

    /// The first slot whose piece stands on `sq`, if any does.
    pub fn slot_at(&self, sq: Square) -> (r: Option<usize>)
        ensures
            r.is_some() <==> exists|slot: int| 0 <= slot < 32 && self@.pieces[slot] == Some(sq),
            r matches Some(slot) ==> is_first_slot_holding(self@.pieces, sq, slot as int),
            match r {
                Some(slot) => first_slot_holding(self@.pieces, sq) == Some(slot as int),
                None => first_slot_holding(self@.pieces, sq).is_none(),
            },
    {
        let mut slot: usize = 0;
        while slot < 32
            invariant
                slot <= 32,
                forall|j: int| 0 <= j < slot ==> self.pieces@[j] != Some(sq),
            decreases 32 - slot,
        {
            let here = match self.pieces[slot] {
                Some(s) => s == sq,
                None => false,
            };
            if here {
                proof {
                    lemma_first_slot_unique(self@.pieces, sq, slot as int);
                }
                return Some(slot);
            }
            slot += 1;
        }
        None
    }

    /// Applies the half-move from `from` to `to`.
    ///
    /// The piece of the first slot that holds `from` goes to `to`, and any
    /// other piece on `to` leaves the board. With a promotion, the kind is
    /// entered for the pawn if the piece is a pawn and `to` lies on the far
    /// rank of its side; otherwise the half-move is refused with
    /// `IllegalMoveError`, and the piece stays on `to` all the same. If no slot
    /// holds `from`, no piece moves and the half-move is accepted. The
    /// half-move flag flips in every case.
    pub fn halfmove(&mut self, from: Square, to: Square, promotion: Option<Piece>) -> (r: Result<
        (),
        IllegalMoveError,
    >)
        ensures
            final(self)@ == old(self)@.after_halfmove(from, to, promotion),
            r == old(self)@.halfmove_outcome(from, to, promotion),
            old(self)@.wf() ==> final(self)@.wf(),
    {
        let ghost before = self@;
        let mut outcome: Result<(), IllegalMoveError> = Ok(());
        if let Some(slot) = self.slot_at(from) {
            self.pieces[slot] = Some(to);
            if let Some(kind) = promotion {
                if (slot < 8 && to.rank() == 8) || (16 <= slot && slot < 24 && to.rank() == 1) {
                    let pawn: usize = if slot < 8 {
                        slot
                    } else {
                        slot - 8
                    };
                    self.promotions[pawn] = Some(kind);
                } else {
                    outcome = Err(IllegalMoveError);
                }
            }
            let ghost promoted = self.promotions@;
            let mut other: usize = 0;
            while other < 32
                invariant
                    other <= 32,
                    slot < 32,
                    before.pieces.len() == 32,
                    self.promotions@ == promoted,
                    self.position_status@ == before.status,
                    self.en_passant == before.en_passant,
                    self.reversible_moves == before.reversible_moves,
                    forall|j: int|
                        0 <= j < other ==> self.pieces@[j] == after_move(
                            before.pieces,
                            slot as int,
                            to,
                        )[j],
                    forall|j: int|
                        other <= j < 32 ==> self.pieces@[j] == (if j == slot {
                            Some(to)
                        } else {
                            before.pieces[j]
                        }),
                decreases 32 - other,
            {
                let captured = other != slot && match self.pieces[other] {
                    Some(s) => s == to,
                    None => false,
                };
                if captured {
                    self.pieces[other] = None;
                }
                other += 1;
            }
            assert(self.pieces@ =~= after_move(before.pieces, slot as int, to));
        }
        self.position_status.toggle(StatusFlag::Halfmove);
        proof {
            let after = before.after_halfmove(from, to, promotion);
            assert(self@.promotions =~= after.promotions);
            assert(self@.pieces =~= after.pieces);
            if before.wf() {
                lemma_halfmove_keeps_wf(before, from, to, promotion);
            }
        }
        outcome
    }
}

impl Default for Position {
    /// The position without any piece: every slot empty, no promotion, no flag
    /// set.
    fn default() -> (p: Position)
        ensures
            p@ == PositionView::empty(),
            p@.wf(),
    {
        let p = Position {
            pieces: [
                None, None, None, None, None, None, None, None,
                None, None, None, None, None, None, None, None,
                None, None, None, None, None, None, None, None,
                None, None, None, None, None, None, None, None,
            ],
            promotions: [
                None, None, None, None, None, None, None, None,
                None, None, None, None, None, None, None, None,
            ],
            position_status: PositionStatus::empty(),
            en_passant: None,
            reversible_moves: 0,
        };
        proof {
            assert(p@.pieces =~= PositionView::empty().pieces);
            assert(p@.promotions =~= PositionView::empty().promotions);
            assert(bits_valid(0u8)) by (bit_vector);
        }
        p
    }
}

/// At most one slot is the first to hold a square: if `slot` is, it is the
/// one that `first_slot_holding` gives.
pub proof fn lemma_first_slot_unique(pieces: Seq<Option<Square>>, sq: Square, slot: int)
    requires
        is_first_slot_holding(pieces, sq, slot),
    ensures
        first_slot_holding(pieces, sq) == Some(slot),
{
    let chosen = choose|i: int| is_first_slot_holding(pieces, sq, i);
    assert(is_first_slot_holding(pieces, sq, chosen));
    if chosen < slot {
        assert(pieces[chosen] != Some(sq));
    } else if slot < chosen {
        assert(pieces[slot] != Some(sq));
    }
}

/// A half-move keeps a well-formed position well formed, whether it is
/// accepted or refused: afterwards no two pieces share a square.
pub proof fn lemma_halfmove_keeps_wf(
    v: PositionView,
    from: Square,
    to: Square,
    promotion: Option<Piece>,
)
    requires
        v.wf(),
    ensures
        v.after_halfmove(from, to, promotion).wf(),
{
    let w = v.after_halfmove(from, to, promotion);
    lemma_toggle(v.status, StatusFlag::Halfmove);
    match first_slot_holding(v.pieces, from) {
        None => {},
        Some(slot) => {
            assert(is_first_slot_holding(v.pieces, from, slot));
            assert forall|i: int, j: int| 0 <= i < j < 32 && w.pieces[i].is_some() implies w.pieces[i]
                != w.pieces[j] by {
                if i != slot && j != slot {
                    assert(v.pieces[i] != v.pieces[j]);
                }
            }
        },
    }
}

/// A half-move from a square on which no piece stands moves no piece, enters
/// no promotion and is accepted, with or without a promotion; the half-move
/// flag flips all the same.
pub proof fn lemma_halfmove_from_vacant_square(
    v: PositionView,
    from: Square,
    to: Square,
    promotion: Option<Piece>,
)
    requires
        forall|slot: int| 0 <= slot < v.pieces.len() ==> v.pieces[slot] != Some(from),
    ensures
        v.after_halfmove(from, to, promotion).pieces == v.pieces,
        v.after_halfmove(from, to, promotion).promotions == v.promotions,
        v.halfmove_outcome(from, to, promotion) == Ok::<(), IllegalMoveError>(()),
        bits_contain(v.after_halfmove(from, to, promotion).status, StatusFlag::Halfmove)
            == !bits_contain(v.status, StatusFlag::Halfmove),
{
    lemma_toggle(v.status, StatusFlag::Halfmove);
}

/// A piece that moves onto the square of another piece captures it: the slot
/// of the other piece is empty afterwards, the slot of the piece that moved is
/// the only one that holds the destination, and every piece that did not stand
/// on the destination is where it was.
pub proof fn lemma_halfmove_captures(
    v: PositionView,
    from: Square,
    to: Square,
    promotion: Option<Piece>,
    mover: int,
    victim: int,
)
    requires
        is_first_slot_holding(v.pieces, from, mover),
        0 <= victim < v.pieces.len(),
        victim != mover,
        v.pieces[victim] == Some(to),
    ensures
        v.after_halfmove(from, to, promotion).pieces.len() == v.pieces.len(),
        v.after_halfmove(from, to, promotion).pieces[victim].is_none(),
        v.after_halfmove(from, to, promotion).pieces[mover] == Some(to),
        forall|slot: int|
            0 <= slot < v.pieces.len() && slot != mover ==> v.after_halfmove(
                from,
                to,
                promotion,
            ).pieces[slot] != Some(to),
        forall|slot: int|
            0 <= slot < v.pieces.len() && slot != mover && v.pieces[slot] != Some(to)
                ==> v.after_halfmove(from, to, promotion).pieces[slot] == v.pieces[slot],
{
    lemma_first_slot_unique(v.pieces, from, mover);
}

/// A half-move with a promotion is accepted exactly if the piece that moves is
/// a pawn and the destination lies on the far rank of its side. Then the kind is
/// entered for that pawn and for no other. In every other case the half-move is
/// refused with `IllegalMoveError` and no promotion is entered, while the piece
/// stands on the destination.
pub proof fn lemma_halfmove_promotion(
    v: PositionView,
    from: Square,
    to: Square,
    kind: Piece,
    mover: int,
)
    requires
        v.promotions.len() == 16,
        is_first_slot_holding(v.pieces, from, mover),
    ensures
        v.halfmove_outcome(from, to, Some(kind)).is_ok() <==> is_pawn_slot(mover) && to.spec_rank()
            == promotion_rank(mover),
        v.halfmove_outcome(from, to, Some(kind)).is_ok() ==> v.after_halfmove(
            from,
            to,
            Some(kind),
        ).promotions == v.promotions.update(promotion_index(mover), Some(kind)),
        v.halfmove_outcome(from, to, Some(kind)).is_ok() ==> 0 <= promotion_index(mover) < 16
            && v.after_halfmove(from, to, Some(kind)).promotions[promotion_index(mover)] == Some(
            kind,
        ),
        v.halfmove_outcome(from, to, Some(kind)).is_err() ==> v.halfmove_outcome(
            from,
            to,
            Some(kind),
        ) == Err::<(), IllegalMoveError>(IllegalMoveError) && v.after_halfmove(
            from,
            to,
            Some(kind),
        ).promotions == v.promotions,
        v.after_halfmove(from, to, Some(kind)).pieces[mover] == Some(to),
{
    lemma_first_slot_unique(v.pieces, from, mover);
}

/// A half-move without a promotion is always accepted and enters no promotion.
pub proof fn lemma_halfmove_without_promotion(v: PositionView, from: Square, to: Square)
    ensures
        v.halfmove_outcome(from, to, None) == Ok::<(), IllegalMoveError>(()),
        v.after_halfmove(from, to, None).promotions == v.promotions,
{
}

/// Whatever a half-move does on the board, beside it only the half-move flag
/// changes, and it always flips: the four castling flags, the target of a
/// capture in passing and the count of reversible moves stay as they are.
pub proof fn lemma_halfmove_flips_parity_only(
    v: PositionView,
    from: Square,
    to: Square,
    promotion: Option<Piece>,
)
    ensures
        bits_contain(v.after_halfmove(from, to, promotion).status, StatusFlag::Halfmove)
            == !bits_contain(v.status, StatusFlag::Halfmove),
        forall|flag: StatusFlag|
            flag != StatusFlag::Halfmove ==> bits_contain(
                v.after_halfmove(from, to, promotion).status,
                flag,
            ) == bits_contain(v.status, flag),
        v.after_halfmove(from, to, promotion).en_passant == v.en_passant,
        v.after_halfmove(from, to, promotion).reversible_moves == v.reversible_moves,
{
    lemma_toggle(v.status, StatusFlag::Halfmove);
}

/// Two half-moves in a row, whichever they are, leave the status as it was.
pub proof fn lemma_two_halfmoves_restore_status(
    v: PositionView,
    first: (Square, Square, Option<Piece>),
    second: (Square, Square, Option<Piece>),
)
    ensures
        v.after_halfmove(first.0, first.1, first.2).after_halfmove(
            second.0,
            second.1,
            second.2,
        ).status == v.status,
{
    lemma_toggle_twice(v.status, StatusFlag::Halfmove);
}

/// In the starting position every piece stands on the starting rank of its
/// slot and on the file with index `slot % 8`: the pawns of the first side on
/// the second rank, its pieces on the first, the pawns of the second side on
/// the seventh rank, its pieces on the eighth.
pub proof fn lemma_starting_layout(slot: int)
    requires
        0 <= slot < 32,
    ensures
        PositionView::starting().pieces[slot] == Some(starting_square(slot)),
        starting_square(slot).spec_rank() == starting_rank(slot),
        starting_square(slot).spec_file() == slot % 8,
        is_pawn_slot(slot) <==> starting_rank(slot) == 2 || starting_rank(slot) == 7,
{
    Square::lemma_at_ordinal(((8 - starting_rank(slot)) * 8 + slot % 8) as u8);
}

/// The starting position is well formed.
pub proof fn lemma_starting_wf()
    ensures
        PositionView::starting().wf(),
{
    let v = PositionView::starting();
    assert(bits_valid(0u8)) by (bit_vector);
    assert forall|i: int, j: int| 0 <= i < j < 32 && v.pieces[i].is_some() implies v.pieces[i]
        != v.pieces[j] by {
        let a = ((8 - starting_rank(i)) * 8 + i % 8) as u8;
        let b = ((8 - starting_rank(j)) * 8 + j % 8) as u8;
        Square::lemma_at_ordinal(a);
        Square::lemma_at_ordinal(b);
    }
}

} // verus!
