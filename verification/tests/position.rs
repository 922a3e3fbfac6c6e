use khan::{IllegalMoveError, Piece, Position, Square, StatusFlag};

const STARTING: [Square; 32] = [
    Square::A2, Square::B2, Square::C2, Square::D2, Square::E2, Square::F2, Square::G2, Square::H2,
    Square::A1, Square::B1, Square::C1, Square::D1, Square::E1, Square::F1, Square::G1, Square::H1,
    Square::A7, Square::B7, Square::C7, Square::D7, Square::E7, Square::F7, Square::G7, Square::H7,
    Square::A8, Square::B8, Square::C8, Square::D8, Square::E8, Square::F8, Square::G8, Square::H8,
];

fn holders(position: &Position, square: Square) -> Vec<usize> {
    (0..32).filter(|slot| position.pieces()[*slot] == Some(square)).collect()
}

fn no_two_pieces_share_a_square(position: &Position) -> bool {
    let pieces = position.pieces();
    (0..32).all(|i| (0..i).all(|j| pieces[i].is_none() || pieces[i] != pieces[j]))
}

#[test]
fn the_starting_position_is_the_standard_layout() {
    let position = Position::starting();
    for slot in 0..32 {
        assert_eq!(position.pieces()[slot], Some(STARTING[slot]));
    }
    assert_eq!(position.pieces().iter().filter(|s| s.is_some()).count(), 32);
    assert_eq!(position.promotions().iter().filter(|p| p.is_some()).count(), 0);
    assert_eq!(position.status().bits(), 0);
    assert_eq!(position.en_passant(), None);
    assert_eq!(position.reversible_moves(), 0);
    assert!(no_two_pieces_share_a_square(&position));
}

#[test]
fn the_starting_position_fills_ranks_one_two_seven_and_eight() {
    let position = Position::starting();
    for slot in 0..32 {
        let square = position.pieces()[slot].expect("occupied");
        let rank = [2, 1, 7, 8][slot / 8];
        assert_eq!(square.rank(), rank);
        assert_eq!(square.file() as usize, slot % 8);
    }
    for ordinal in 0u8..64 {
        let square = Square::from_ordinal(ordinal).expect("in range");
        let occupied = [1, 2, 7, 8].contains(&square.rank());
        assert_eq!(holders(&position, square).len(), if occupied { 1 } else { 0 });
    }
}

#[test]
fn the_default_position_is_empty() {
    let position = Position::default();
    assert!(position.pieces().iter().all(|s| s.is_none()));
    assert!(position.promotions().iter().all(|p| p.is_none()));
    assert_eq!(position.status().bits(), 0);
    assert_eq!(position.en_passant(), None);
    assert_eq!(position.reversible_moves(), 0);
}

#[test]
fn slot_at_finds_the_piece_on_a_square() {
    let position = Position::starting();
    assert_eq!(position.slot_at(Square::A2), Some(0));
    assert_eq!(position.slot_at(Square::E2), Some(4));
    assert_eq!(position.slot_at(Square::E1), Some(12));
    assert_eq!(position.slot_at(Square::A7), Some(16));
    assert_eq!(position.slot_at(Square::H8), Some(31));
    assert_eq!(position.slot_at(Square::E4), None);
    assert_eq!(Position::default().slot_at(Square::E2), None);
}

#[test]
fn a_pawn_moves_from_e2_to_e4() {
    let mut position = Position::starting();
    assert_eq!(position.halfmove(Square::E2, Square::E4, None), Ok(()));
    for slot in 0..32 {
        let expected = if slot == 4 { Square::E4 } else { STARTING[slot] };
        assert_eq!(position.pieces()[slot], Some(expected));
    }
    assert!(position.promotions().iter().all(|p| p.is_none()));
    assert_eq!(position.status().bits(), 0b00001);
    assert!(position.status().contains(StatusFlag::Halfmove));
    assert_eq!(position.en_passant(), None);
    assert_eq!(position.reversible_moves(), 0);
}

#[test]
fn two_halfmoves_restore_the_parity() {
    let mut position = Position::starting();
    let before = position.status();
    assert_eq!(position.halfmove(Square::E2, Square::E4, None), Ok(()));
    assert_ne!(position.status(), before);
    assert_eq!(position.halfmove(Square::E7, Square::E5, None), Ok(()));
    assert_eq!(position.status(), before);
    assert_eq!(position.status().bits(), 0);
    assert_eq!(position.pieces()[4], Some(Square::E4));
    assert_eq!(position.pieces()[20], Some(Square::E5));
}

#[test]
fn a_move_from_a_vacant_square_changes_only_the_parity() {
    let mut position = Position::starting();
    let pieces = *position.pieces();
    assert_eq!(position.halfmove(Square::E4, Square::E5, None), Ok(()));
    assert_eq!(*position.pieces(), pieces);
    assert!(position.promotions().iter().all(|p| p.is_none()));
    assert_eq!(position.status().bits(), 0b00001);
}

#[test]
fn a_move_from_a_vacant_square_onto_a_piece_captures_nothing() {
    let mut position = Position::starting();
    let pieces = *position.pieces();
    assert_eq!(position.halfmove(Square::E4, Square::E7, None), Ok(()));
    assert_eq!(*position.pieces(), pieces);
    assert_eq!(position.status().bits(), 0b00001);
}

#[test]
fn a_promotion_from_a_vacant_square_is_accepted_and_enters_nothing() {
    let mut position = Position::starting();
    let pieces = *position.pieces();
    assert_eq!(position.halfmove(Square::E4, Square::E8, Some(Piece::Queen)), Ok(()));
    assert_eq!(*position.pieces(), pieces);
    assert!(position.promotions().iter().all(|p| p.is_none()));
    assert_eq!(position.status().bits(), 0b00001);
}

#[test]
fn a_move_on_the_empty_position_changes_only_the_parity() {
    let mut position = Position::default();
    assert_eq!(position.halfmove(Square::E2, Square::E4, None), Ok(()));
    assert!(position.pieces().iter().all(|s| s.is_none()));
    assert_eq!(position.status().bits(), 0b00001);
}

#[test]
fn a_piece_that_lands_on_another_captures_it() {
    let mut position = Position::starting();
    assert_eq!(position.halfmove(Square::E2, Square::E7, None), Ok(()));
    assert_eq!(position.pieces()[4], Some(Square::E7));
    assert_eq!(position.pieces()[20], None);
    assert_eq!(holders(&position, Square::E7), vec![4]);
    assert_eq!(holders(&position, Square::E2), Vec::<usize>::new());
    for slot in 0..32 {
        if slot != 4 && slot != 20 {
            assert_eq!(position.pieces()[slot], Some(STARTING[slot]));
        }
    }
    assert_eq!(position.pieces().iter().filter(|s| s.is_some()).count(), 31);
    assert!(no_two_pieces_share_a_square(&position));
}

#[test]
fn a_later_slot_captures_an_earlier_one() {
    let mut position = Position::starting();
    assert_eq!(position.halfmove(Square::D8, Square::D2, None), Ok(()));
    assert_eq!(position.pieces()[27], Some(Square::D2));
    assert_eq!(position.pieces()[3], None);
    assert_eq!(holders(&position, Square::D2), vec![27]);
    assert!(no_two_pieces_share_a_square(&position));
}

#[test]
fn a_captured_piece_no_longer_moves() {
    let mut position = Position::starting();
    assert_eq!(position.halfmove(Square::E2, Square::E7, None), Ok(()));
    assert_eq!(position.halfmove(Square::E7, Square::E5, None), Ok(()));
    assert_eq!(position.pieces()[4], Some(Square::E5));
    assert_eq!(position.pieces()[20], None);
}

#[test]
fn a_move_to_its_own_square_keeps_the_piece() {
    let mut position = Position::starting();
    let pieces = *position.pieces();
    assert_eq!(position.halfmove(Square::E2, Square::E2, None), Ok(()));
    assert_eq!(*position.pieces(), pieces);
    assert_eq!(position.status().bits(), 0b00001);
}

#[test]
fn a_pawn_that_reaches_the_eighth_rank_is_promoted() {
    let mut position = Position::starting();
    assert_eq!(position.halfmove(Square::A2, Square::A7, None), Ok(()));
    assert_eq!(position.halfmove(Square::A7, Square::A8, Some(Piece::Queen)), Ok(()));
    assert_eq!(position.pieces()[0], Some(Square::A8));
    assert_eq!(position.pieces()[16], None);
    assert_eq!(position.pieces()[24], None);
    assert_eq!(position.promotions()[0], Some(Piece::Queen));
    for pawn in 1..16 {
        assert_eq!(position.promotions()[pawn], None);
    }
    assert_eq!(position.status().bits(), 0);
}

#[test]
fn a_pawn_that_stays_on_the_seventh_rank_is_not_promoted() {
    let mut position = Position::starting();
    assert_eq!(position.halfmove(Square::A2, Square::A7, None), Ok(()));
    assert_eq!(
        position.halfmove(Square::A7, Square::B7, Some(Piece::Queen)),
        Err(IllegalMoveError)
    );
    assert!(position.promotions().iter().all(|p| p.is_none()));
}

#[test]
fn a_refused_promotion_still_moves_captures_and_flips_the_parity() {
    let mut position = Position::starting();
    assert_eq!(position.halfmove(Square::A2, Square::A7, None), Ok(()));
    assert_eq!(position.status().bits(), 0b00001);
    assert_eq!(
        position.halfmove(Square::A7, Square::B7, Some(Piece::Queen)),
        Err(IllegalMoveError)
    );
    assert_eq!(position.pieces()[0], Some(Square::B7));
    assert_eq!(position.pieces()[17], None);
    assert_eq!(holders(&position, Square::B7), vec![0]);
    assert_eq!(position.status().bits(), 0);
    assert!(no_two_pieces_share_a_square(&position));
}

#[test]
fn a_pawn_of_the_second_side_is_promoted_on_the_first_rank() {
    let mut position = Position::starting();
    assert_eq!(position.halfmove(Square::H7, Square::H1, Some(Piece::Knight)), Ok(()));
    assert_eq!(position.pieces()[23], Some(Square::H1));
    assert_eq!(position.pieces()[15], None);
    assert_eq!(position.promotions()[15], Some(Piece::Knight));
    for pawn in 0..15 {
        assert_eq!(position.promotions()[pawn], None);
    }
}

#[test]
fn each_pawn_has_its_own_promotion_entry() {
    for pawn in 0..8 {
        let from = STARTING[pawn];
        let to = STARTING[24 + pawn];
        let mut position = Position::starting();
        assert_eq!(position.halfmove(from, to, Some(Piece::Rook)), Ok(()));
        for entry in 0..16 {
            let expected = if entry == pawn { Some(Piece::Rook) } else { None };
            assert_eq!(position.promotions()[entry], expected);
        }
    }
    for pawn in 0..8 {
        let from = STARTING[16 + pawn];
        let to = STARTING[8 + pawn];
        let mut position = Position::starting();
        assert_eq!(position.halfmove(from, to, Some(Piece::Bishop)), Ok(()));
        for entry in 0..16 {
            let expected = if entry == 8 + pawn { Some(Piece::Bishop) } else { None };
            assert_eq!(position.promotions()[entry], expected);
        }
    }
}

#[test]
fn a_pawn_is_not_promoted_on_the_far_rank_of_the_other_side() {
    let mut position = Position::starting();
    assert_eq!(
        position.halfmove(Square::A2, Square::A1, Some(Piece::Queen)),
        Err(IllegalMoveError)
    );
    let mut position = Position::starting();
    assert_eq!(
        position.halfmove(Square::A7, Square::A8, Some(Piece::Queen)),
        Err(IllegalMoveError)
    );
    assert!(position.promotions().iter().all(|p| p.is_none()));
}

#[test]
fn a_pawn_is_not_promoted_on_a_middle_rank() {
    for to in [Square::E2, Square::E3, Square::E4, Square::E5, Square::E6, Square::E7] {
        let mut position = Position::starting();
        assert_eq!(position.halfmove(Square::E2, to, Some(Piece::Queen)), Err(IllegalMoveError));
        assert_eq!(position.pieces()[4], Some(to));
        assert!(position.promotions().iter().all(|p| p.is_none()));
        assert_eq!(position.status().bits(), 0b00001);
    }
}

#[test]
fn a_piece_that_is_no_pawn_is_not_promoted() {
    for (from, to) in [
        (Square::A1, Square::A8),
        (Square::E1, Square::E8),
        (Square::H1, Square::H8),
        (Square::A8, Square::A1),
        (Square::D8, Square::D1),
        (Square::H8, Square::H1),
    ] {
        let mut position = Position::starting();
        assert_eq!(position.halfmove(from, to, Some(Piece::Queen)), Err(IllegalMoveError));
        assert_eq!(holders(&position, to).len(), 1);
        assert!(position.promotions().iter().all(|p| p.is_none()));
    }
}

#[test]
fn a_promotion_takes_any_kind() {
    for kind in
        [Piece::Pawn, Piece::Knight, Piece::Bishop, Piece::Rook, Piece::Queen, Piece::King]
    {
        let mut position = Position::starting();
        assert_eq!(position.halfmove(Square::C2, Square::C8, Some(kind)), Ok(()));
        assert_eq!(position.promotions()[2], Some(kind));
    }
}

#[test]
fn a_promoted_pawn_can_be_promoted_again() {
    let mut position = Position::starting();
    assert_eq!(position.halfmove(Square::C2, Square::C8, Some(Piece::Rook)), Ok(()));
    assert_eq!(position.halfmove(Square::C8, Square::D8, Some(Piece::Queen)), Ok(()));
    assert_eq!(position.promotions()[2], Some(Piece::Queen));
    assert_eq!(position.pieces()[2], Some(Square::D8));
    assert_eq!(position.pieces()[27], None);
}

#[test]
fn halfmoves_never_touch_the_other_flags() {
    let mut position = Position::starting();
    let moves = [
        (Square::E2, Square::E4, None),
        (Square::E7, Square::E5, None),
        (Square::A1, Square::A8, Some(Piece::Queen)),
        (Square::C3, Square::C4, None),
        (Square::B7, Square::B1, Some(Piece::Knight)),
    ];
    for (n, (from, to, promotion)) in moves.into_iter().enumerate() {
        let _ = position.halfmove(from, to, promotion);
        assert_eq!(position.status().bits(), ((n + 1) % 2) as u8);
        assert!(!position.status().contains(StatusFlag::NoWhiteKingsideCastle));
        assert!(!position.status().contains(StatusFlag::NoWhiteQueensideCastle));
        assert!(!position.status().contains(StatusFlag::NoBlackKingsideCastle));
        assert!(!position.status().contains(StatusFlag::NoBlackQueensideCastle));
        assert_eq!(position.en_passant(), None);
        assert_eq!(position.reversible_moves(), 0);
        assert!(no_two_pieces_share_a_square(&position));
    }
}
