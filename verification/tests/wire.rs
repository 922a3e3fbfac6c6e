use khan::{Coordinate, MoveError, MoveRequest, Piece, PieceToken, Position, Square};
use vampirc_uci::{parse_with_unknown, UciMessage, UciMove, UciPiece, UciSquare};

fn coordinate(square: UciSquare) -> Coordinate {
    Coordinate::new(square.file, square.rank)
}

fn token(piece: UciPiece) -> PieceToken {
    match piece {
        UciPiece::Pawn => PieceToken::Pawn,
        UciPiece::Knight => PieceToken::Knight,
        UciPiece::Bishop => PieceToken::Bishop,
        UciPiece::Rook => PieceToken::Rook,
        UciPiece::Queen => PieceToken::Queen,
        UciPiece::King => PieceToken::King,
    }
}

fn request(halfmove: &UciMove) -> MoveRequest {
    MoveRequest {
        from: coordinate(halfmove.from),
        to: coordinate(halfmove.to),
        promotion: halfmove.promotion.map(token),
    }
}

fn requests_of(line: &str) -> Vec<MoveRequest> {
    let mut requests = Vec::new();
    for message in parse_with_unknown(line) {
        match message {
            UciMessage::Position { moves, .. } => requests.extend(moves.iter().map(request)),
            other => panic!("not a position command: {:?}", other),
        }
    }
    requests
}

#[test]
fn a_parsed_square_converts_to_the_square_it_names() {
    assert_eq!(Square::try_from(coordinate(UciSquare::from('e', 4))), Ok(Square::E4));
    assert_eq!(Square::try_from(coordinate(UciSquare::from('a', 8))), Ok(Square::A8));
    assert_eq!(coordinate(UciSquare::from('h', 1)), Coordinate::from(Square::H1));
}

#[test]
fn the_square_that_the_parser_starts_from_is_refused() {
    assert!(Square::try_from(coordinate(UciSquare::default())).is_err());
}

#[test]
fn a_parsed_move_list_plays_on_the_starting_position() {
    let requests = requests_of("position startpos moves e2e4 e7e5 g1f3 b8c6\n");
    assert_eq!(requests.len(), 4);
    let mut position = Position::starting();
    assert_eq!(position.play_all(&requests), Ok(()));
    assert_eq!(position.pieces()[4], Some(Square::E4));
    assert_eq!(position.pieces()[20], Some(Square::E5));
    assert_eq!(position.pieces()[14], Some(Square::F3));
    assert_eq!(position.pieces()[25], Some(Square::C6));
    assert_eq!(position.pieces().iter().filter(|s| s.is_some()).count(), 32);
    assert_eq!(position.status().bits(), 0);
}

#[test]
fn a_parsed_promotion_is_entered() {
    let requests = requests_of("position startpos moves h2h7 h7g8q\n");
    assert_eq!(requests[1].promotion, Some(PieceToken::Queen));
    let mut position = Position::starting();
    assert_eq!(position.play_all(&requests), Ok(()));
    assert_eq!(position.pieces()[7], Some(Square::G8));
    assert_eq!(position.pieces()[30], None);
    assert_eq!(position.promotions()[7], Some(Piece::Queen));
}

#[test]
fn a_parsed_promotion_short_of_the_far_rank_is_refused() {
    let requests = requests_of("position startpos moves h2h6 h6g7n e2e4\n");
    let mut position = Position::starting();
    assert_eq!(position.play_all(&requests), Err((1, MoveError::IllegalMove)));
    assert_eq!(position.pieces()[7], Some(Square::G7));
    assert_eq!(position.pieces()[22], None);
    assert_eq!(position.pieces()[4], Some(Square::E2));
    assert!(position.promotions().iter().all(|p| p.is_none()));
}

#[test]
fn a_parsed_capital_file_is_refused() {
    let requests = requests_of("position startpos moves E2E4\n");
    assert_eq!(requests.len(), 1);
    let mut position = Position::starting();
    assert_eq!(position.play_all(&requests), Err((0, MoveError::TryIntoSquare)));
    assert_eq!(position.pieces()[4], Some(Square::E2));
    assert_eq!(position.status().bits(), 0);
}
