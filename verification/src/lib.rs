//! The state core of a chess engine: squares, piece kinds, the position and
//! the application of half-moves to it.

pub mod coordinate;
pub mod moves;
pub mod piece;
pub mod position;
pub mod square;
pub mod status;

pub use coordinate::{Coordinate, TryIntoSquareError};
pub use moves::{MoveError, MoveRequest};
pub use piece::{Piece, PieceConversionError, PieceToken};
pub use position::{IllegalMoveError, Position, PositionView};
pub use square::Square;
pub use status::{PositionStatus, StatusFlag};
