use vstd::prelude::*;
use crate::coordinate::Coordinate;
use crate::piece::{Piece, PieceToken};
use crate::position::{Position, PositionView};
use crate::square::Square;

verus! {

/// A half-move as the wire protocol hands it over: two coordinates and,
/// for a promotion, the token of the new kind.
#[derive(Copy, Clone, Debug, PartialEq, Eq, Structural)]
pub struct MoveRequest {
    pub from: Coordinate,
    pub to: Coordinate,
    pub promotion: Option<PieceToken>,
}

/// Why a requested half-move was not carried out as asked.
#[derive(Copy, Clone, Debug, PartialEq, Eq, Structural)]
pub enum MoveError {
    /// One of the two coordinates names no square.
    TryIntoSquare,
    /// The promotion token names no kind that a pawn can be promoted to.
    PieceConversion,
    /// The position refused the half-move.
    IllegalMove,
}

impl MoveRequest {
    /// The squares and the kind that the request names. The source is
    /// converted first, then the destination, then the promotion; the first
    /// conversion that fails decides the error.
    pub open spec fn spec_resolve(self) -> Result<(Square, Square, Option<Piece>), MoveError> {
        match (self.from.to_square(), self.to.to_square()) {
            (Ok(from), Ok(to)) => match self.promotion {
                None => Ok((from, to, None)),
                Some(token) => match Piece::spec_promotion_from(token) {
                    Ok(kind) => Ok((from, to, Some(kind))),
                    Err(_) => Err(MoveError::PieceConversion),
                },
            },
            _ => Err(MoveError::TryIntoSquare),
        }
    }

    /// Converts the request into squares and a piece kind.
    #[verifier::when_used_as_spec(spec_resolve)]
    pub fn resolve(self) -> (r: Result<(Square, Square, Option<Piece>), MoveError>)
        ensures
            r == self.spec_resolve(),
    {
        let from = match Square::try_from(self.from) {
            Ok(s) => s,
            Err(_) => {
                return Err(MoveError::TryIntoSquare);
            },
        };
        let to = match Square::try_from(self.to) {
            Ok(s) => s,
            Err(_) => {
                return Err(MoveError::TryIntoSquare);
            },
        };
        match self.promotion {
            None => Ok((from, to, None)),
            Some(token) => match Piece::promotion_from(token) {
                Ok(kind) => Ok((from, to, Some(kind))),
                Err(_) => Err(MoveError::PieceConversion),
            },
        }
    }
}

impl PositionView {
    /// The position after a request. A request that cannot be converted
    /// leaves the position as it is; any other is the half-move that it names.
    pub open spec fn after_request(self, request: MoveRequest) -> PositionView {
        match request.spec_resolve() {
            Ok((from, to, promotion)) => self.after_halfmove(from, to, promotion),
            Err(_) => self,
        }
    }

    /// Whether a request is carried out, and if not, why.
    pub open spec fn request_outcome(self, request: MoveRequest) -> Result<(), MoveError> {
        match request.spec_resolve() {
            Ok((from, to, promotion)) => match self.halfmove_outcome(from, to, promotion) {
                Ok(_) => Ok(()),
                Err(_) => Err(MoveError::IllegalMove),
            },
            Err(e) => Err(e),
        }
    }

    /// The position after the first `n` of the requests, one after the other.
    pub open spec fn after_requests(self, requests: Seq<MoveRequest>, n: nat) -> PositionView
        decreases n,
    {
        if n == 0 {
            self
        } else {
            self.after_requests(requests, (n - 1) as nat).after_request(requests[n - 1])
        }
    }

    /// Whether each of the first `n` requests is carried out when they are
    /// played one after the other.
    pub open spec fn accepts_requests(self, requests: Seq<MoveRequest>, n: nat) -> bool {
        forall|i: nat|
            i < n ==> (#[trigger] self.after_requests(requests, i)).request_outcome(
                requests[i as int],
            ).is_ok()
    }
}

impl Position {
    /// Plays one request: converts it and applies the half-move. A request that
    /// cannot be converted changes nothing.
    pub fn play(&mut self, request: MoveRequest) -> (r: Result<(), MoveError>)
        ensures
            final(self)@ == old(self)@.after_request(request),
            r == old(self)@.request_outcome(request),
            old(self)@.wf() ==> final(self)@.wf(),
    {
        match request.resolve() {
            Ok((from, to, promotion)) => match self.halfmove(from, to, promotion) {
                Ok(_) => Ok(()),
                Err(_) => Err(MoveError::IllegalMove),
            },
            Err(e) => Err(e),
        }
    }

    /// Plays the requests in order and stops at the first that is not
    /// carried out, giving its index and the reason. Whatever that request
    /// changed before it was refused stays changed; the requests after it
    /// are not looked at.
    pub fn play_all(&mut self, requests: &[MoveRequest]) -> (r: Result<(), (usize, MoveError)>)
        ensures
            match r {
                Ok(_) => {
                    &&& old(self)@.accepts_requests(requests@, requests@.len())
                    &&& final(self)@ == old(self)@.after_requests(requests@, requests@.len())
                },
                Err((stopped, e)) => {
                    &&& stopped < requests@.len()
                    &&& old(self)@.accepts_requests(requests@, stopped as nat)
                    &&& old(self)@.after_requests(requests@, stopped as nat).request_outcome(
                        requests@[stopped as int],
                    ) == Err::<(), MoveError>(e)
                    &&& final(self)@ == old(self)@.after_requests(requests@, (stopped + 1) as nat)
                },
            },
            old(self)@.wf() ==> final(self)@.wf(),
    {
        let ghost before = self@;
        let ghost was_wf = before.wf();
        let mut done: usize = 0;
        while done < requests.len()
            invariant
                before == old(self)@,
                was_wf == before.wf(),
                done <= requests@.len(),
                before.accepts_requests(requests@, done as nat),
                self@ == before.after_requests(requests@, done as nat),
                was_wf ==> self@.wf(),
            decreases requests@.len() - done,
        {
            if let Err(e) = self.play(requests[done]) {
                return Err((done, e));
            }
            done += 1;
        }
        Ok(())
    }
}

} // verus!
