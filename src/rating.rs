//! The rating settlement of a finished game: whether the two players are
//! rated, and on what result.

use vstd::prelude::*;
use crate::chess::{Color, Outcome};
use crate::players::Player;

verus! {

/// A game's result from White's side, as the rating function takes it.
#[derive(Clone, Copy, Debug, PartialEq, Eq, Structural)]
pub enum RatingOutcome {
    Win,
    Loss,
    Draw,
}

pub open spec fn rating_outcome_of(o: Outcome) -> RatingOutcome {
    match o {
        Outcome::Draw => RatingOutcome::Draw,
        Outcome::Decisive { winner: Color::White } => RatingOutcome::Win,
        Outcome::Decisive { winner: Color::Black } => RatingOutcome::Loss,
    }
}

/// The result both players are rated on: none when the two accounts are one
/// (nobody is rated against themselves), and none for a game that did not end
/// on the board (a draw by agreement).
pub open spec fn settlement_spec(white_id: i64, black_id: i64, outcome: Option<Outcome>) -> Option<RatingOutcome> {
    if white_id == black_id {
        None
    } else {
        match outcome {
            None => None,
            Some(o) => Some(rating_outcome_of(o)),
        }
    }
}

/// What to rate `white` and `black` on, given how their game ended on the
/// board.
pub fn settlement(white: &Player, black: &Player, outcome: Option<Outcome>) -> (r: Option<RatingOutcome>)
    ensures
        r == settlement_spec(white.id, black.id, outcome),
        white.id == black.id ==> r is None,
{
    if white.id == black.id {
        return None;
    }
    match outcome {
        None => None,
        Some(Outcome::Draw) => Some(RatingOutcome::Draw),
        Some(Outcome::Decisive { winner: Color::White }) => Some(RatingOutcome::Win),
        Some(Outcome::Decisive { winner: Color::Black }) => Some(RatingOutcome::Loss),
    }
}

} // verus!
