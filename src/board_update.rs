//! What is stored and who is told after each transition of a game.

use vstd::prelude::*;
use crate::chess::{Color, MoveStatus, Transition};
use crate::players::Player;
use crate::records::GameOutcome;

verus! {

/// A move to store: who played it and its SAN.
pub struct MoveRecord {
    pub player_id: i64,
    pub san: String,
}

/// What to store after a transition: the move, if one was played, and the
/// game's outcome, if it ended.
pub struct StoragePlan {
    pub record: Option<MoveRecord>,
    pub outcome: Option<GameOutcome>,
}

/// The move carried by a transition, if any.
pub open spec fn played_move(t: Transition) -> Option<Seq<char>> {
    match t {
        Transition::Move(m) => Some(m),
        Transition::Check(m) => Some(m),
        Transition::Checkmate(m) => Some(m),
        Transition::Stalemate(m) => Some(m),
        _ => None,
    }
}

/// The stored outcome after a transition by `mover`: a mate is won by the
/// side that moved; a stalemate or an agreed draw is a draw.
pub open spec fn ending_of(t: Transition, mover: Color) -> Option<GameOutcome> {
    match t {
        Transition::Checkmate(_) => Some(
            if mover == Color::White {
                GameOutcome::WhiteWin
            } else {
                GameOutcome::BlackWin
            },
        ),
        Transition::Stalemate(_) => Some(GameOutcome::Draw),
        Transition::Draw => Some(GameOutcome::Draw),
        _ => None,
    }
}

/// What to store after `status`, an action of `mover` in the game of the
/// accounts `white_id` and `black_id`. The move is stored under the mover.
pub fn storage_plan(status: &MoveStatus, mover: Color, white_id: i64, black_id: i64) -> (r: StoragePlan)
    ensures
        played_move(status@) is None ==> r.record is None,
        played_move(status@) matches Some(m) ==> r.record matches Some(rec)
            && rec.san@ == m
            && rec.player_id == (if mover == Color::White { white_id } else { black_id }),
        r.outcome == ending_of(status@, mover),
{
    let player_id = match mover {
        Color::White => white_id,
        Color::Black => black_id,
    };
    let winner = match mover {
        Color::White => GameOutcome::WhiteWin,
        Color::Black => GameOutcome::BlackWin,
    };
    match status {
        MoveStatus::Move(m) | MoveStatus::Check(m) => StoragePlan {
            record: Some(MoveRecord { player_id, san: m.clone() }),
            outcome: None,
        },
        MoveStatus::Checkmate(m) => StoragePlan {
            record: Some(MoveRecord { player_id, san: m.clone() }),
            outcome: Some(winner),
        },
        MoveStatus::Stalemate(m) => StoragePlan {
            record: Some(MoveRecord { player_id, san: m.clone() }),
            outcome: Some(GameOutcome::Draw),
        },
        MoveStatus::Draw => StoragePlan { record: None, outcome: Some(GameOutcome::Draw) },
        MoveStatus::DrawOffer(_) | MoveStatus::GameStart => StoragePlan { record: None, outcome: None },
    }
}

/// A board update for one player: their side, their opponent's name, and
/// whether they are to move.
pub struct Notice {
    pub recipient: Color,
    pub opponent_name: String,
    pub is_recipient_turn: bool,
}

/// The two board updates after an action of `mover`, with `to_move` to move
/// next: the other side is told first, then the mover.
pub fn notices(white: &Player, black: &Player, mover: Color, to_move: Color) -> (r: Vec<Notice>)
    ensures
        r@.len() == 2,
        r@[0].recipient == mover.opposite(),
        r@[1].recipient == mover,
        forall|k: int| 0 <= k < 2 ==> {
            &&& (#[trigger] r@[k]).is_recipient_turn == (r@[k].recipient == to_move)
            &&& r@[k].opponent_name@ == (if r@[k].recipient == Color::White { black.username@ } else { white.username@ })
        },
{
    let mut r: Vec<Notice> = Vec::new();
    let first = mover.other();
    let first_opponent = match first {
        Color::White => black.username.clone(),
        Color::Black => white.username.clone(),
    };
    r.push(Notice { recipient: first, opponent_name: first_opponent, is_recipient_turn: first == to_move });
    let second_opponent = match mover {
        Color::White => black.username.clone(),
        Color::Black => white.username.clone(),
    };
    r.push(Notice { recipient: mover, opponent_name: second_opponent, is_recipient_turn: mover == to_move });
    r
}

} // verus!
