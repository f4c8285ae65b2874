//! What is stored of users and games, and the errors of the service around
//! the registry.

use vstd::prelude::*;
use crate::chess::{Color, Outcome};

verus! {

/// How a stored game ended; stored as 0, 1 and 2.
#[derive(Clone, Copy, Debug, PartialEq, Eq, Structural)]
pub enum GameOutcome {
    Draw,
    WhiteWin,
    BlackWin,
}

pub open spec fn outcome_code(o: GameOutcome) -> i64 {
    match o {
        GameOutcome::Draw => 0,
        GameOutcome::WhiteWin => 1,
        GameOutcome::BlackWin => 2,
    }
}

impl GameOutcome {
    /// The stored code.
    pub fn code(self) -> (r: i64)
        ensures
            r == outcome_code(self),
    {
        match self {
            GameOutcome::Draw => 0,
            GameOutcome::WhiteWin => 1,
            GameOutcome::BlackWin => 2,
        }
    }

    /// The outcome stored as `code`; `None` for a code that names none.
    pub fn from_code(code: i64) -> (r: Option<GameOutcome>)
        ensures
            r matches Some(o) ==> outcome_code(o) == code,
            r is None <==> !(0 <= code <= 2),
    {
        if code == 0 {
            Some(GameOutcome::Draw)
        } else if code == 1 {
            Some(GameOutcome::WhiteWin)
        } else if code == 2 {
            Some(GameOutcome::BlackWin)
        } else {
            None
        }
    }

    /// The stored form of a game's outcome.
    pub fn from_outcome(outcome: Outcome) -> (r: GameOutcome)
        ensures
            r == stored_outcome(outcome),
    {
        match outcome {
            Outcome::Draw => GameOutcome::Draw,
            Outcome::Decisive { winner: Color::White } => GameOutcome::WhiteWin,
            Outcome::Decisive { winner: Color::Black } => GameOutcome::BlackWin,
        }
    }
}

pub open spec fn stored_outcome(outcome: Outcome) -> GameOutcome {
    match outcome {
        Outcome::Draw => GameOutcome::Draw,
        Outcome::Decisive { winner: Color::White } => GameOutcome::WhiteWin,
        Outcome::Decisive { winner: Color::Black } => GameOutcome::BlackWin,
    }
}

/// A game row as read from storage.
pub struct RawGame {
    pub id: i64,
    pub white_id: i64,
    pub black_id: i64,
    pub outcome: Option<i64>,
    pub created_at: i64,
}

/// A game a user has played. `created_at` is in seconds since the Unix epoch.
#[derive(Clone, Copy, Debug)]
pub struct Game {
    id: i64,
    white_id: i64,
    black_id: i64,
    outcome: Option<GameOutcome>,
    created_at: i64,
}

impl Game {
    /// The game a stored row describes; `None` where its outcome code names
    /// no outcome.
    pub fn from_raw(raw: RawGame) -> (r: Option<Game>)
        ensures
            r is None <==> (raw.outcome matches Some(c) && !(0 <= c <= 2)),
            r matches Some(g) ==> g.id() == raw.id && g.white_id() == raw.white_id
                && g.black_id() == raw.black_id && g.created_at() == raw.created_at
                && (match raw.outcome {
                    None => g.outcome() is None,
                    Some(c) => g.outcome() matches Some(o) && outcome_code(o) == c,
                }),
    {
        let outcome = match raw.outcome {
            None => None,
            Some(c) => match GameOutcome::from_code(c) {
                None => return None,
                Some(o) => Some(o),
            },
        };
        Some(Game {
            id: raw.id,
            white_id: raw.white_id,
            black_id: raw.black_id,
            outcome,
            created_at: raw.created_at,
        })
    }

    pub closed spec fn spec_id(&self) -> i64 {
        self.id
    }

    #[verifier::when_used_as_spec(spec_id)]
    pub fn id(&self) -> (r: i64)
        ensures
            r == self.spec_id(),
    {
        self.id
    }

    pub closed spec fn spec_white_id(&self) -> i64 {
        self.white_id
    }

    #[verifier::when_used_as_spec(spec_white_id)]
    pub fn white_id(&self) -> (r: i64)
        ensures
            r == self.spec_white_id(),
    {
        self.white_id
    }

    pub closed spec fn spec_black_id(&self) -> i64 {
        self.black_id
    }

    #[verifier::when_used_as_spec(spec_black_id)]
    pub fn black_id(&self) -> (r: i64)
        ensures
            r == self.spec_black_id(),
    {
        self.black_id
    }

    pub closed spec fn spec_outcome(&self) -> Option<GameOutcome> {
        self.outcome
    }

    #[verifier::when_used_as_spec(spec_outcome)]
    pub fn outcome(&self) -> (r: Option<GameOutcome>)
        ensures
            r == self.spec_outcome(),
    {
        self.outcome
    }

    pub closed spec fn spec_created_at(&self) -> i64 {
        self.created_at
    }

    #[verifier::when_used_as_spec(spec_created_at)]
    pub fn created_at(&self) -> (r: i64)
        ensures
            r == self.spec_created_at(),
    {
        self.created_at
    }
}

/// Why a board could not be brought up to date.
#[derive(Clone, Copy, Debug, PartialEq, Eq, Structural)]
pub enum UpdateBoardError {
    DatabaseError,
    DiscordError,
}

/// Why a game could not be started.
#[derive(Clone, Copy, Debug, PartialEq, Eq, Structural)]
pub enum CreateGameError {
    PlayerInGame,
    PlayerDoesNotExist,
    UsernameTaken(Color),
    DatabaseError,
    DiscordError,
}

/// A service failed to start or run.
#[derive(Clone, Copy, Debug, PartialEq, Eq, Structural)]
pub struct ServiceError;

/// A challenge could not be sent.
#[derive(Clone, Copy, Debug, PartialEq, Eq, Structural)]
pub struct ChallengeError;

/// Access to stored users and games.
#[derive(Clone, Copy, Debug)]
pub struct UserService;

} // verus!
