//! One chess game: the position, a pending draw offer, and the rules for
//! playing a move or offering a draw.

use vstd::prelude::*;
use crate::engine::{
    in_check_of, legal_sans_of, outcome_of, played_of, play_san, position_is_check,
    position_legal_sans, position_outcome, position_turn, turn_of, START_FEN,
};

verus! {

/// The text a player sends to offer, or accept, a draw.
pub const DRAW_OFFER_SAN: &'static str = "=";

/// A side of the board.
#[derive(Clone, Copy, Debug, PartialEq, Eq, Structural)]
pub enum Color {
    White,
    Black,
}

impl Color {
    pub open spec fn opposite(self) -> Color {
        match self {
            Color::White => Color::Black,
            Color::Black => Color::White,
        }
    }

    /// The other side.
    pub fn other(self) -> (r: Color)
        ensures
            r == self.opposite(),
    {
        match self {
            Color::White => Color::Black,
            Color::Black => Color::White,
        }
    }

    /// White when `white` holds, else Black.
    pub fn from_white(white: bool) -> (r: Color)
        ensures
            r == (if white { Color::White } else { Color::Black }),
    {
        if white {
            Color::White
        } else {
            Color::Black
        }
    }
}

/// How a finished game ended.
#[derive(Clone, Copy, Debug, PartialEq, Eq, Structural)]
pub enum Outcome {
    Decisive { winner: Color },
    Draw,
}

/// Why a player's action was refused.
#[derive(Clone, Copy, Debug, PartialEq, Eq, Structural)]
pub enum ChessError {
    InvalidMove,
    NotYourTurn,
    GameOver,
    InvalidPlayer,
    DatabaseError,
}

impl ChessError {
    /// The message shown to the player.
    pub fn message(&self) -> (r: &'static str) {
        match self {
            ChessError::InvalidMove => "You played an invalid move!",
            ChessError::NotYourTurn => "It is not your turn!",
            ChessError::GameOver => "The game is over!",
            ChessError::InvalidPlayer => "Invalid player. You are probably not in the game!",
            ChessError::DatabaseError => "Uh oh, something went wrong with the database! Please try again or report the error.",
        }
    }
}

/// What one accepted action did to a game. A move is carried as its SAN.
#[derive(Clone, Debug)]
pub enum MoveStatus {
    Move(String),
    Check(String),
    Checkmate(String),
    Stalemate(String),
    GameStart,
    DrawOffer(Color),
    Draw,
}

/// `MoveStatus` with each move as a sequence of characters.
pub enum Transition {
    Move(Seq<char>),
    Check(Seq<char>),
    Checkmate(Seq<char>),
    Stalemate(Seq<char>),
    GameStart,
    DrawOffer(Color),
    Draw,
}

impl View for MoveStatus {
    type V = Transition;

    open spec fn view(&self) -> Transition {
        match self {
            MoveStatus::Move(m) => Transition::Move(m@),
            MoveStatus::Check(m) => Transition::Check(m@),
            MoveStatus::Checkmate(m) => Transition::Checkmate(m@),
            MoveStatus::Stalemate(m) => Transition::Stalemate(m@),
            MoveStatus::GameStart => Transition::GameStart,
            MoveStatus::DrawOffer(c) => Transition::DrawOffer(*c),
            MoveStatus::Draw => Transition::Draw,
        }
    }
}

impl Transition {
    /// The game is over after this transition.
    pub open spec fn ends_game(self) -> bool {
        self is Checkmate || self is Stalemate || self is Draw
    }
}

impl MoveStatus {
    /// Whether the game is over after this transition.
    pub fn is_terminal(&self) -> (r: bool)
        ensures
            r == self@.ends_game(),
    {
        match self {
            MoveStatus::Checkmate(_) | MoveStatus::Stalemate(_) | MoveStatus::Draw => true,
            _ => false,
        }
    }
}

/// The transition for a move written `san` that reached a position with the
/// given outcome and check state: a finished game before a check.
pub open spec fn classify_spec(san: Seq<char>, outcome: Option<Outcome>, check: bool) -> Transition {
    match outcome {
        Some(Outcome::Decisive { .. }) => Transition::Checkmate(san),
        Some(Outcome::Draw) => Transition::Stalemate(san),
        None => if check {
            Transition::Check(san)
        } else {
            Transition::Move(san)
        },
    }
}

/// Names the transition of a move from what the position after it shows.
pub fn classify(san: String, outcome: Option<Outcome>, check: bool) -> (r: MoveStatus)
    ensures
        r@ == classify_spec(san@, outcome, check),
        outcome matches Some(Outcome::Decisive { .. }) ==> r is Checkmate,
{
    match outcome {
        Some(Outcome::Decisive { .. }) => MoveStatus::Checkmate(san),
        Some(Outcome::Draw) => MoveStatus::Stalemate(san),
        None => if check {
            MoveStatus::Check(san)
        } else {
            MoveStatus::Move(san)
        },
    }
}

/// Whether `text` is the draw-offer token.
pub fn is_draw_offer(text: &str) -> (r: bool)
    ensures
        r == (text@ == DRAW_OFFER_SAN@),
{
    proof {
        reveal_strlit("=");
    }
    if text.unicode_len() != 1 {
        return false;
    }
    let c = text.get_char(0);
    if c == '=' {
        assert(text@ =~= DRAW_OFFER_SAN@);
        true
    } else {
        false
    }
}

/// The state of a game as the contracts see it.
pub struct GameView {
    pub position: Seq<char>,
    pub draw_offer: Option<Color>,
}

/// Why a move by `side` written `san` is refused in `g`, if it is.
pub open spec fn move_error(g: GameView, side: Color, san: Seq<char>) -> Option<ChessError> {
    if outcome_of(g.position) is Some {
        Some(ChessError::GameOver)
    } else if side != turn_of(g.position) {
        Some(ChessError::NotYourTurn)
    } else if played_of(g.position, san) is None {
        Some(ChessError::InvalidMove)
    } else {
        None
    }
}

/// The result of a move by `side` written `san` in `g`, and the game after it.
pub open spec fn attempt_spec(g: GameView, side: Color, san: Seq<char>) -> (Result<Transition, ChessError>, GameView) {
    match move_error(g, side, san) {
        Some(e) => (Err(e), g),
        None => {
            let (next, text) = played_of(g.position, san)->Some_0;
            (
                Ok(classify_spec(text, outcome_of(next), in_check_of(next))),
                GameView { position: next, draw_offer: None },
            )
        },
    }
}

/// Whether an offer by `side` meets a pending offer of the other side.
pub open spec fn offer_accepts(g: GameView, side: Color) -> bool {
    g.draw_offer matches Some(c) && c != side
}

/// The game after `side` offers a draw in `g`.
pub open spec fn after_offer(g: GameView, side: Color) -> GameView {
    if offer_accepts(g, side) {
        g
    } else {
        GameView { position: g.position, draw_offer: Some(side) }
    }
}

pub open spec fn status_result_view(r: Result<MoveStatus, ChessError>) -> Result<Transition, ChessError> {
    match r {
        Ok(s) => Ok(s@),
        Err(e) => Err(e),
    }
}

/// A game in progress.
#[derive(Debug)]
pub struct ChessGame {
    fen: String,
    draw_offer: Option<Color>,
}

impl View for ChessGame {
    type V = GameView;

    closed spec fn view(&self) -> GameView {
        GameView { position: self.fen@, draw_offer: self.draw_offer }
    }
}

impl ChessGame {
    /// The starting position with no draw offer.
    pub open spec fn new_spec() -> GameView {
        GameView { position: START_FEN@, draw_offer: None }
    }

    /// A game at the starting position with no draw offer.
    pub fn new() -> (r: ChessGame)
        ensures
            r@ == Self::new_spec(),
    {
        ChessGame { fen: START_FEN.to_string(), draw_offer: None }
    }

    /// Plays the move written `san` for `player_color`.
    ///
    /// Refused with `GameOver` once the game has ended, then with
    /// `NotYourTurn` when the other side is to move, then with `InvalidMove`
    /// when the text names no legal move; a refused move changes nothing. An
    /// accepted move replaces the position and clears any draw offer.
    pub fn play_move(&mut self, player_color: Color, san: &str) -> (r: Result<MoveStatus, ChessError>)
        ensures
            (status_result_view(r), final(self)@) == attempt_spec(old(self)@, player_color, san@),
    {
        if position_outcome(self.fen.as_str()).is_some() {
            return Err(ChessError::GameOver);
        }
        let to_move = position_turn(self.fen.as_str());
        if player_color != to_move {
            return Err(ChessError::NotYourTurn);
        }
        match play_san(self.fen.as_str(), san) {
            None => Err(ChessError::InvalidMove),
            Some((next, text)) => {
                let outcome = position_outcome(next.as_str());
                let check = position_is_check(next.as_str());
                self.fen = next;
                self.draw_offer = None;
                Ok(classify(text, outcome, check))
            },
        }
    }

    /// Records a draw offer by `player_color`. Returns true, changing
    /// nothing, when the other side's offer was pending: the game is then a
    /// draw. Otherwise the offer of `player_color` is pending.
    pub fn draw_offer(&mut self, player_color: Color) -> (r: bool)
        ensures
            r == offer_accepts(old(self)@, player_color),
            final(self)@ == after_offer(old(self)@, player_color),
    {
        match self.draw_offer {
            Some(c) if c != player_color => true,
            _ => {
                self.draw_offer = Some(player_color);
                false
            },
        }
    }

    /// The outcome of the game, or `None` while it goes on.
    pub fn outcome(&self) -> (r: Option<Outcome>)
        ensures
            r == outcome_of(self@.position),
    {
        position_outcome(self.fen.as_str())
    }

    /// Whether the side to move is in check.
    pub fn is_check(&self) -> (r: bool)
        ensures
            r == in_check_of(self@.position),
    {
        position_is_check(self.fen.as_str())
    }

    /// The side to move.
    pub fn turn(&self) -> (r: Color)
        ensures
            r == turn_of(self@.position),
    {
        position_turn(self.fen.as_str())
    }

    /// Whether the game has ended on the board.
    pub fn is_terminal(&self) -> (r: bool)
        ensures
            r == outcome_of(self@.position) is Some,
    {
        position_outcome(self.fen.as_str()).is_some()
    }

    /// The SAN of every legal move of the side to move, then the draw-offer token.
    pub fn valid_moves_san(&self) -> (r: Vec<String>)
        ensures
            r@.map_values(|s: String| s@) == legal_sans_of(self@.position).push(DRAW_OFFER_SAN@),
    {
        let mut moves = position_legal_sans(self.fen.as_str());
        let token = DRAW_OFFER_SAN.to_string();
        moves.push(token);
        proof {
            assert(moves@.map_values(|s: String| s@) =~= legal_sans_of(self@.position).push(DRAW_OFFER_SAN@));
        }
        moves
    }

    /// The position, as FEN text.
    pub fn board(&self) -> (r: &String)
        ensures
            r@ == self@.position,
    {
        &self.fen
    }

    /// The pending draw offer, if any.
    pub fn pending_draw_offer(&self) -> (r: Option<Color>)
        ensures
            r == self@.draw_offer,
    {
        self.draw_offer
    }
}

/// A move by the side not to move, in a game still going on, is refused
/// with `NotYourTurn` and leaves the game as it was.
pub proof fn lemma_turn_enforcement(g: GameView, side: Color, san: Seq<char>)
    requires
        outcome_of(g.position) is None,
        side != turn_of(g.position),
    ensures
        attempt_spec(g, side, san) == (Err::<Transition, ChessError>(ChessError::NotYourTurn), g),
{
}

/// An accepted move that ends the game decisively is a checkmate, whether or
/// not the position also shows check.
pub proof fn lemma_mate_before_check(g: GameView, side: Color, san: Seq<char>)
    requires
        move_error(g, side, san) is None,
        outcome_of(played_of(g.position, san)->Some_0.0) matches Some(Outcome::Decisive { .. }),
    ensures
        attempt_spec(g, side, san).0 matches Ok(Transition::Checkmate(_)),
{
}

/// Offering a draw twice from one side leaves that offer pending and ends
/// nothing; an offer met by the other side's offer ends the game as a draw.
pub proof fn lemma_draw_offer_symmetry(g: GameView, side: Color)
    requires
        !offer_accepts(g, side),
    ensures
        !offer_accepts(after_offer(g, side), side),
        after_offer(after_offer(g, side), side) == after_offer(g, side),
        after_offer(g, side).draw_offer == Some(side),
        offer_accepts(after_offer(g, side), side.opposite()),
{
}

} // verus!
