//! The chess rules, as given by shakmaty. A position is held as its
//! Forsyth-Edwards (FEN) text; each query parses it again. Text that does not
//! parse as a standard chess position answers as stated on each function.

use vstd::prelude::*;
use shakmaty::fen::Fen;
use shakmaty::san::San;
use shakmaty::{CastlingMode, Chess, EnPassantMode, Position};
use crate::chess::{Color, Outcome};

verus! {

/// FEN text of the standard starting position.
pub const START_FEN: &'static str = "rnbqkbnr/pppppppp/8/8/8/8/PPPPPPPP/RNBQKBNR w KQkq - 0 1";

/// The position after playing the move written `san` in the position `fen`,
/// and that move in canonical SAN; `None` where either text does not parse
/// or no unique legal move matches.
pub uninterp spec fn played_of(fen: Seq<char>, san: Seq<char>) -> Option<(Seq<char>, Seq<char>)>;

/// How the game stands finished in the position `fen`, or `None` while it goes on.
pub uninterp spec fn outcome_of(fen: Seq<char>) -> Option<Outcome>;

/// Whether the side to move in `fen` is in check.
pub uninterp spec fn in_check_of(fen: Seq<char>) -> bool;

/// The side to move in `fen`.
pub uninterp spec fn turn_of(fen: Seq<char>) -> Color;

/// The SAN of every legal move in `fen`, in the engine's order.
pub uninterp spec fn legal_sans_of(fen: Seq<char>) -> Seq<Seq<char>>;

/// Relies on `San::from_ascii`, `San::to_move` and `Position::play` of
/// shakmaty (with `Fen` to read and write the position, and `San::from_move`
/// for the canonical text): the result depends on the two texts alone.
#[verifier::external_body]
pub(crate) fn play_san(fen: &str, san: &str) -> (r: Option<(String, String)>)
    ensures
        r matches Some(p) ==> played_of(fen@, san@) == Some((p.0@, p.1@)),
        r is None ==> played_of(fen@, san@) is None,
{
    let pos: Chess = fen.parse::<Fen>().ok()?.into_position(CastlingMode::Standard).ok()?;
    let m = San::from_ascii(san.as_bytes()).ok()?.to_move(&pos).ok()?;
    let text = San::from_move(&pos, &m).to_string();
    let next = pos.play(&m).ok()?;
    Some((Fen::from_position(next, EnPassantMode::Legal).to_string(), text))
}

/// Relies on `Position::outcome` of shakmaty: `None` where the text does not
/// parse.
#[verifier::external_body]
pub(crate) fn position_outcome(fen: &str) -> (r: Option<Outcome>)
    ensures
        r == outcome_of(fen@),
{
    let pos: Chess = fen.parse::<Fen>().ok()?.into_position(CastlingMode::Standard).ok()?;
    match pos.outcome()? {
        shakmaty::Outcome::Decisive { winner: shakmaty::Color::White } => Some(Outcome::Decisive { winner: Color::White }),
        shakmaty::Outcome::Decisive { winner: shakmaty::Color::Black } => Some(Outcome::Decisive { winner: Color::Black }),
        shakmaty::Outcome::Draw => Some(Outcome::Draw),
    }
}

/// Relies on `Position::is_check` of shakmaty: `false` where the text does not
/// parse.
#[verifier::external_body]
pub(crate) fn position_is_check(fen: &str) -> (r: bool)
    ensures
        r == in_check_of(fen@),
{
    match fen.parse::<Fen>().ok().and_then(|f| f.into_position::<Chess>(CastlingMode::Standard).ok()) {
        Some(pos) => pos.is_check(),
        None => false,
    }
}

/// Relies on `Position::turn` of shakmaty: White where the text does not parse.
#[verifier::external_body]
pub(crate) fn position_turn(fen: &str) -> (r: Color)
    ensures
        r == turn_of(fen@),
{
    match fen.parse::<Fen>().ok().and_then(|f| f.into_position::<Chess>(CastlingMode::Standard).ok()).map(|p| p.turn()) {
        Some(shakmaty::Color::Black) => Color::Black,
        Some(shakmaty::Color::White) | None => Color::White,
    }
}

/// Relies on `Position::legal_moves` of shakmaty, each move written with
/// `San::from_move`: empty where the text does not parse.
#[verifier::external_body]
pub(crate) fn position_legal_sans(fen: &str) -> (r: Vec<String>)
    ensures
        r@.map_values(|s: String| s@) == legal_sans_of(fen@),
{
    match fen.parse::<Fen>().ok().and_then(|f| f.into_position::<Chess>(CastlingMode::Standard).ok()) {
        Some(pos) => pos.legal_moves().iter().map(|m| San::from_move(&pos, m).to_string()).collect(),
        None => Vec::new(),
    }
}

} // verus!
