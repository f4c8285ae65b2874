//! Game sessions between two players: one chess game's move and draw-offer
//! state machine, the registry of live games, and the decisions taken when a
//! game is stored, announced and rated.

pub mod board_update;
pub mod chess;
pub mod engine;
pub mod players;
pub mod rating;
pub mod records;
pub mod registry;
pub mod session;
