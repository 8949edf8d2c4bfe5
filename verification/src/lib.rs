//! Session logic of a connect-four web game played against an engine.
//!
//! A game is carried from request to request by its move log alone. This
//! crate decodes and extends that log, draws the board from it, turns the
//! engine's scores into a status for the player, and decides after each
//! answer of the engine whether the turn is over and what is shown next.
//! The engine itself, the HTTP surface and the templates live with the
//! driver: it asks the engine what the functions of [`game`] tell it to ask
//! and hands the answers back.

pub mod board;
pub mod decimal;
pub mod error;
pub mod game;
pub mod html;
pub mod move_log;
pub mod scores;
pub mod status;
