//! The session core of a two-player vocabulary game: one shared round of
//! cards, scores and readiness flags, the frames that keep both players'
//! copies of it current, and the decisions of a player's connection.

pub mod card;
pub mod error;
pub mod game;
pub mod json;
pub mod locale;
pub mod random;
pub mod request;
pub mod round;
pub mod server;
pub mod vocab;
