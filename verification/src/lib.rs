//! Rule engine for a hidden-role social deduction game for 5 to 10 players.
//!
//! The engine owns the authoritative game state and the protocol sequencing:
//! team proposal, approval voting, mission voting, the rotating clairvoyance
//! power and the asymmetric endgame. It is agnostic to how player moves
//! arrive; an embedding supplies channels and a driver loop, and calls the
//! step functions of [`driver`] and the validated entry points of [`votes`].

pub mod driver;
pub mod errors;
pub mod events;
mod rng;
pub mod roles;
pub mod rules;
pub mod state;
pub mod votes;
