//! Bankroll management for poker players.
//!
//! Given a bankroll, the kind of game played and the player's tolerance for
//! risk, the library recommends what to play: a rung of the cash-game ladder
//! together with the rungs next to it, or an average buy-in for tournaments
//! and sit-and-goes.
//!
//! Money is counted in whole cents throughout, so every amount is an exact
//! integer and every comparison against a threshold is exact.
pub mod cash;
pub mod tournaments;
pub mod types;
