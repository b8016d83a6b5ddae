//! The plain data that describes a player.
use vstd::prelude::*;

verus! {

/// An amount of money in cents.
pub type Cents = u64;

/// The kind of game a player sits down to.
#[derive(Debug, Clone, Copy, PartialEq, Eq, Structural)]
pub enum GameType {
    Cash,
    Tournament,
    SitAndGo,
}

/// How much risk a player accepts, from the most careful to the least.
#[derive(Debug, Clone, Copy, PartialEq, Eq, Structural)]
pub enum RiskLevel {
    Conservative,
    Moderate,
    Aggressive,
    UltraAggressive,
}

impl RiskLevel {
    /// Position on the scale of risk: 0 for the most careful player, 3 for
    /// the least.
    pub open spec fn rank(self) -> nat {
        match self {
            RiskLevel::Conservative => 0,
            RiskLevel::Moderate => 1,
            RiskLevel::Aggressive => 2,
            RiskLevel::UltraAggressive => 3,
        }
    }
}

/// What is known of a player: the bankroll, the game and the risk accepted.
#[derive(Debug, Clone, Copy, PartialEq, Eq, Structural)]
pub struct PlayerProfile {
    pub bankroll: Cents,
    pub game_type: GameType,
    pub risk_level: RiskLevel,
}

} // verus!
