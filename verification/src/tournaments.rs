//! Tournaments and sit-and-goes: the average buy-in that a bankroll carries.
use vstd::prelude::*;
use vstd::arithmetic::div_mod::lemma_fundamental_div_mod;
use crate::types::{Cents, GameType, RiskLevel};

verus! {

/// Why no buy-in can be recommended.
#[derive(Debug, Clone, Copy, PartialEq, Eq, Structural)]
pub enum StakeError {
    /// The game is a cash game, which has stakes and no buy-in to average.
    CashGame,
}

/// A recommended average buy-in: the bankroll shared out over the number of
/// buy-ins that it has to last for.
///
/// The amount is `cents` and `remainder / buyins` of a cent, so that nothing
/// of the bankroll is rounded away.
#[derive(Debug, Clone, Copy, PartialEq, Eq, Structural)]
pub struct BuyIn {
    /// The whole cents of the buy-in.
    pub cents: Cents,
    /// What the sharing left over, in cents of the bankroll; less than `buyins`.
    pub remainder: Cents,
    /// The number of buy-ins that the bankroll was shared out over.
    pub buyins: u64,
}

impl BuyIn {
    /// The buy-in is what `bankroll` comes to when it is shared out over
    /// `buyins` buy-ins, with less than one cent for each left over.
    pub open spec fn shares_out(self, bankroll: nat) -> bool {
        &&& self.remainder < self.buyins
        &&& self.buyins * self.cents + self.remainder == bankroll
    }
}

/// How many buy-ins a bankroll must hold for a kind of game at a level of
/// risk. Tournaments swing more than sit-and-goes and ask for more; cash
/// games are not played by buy-in and have no entry.
pub open spec fn spec_tournament_min_buyins(game: GameType, risk: RiskLevel) -> Option<nat> {
    match game {
        GameType::SitAndGo => Some(
            match risk {
                RiskLevel::Conservative => 100,
                RiskLevel::Moderate => 50,
                RiskLevel::Aggressive => 30,
                RiskLevel::UltraAggressive => 20,
            },
        ),
        GameType::Tournament => Some(
            match risk {
                RiskLevel::Conservative => 200,
                RiskLevel::Moderate => 100,
                RiskLevel::Aggressive => 50,
                RiskLevel::UltraAggressive => 30,
            },
        ),
        GameType::Cash => None,
    }
}

/// How many buy-ins a bankroll must hold for a kind of game at a level of
/// risk, or `None` for a cash game.
pub fn tournament_min_buyins(game: GameType, risk: RiskLevel) -> (count: Option<u64>)
    ensures
        count is None <==> game == GameType::Cash,
        count matches Some(n) ==> spec_tournament_min_buyins(game, risk) == Some(n as nat),
{
    match game {
        GameType::SitAndGo => Some(
            match risk {
                RiskLevel::Conservative => 100,
                RiskLevel::Moderate => 50,
                RiskLevel::Aggressive => 30,
                RiskLevel::UltraAggressive => 20,
            },
        ),
        GameType::Tournament => Some(
            match risk {
                RiskLevel::Conservative => 200,
                RiskLevel::Moderate => 100,
                RiskLevel::Aggressive => 50,
                RiskLevel::UltraAggressive => 30,
            },
        ),
        GameType::Cash => None,
    }
}

/// The average buy-in to play on a bankroll: the bankroll divided by the
/// number of buy-ins that the game and the level of risk ask for.
///
/// A cash game is refused. For the other games the division is exact: the
/// whole cents and what is left over add up to the bankroll again.
pub fn get_tournament_stake(bankroll: Cents, game: GameType, risk: RiskLevel) -> (stake: Result<
    BuyIn,
    StakeError,
>)
    ensures
        game == GameType::Cash <==> stake == Err::<BuyIn, StakeError>(StakeError::CashGame),
        game != GameType::Cash <==> stake is Ok,
        stake matches Ok(buy_in) ==> {
            &&& spec_tournament_min_buyins(game, risk) == Some(buy_in.buyins as nat)
            &&& buy_in.cents == bankroll / buy_in.buyins
            &&& buy_in.remainder == bankroll % buy_in.buyins
            &&& buy_in.shares_out(bankroll as nat)
        },
{
    match tournament_min_buyins(game, risk) {
        Some(buyins) => {
            proof {
                lemma_fundamental_div_mod(bankroll as int, buyins as int);
            }
            Ok(BuyIn { cents: bankroll / buyins, remainder: bankroll % buyins, buyins })
        },
        None => Err(StakeError::CashGame),
    }
}

/// The bolder the player, the fewer buy-ins are asked for, in tournaments and
/// in sit-and-goes alike.
pub proof fn lemma_tournament_min_buyins_decreasing(
    game: GameType,
    careful: RiskLevel,
    bold: RiskLevel,
)
    requires
        game != GameType::Cash,
        careful.rank() < bold.rank(),
    ensures
        spec_tournament_min_buyins(game, careful) matches Some(more)
            && spec_tournament_min_buyins(game, bold) matches Some(fewer) && more > fewer,
{
}

/// At every level of risk a tournament asks for more buy-ins than a
/// sit-and-go.
pub proof fn lemma_tournaments_ask_more(risk: RiskLevel)
    ensures
        spec_tournament_min_buyins(GameType::Tournament, risk) matches Some(more)
            && spec_tournament_min_buyins(GameType::SitAndGo, risk) matches Some(fewer) && more
            > fewer,
{
}

} // verus!
