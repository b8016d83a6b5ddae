//! Cash games: the ladder of stakes and the choice of a rung.
use vstd::prelude::*;
use crate::types::{Cents, RiskLevel};

verus! {

/// A no-limit cash-game stake, named after its buy-in in whole currency
/// units. The variants are listed from the smallest buy-in to the largest.
#[derive(Debug, Clone, Copy, PartialEq, Eq, Structural)]
pub enum CashStake {
    NL2,
    NL5,
    NL10,
    NL25,
    NL50,
    NL100,
    NL200,
    NL500,
    NL1000,
    NL2000,
    NL5000,
    NL10000,
}

/// Number of rungs on the ladder.
pub const LADDER_LEN: usize = 12;

/// The ladder of stakes, from the smallest buy-in up to the largest.
pub const LADDER: [CashStake; 12] = [
    CashStake::NL2,
    CashStake::NL5,
    CashStake::NL10,
    CashStake::NL25,
    CashStake::NL50,
    CashStake::NL100,
    CashStake::NL200,
    CashStake::NL500,
    CashStake::NL1000,
    CashStake::NL2000,
    CashStake::NL5000,
    CashStake::NL10000,
];

impl CashStake {
    /// Position of the stake on the ladder, counted from 0 at the bottom.
    pub open spec fn rank(self) -> nat {
        match self {
            CashStake::NL2 => 0,
            CashStake::NL5 => 1,
            CashStake::NL10 => 2,
            CashStake::NL25 => 3,
            CashStake::NL50 => 4,
            CashStake::NL100 => 5,
            CashStake::NL200 => 6,
            CashStake::NL500 => 7,
            CashStake::NL1000 => 8,
            CashStake::NL2000 => 9,
            CashStake::NL5000 => 10,
            CashStake::NL10000 => 11,
        }
    }

    /// The buy-in of the stake, in cents.
    pub open spec fn spec_buyin_amount(self) -> nat {
        match self {
            CashStake::NL2 => 200,
            CashStake::NL5 => 500,
            CashStake::NL10 => 1_000,
            CashStake::NL25 => 2_500,
            CashStake::NL50 => 5_000,
            CashStake::NL100 => 10_000,
            CashStake::NL200 => 20_000,
            CashStake::NL500 => 50_000,
            CashStake::NL1000 => 100_000,
            CashStake::NL2000 => 200_000,
            CashStake::NL5000 => 500_000,
            CashStake::NL10000 => 1_000_000,
        }
    }

    /// What a bankroll must hold for the stake to be played at a level of
    /// risk: the stake's buy-in as many times as the level asks for.
    pub open spec fn spec_threshold(self, risk: RiskLevel) -> nat {
        self.spec_buyin_amount() * spec_min_buyins(risk)
    }

    /// The rung just below this one, if there is one.
    pub open spec fn lower_neighbor(self) -> Option<CashStake> {
        if self.rank() == 0 {
            None
        } else {
            Some(LADDER@[self.rank() as int - 1])
        }
    }

    /// The rung just above this one, if there is one.
    pub open spec fn upper_neighbor(self) -> Option<CashStake> {
        if self.rank() + 1 == LADDER_LEN {
            None
        } else {
            Some(LADDER@[self.rank() as int + 1])
        }
    }

    /// The buy-in of the stake, in cents.
    pub fn buyin_amount(&self) -> (amount: Cents)
        ensures
            amount == self.spec_buyin_amount(),
    {
        match self {
            CashStake::NL2 => 200,
            CashStake::NL5 => 500,
            CashStake::NL10 => 1_000,
            CashStake::NL25 => 2_500,
            CashStake::NL50 => 5_000,
            CashStake::NL100 => 10_000,
            CashStake::NL200 => 20_000,
            CashStake::NL500 => 50_000,
            CashStake::NL1000 => 100_000,
            CashStake::NL2000 => 200_000,
            CashStake::NL5000 => 500_000,
            CashStake::NL10000 => 1_000_000,
        }
    }

    /// What a bankroll must hold, in cents, for the stake to be played at a
    /// level of risk.
    pub fn threshold(&self, risk: RiskLevel) -> (amount: Cents)
        ensures
            amount == self.spec_threshold(risk),
    {
        let buyin = self.buyin_amount();
        let count = min_buyins(risk);
        assert(buyin * count <= 1_000_000 * 50) by (nonlinear_arith)
            requires
                buyin <= 1_000_000,
                count <= 50,
        ;
        buyin * count
    }
}

/// How many full buy-ins of a stake a bankroll must hold before the stake is
/// played: the more careful the player, the more of them.
pub open spec fn spec_min_buyins(risk: RiskLevel) -> nat {
    match risk {
        RiskLevel::Conservative => 50,
        RiskLevel::Moderate => 40,
        RiskLevel::Aggressive => 30,
        RiskLevel::UltraAggressive => 20,
    }
}

/// How many full buy-ins of a stake a bankroll must hold before the stake is
/// played.
pub fn min_buyins(risk: RiskLevel) -> (count: u64)
    ensures
        count == spec_min_buyins(risk),
{
    match risk {
        RiskLevel::Conservative => 50,
        RiskLevel::Moderate => 40,
        RiskLevel::Aggressive => 30,
        RiskLevel::UltraAggressive => 20,
    }
}

/// A bankroll affords a stake when it holds at least the stake's threshold.
pub open spec fn affords(bankroll: nat, stake: CashStake, risk: RiskLevel) -> bool {
    bankroll >= stake.spec_threshold(risk)
}

/// Some stake of the ladder is within the bankroll's reach.
pub open spec fn affords_any(bankroll: nat, risk: RiskLevel) -> bool {
    exists|stake: CashStake| #[trigger] affords(bankroll, stake, risk)
}

/// `stake` is the one to play on `bankroll`: the highest rung that the
/// bankroll affords, or the bottom rung when it affords none.
pub open spec fn is_selected(bankroll: nat, risk: RiskLevel, stake: CashStake) -> bool {
    if affords_any(bankroll, risk) {
        &&& affords(bankroll, stake, risk)
        &&& forall|other: CashStake| #[trigger]
            affords(bankroll, other, risk) ==> other.rank() <= stake.rank()
    } else {
        stake == CashStake::NL2
    }
}

/// The stake to play on a bankroll: the highest rung of the ladder whose
/// threshold the bankroll meets, or the bottom rung when it meets none.
pub fn get_cash_stake(bankroll: Cents, risk: RiskLevel) -> (stake: CashStake)
    ensures
        is_selected(bankroll as nat, risk, stake),
{
    let mut above: usize = LADDER_LEN;
    while above > 0
        invariant
            above <= LADDER_LEN,
            forall|other: CashStake|
                other.rank() >= above ==> !#[trigger] affords(bankroll as nat, other, risk),
        decreases above,
    {
        above = above - 1;
        let stake = LADDER[above];
        if bankroll >= stake.threshold(risk) {
            assert(affords(bankroll as nat, stake, risk));
            return stake;
        }
    }
    CashStake::NL2
}

/// The stake to play on a bankroll, with the rungs next to it: first the
/// stake itself, then the rung below it, then the rung above it.
///
/// The stake is the highest rung whose threshold the bankroll meets. A
/// neighbour is missing where the ladder ends. A bankroll that meets no
/// threshold is sent to the bottom rung with no neighbour on either side.
pub fn get_cash_stake_with_neighbors(bankroll: Cents, risk: RiskLevel) -> (picked: (
    CashStake,
    Option<CashStake>,
    Option<CashStake>,
))
    ensures
        is_selected(bankroll as nat, risk, picked.0),
        affords_any(bankroll as nat, risk) ==> picked.1 == picked.0.lower_neighbor() && picked.2
            == picked.0.upper_neighbor(),
        !affords_any(bankroll as nat, risk) ==> picked.1 is None && picked.2 is None,
{
    let mut above: usize = LADDER_LEN;
    while above > 0
        invariant
            above <= LADDER_LEN,
            forall|other: CashStake|
                other.rank() >= above ==> !#[trigger] affords(bankroll as nat, other, risk),
        decreases above,
    {
        above = above - 1;
        let stake = LADDER[above];
        if bankroll >= stake.threshold(risk) {
            assert(affords(bankroll as nat, stake, risk));
            let lower = if above > 0 {
                Some(LADDER[above - 1])
            } else {
                None
            };
            let upper = if above < LADDER_LEN - 1 {
                Some(LADDER[above + 1])
            } else {
                None
            };
            return (stake, lower, upper);
        }
    }
    (CashStake::NL2, None, None)
}

/// The ladder holds every stake once, at its rank.
pub proof fn lemma_ladder_holds_every_stake(stake: CashStake)
    ensures
        LADDER@.len() == LADDER_LEN,
        stake.rank() < LADDER_LEN,
        LADDER@[stake.rank() as int] == stake,
        forall|i: int| 0 <= i < LADDER_LEN && #[trigger] LADDER@[i] == stake ==> i == stake.rank(),
{
}

/// The ladder rises: one stake stands above another exactly when its buy-in
/// is the larger.
pub proof fn lemma_ladder_ascending(a: CashStake, b: CashStake)
    ensures
        a.rank() < b.rank() <==> a.spec_buyin_amount() < b.spec_buyin_amount(),
        a.rank() == b.rank() <==> a == b,
{
}

/// The bolder the player, the fewer buy-ins are asked for.
pub proof fn lemma_min_buyins_decreasing(careful: RiskLevel, bold: RiskLevel)
    requires
        careful.rank() < bold.rank(),
    ensures
        spec_min_buyins(careful) > spec_min_buyins(bold),
{
}

/// At any level of risk the thresholds rise with the ladder.
pub proof fn lemma_thresholds_ascending(a: CashStake, b: CashStake, risk: RiskLevel)
    ensures
        a.rank() < b.rank() <==> a.spec_threshold(risk) < b.spec_threshold(risk),
        a.rank() <= b.rank() <==> a.spec_threshold(risk) <= b.spec_threshold(risk),
{
    let count = spec_min_buyins(risk) as int;
    let x = a.spec_buyin_amount() as int;
    let y = b.spec_buyin_amount() as int;
    lemma_ladder_ascending(a, b);
    lemma_ladder_ascending(b, a);
    assert(x < y ==> x * count < y * count) by (nonlinear_arith)
        requires
            count > 0,
    ;
    assert(y < x ==> y * count < x * count) by (nonlinear_arith)
        requires
            count > 0,
    ;
}

/// A bankroll affords some stake exactly when it affords the bottom rung.
pub proof fn lemma_affords_any_from_bottom(bankroll: nat, risk: RiskLevel)
    ensures
        affords_any(bankroll, risk) <==> affords(bankroll, CashStake::NL2, risk),
{
    if affords_any(bankroll, risk) {
        let stake = choose|stake: CashStake| #[trigger] affords(bankroll, stake, risk);
        lemma_thresholds_ascending(CashStake::NL2, stake, risk);
    }
}

/// The highest of the rungs below `above` that the bankroll affords, if it
/// affords any of them.
proof fn lemma_highest_affordable_below(bankroll: nat, risk: RiskLevel, above: nat) -> (found:
    Option<CashStake>)
    requires
        above <= LADDER_LEN,
    ensures
        found matches Some(stake) ==> stake.rank() < above && affords(bankroll, stake, risk),
        forall|other: CashStake| #[trigger]
            affords(bankroll, other, risk) && other.rank() < above ==> (found matches Some(stake)
                && other.rank() <= stake.rank()),
    decreases above,
{
    if above == 0 {
        None
    } else {
        let top = LADDER@[above - 1];
        if affords(bankroll, top, risk) {
            Some(top)
        } else {
            lemma_highest_affordable_below(bankroll, risk, (above - 1) as nat)
        }
    }
}

/// Every bankroll selects a stake at every level of risk.
pub proof fn lemma_selection_exists(bankroll: nat, risk: RiskLevel)
    ensures
        exists|stake: CashStake| is_selected(bankroll, risk, stake),
{
    match lemma_highest_affordable_below(bankroll, risk, LADDER_LEN as nat) {
        Some(stake) => {
            assert(is_selected(bankroll, risk, stake));
        },
        None => {
            assert(is_selected(bankroll, risk, CashStake::NL2));
        },
    }
}

/// A bankroll and a level of risk select one stake and no other.
pub proof fn lemma_selection_unique(bankroll: nat, risk: RiskLevel, a: CashStake, b: CashStake)
    requires
        is_selected(bankroll, risk, a),
        is_selected(bankroll, risk, b),
    ensures
        a == b,
{
    lemma_ladder_ascending(a, b);
}

/// A larger bankroll never selects a lower stake.
pub proof fn lemma_selection_monotonic(
    smaller: nat,
    larger: nat,
    risk: RiskLevel,
    of_smaller: CashStake,
    of_larger: CashStake,
)
    requires
        smaller <= larger,
        is_selected(smaller, risk, of_smaller),
        is_selected(larger, risk, of_larger),
    ensures
        of_smaller.rank() <= of_larger.rank(),
{
    if affords_any(smaller, risk) {
        assert(affords(larger, of_smaller, risk));
    }
}

/// A bankroll that equals a stake's threshold selects that stake.
pub proof fn lemma_threshold_selects_its_stake(stake: CashStake, risk: RiskLevel)
    ensures
        is_selected(stake.spec_threshold(risk), risk, stake),
{
    let bankroll = stake.spec_threshold(risk);
    assert(affords(bankroll, stake, risk));
    assert forall|other: CashStake| #[trigger]
        affords(bankroll, other, risk) implies other.rank() <= stake.rank() by {
        lemma_thresholds_ascending(other, stake, risk);
    }
}

/// Neighbours are adjacent. The lower neighbour of a stake is the rung with
/// the next smaller buy-in, the upper neighbour the rung with the next larger
/// one; the bottom rung alone has no lower neighbour, and the top rung alone
/// no upper one.
pub proof fn lemma_neighbors_adjacent(stake: CashStake)
    ensures
        stake.lower_neighbor() is None <==> stake == CashStake::NL2,
        stake.upper_neighbor() is None <==> stake == CashStake::NL10000,
        stake.lower_neighbor() matches Some(lower) ==> {
            &&& lower.rank() + 1 == stake.rank()
            &&& lower.spec_buyin_amount() < stake.spec_buyin_amount()
            &&& forall|other: CashStake|
                other.spec_buyin_amount() < stake.spec_buyin_amount()
                    ==> #[trigger] other.spec_buyin_amount() <= lower.spec_buyin_amount()
        },
        stake.upper_neighbor() matches Some(upper) ==> {
            &&& upper.rank() == stake.rank() + 1
            &&& upper.spec_buyin_amount() > stake.spec_buyin_amount()
            &&& forall|other: CashStake|
                other.spec_buyin_amount() > stake.spec_buyin_amount()
                    ==> #[trigger] other.spec_buyin_amount() >= upper.spec_buyin_amount()
        },
{
}

} // verus!
