use stake_advisor::tournaments::{get_tournament_stake, tournament_min_buyins, BuyIn, StakeError};
use stake_advisor::types::{GameType, PlayerProfile, RiskLevel};

const RISKS: [RiskLevel; 4] = [
    RiskLevel::Conservative,
    RiskLevel::Moderate,
    RiskLevel::Aggressive,
    RiskLevel::UltraAggressive,
];

#[test]
fn sit_and_go_table() {
    assert_eq!(tournament_min_buyins(GameType::SitAndGo, RiskLevel::Conservative), Some(100));
    assert_eq!(tournament_min_buyins(GameType::SitAndGo, RiskLevel::Moderate), Some(50));
    assert_eq!(tournament_min_buyins(GameType::SitAndGo, RiskLevel::Aggressive), Some(30));
    assert_eq!(tournament_min_buyins(GameType::SitAndGo, RiskLevel::UltraAggressive), Some(20));
}

#[test]
fn tournament_table() {
    assert_eq!(tournament_min_buyins(GameType::Tournament, RiskLevel::Conservative), Some(200));
    assert_eq!(tournament_min_buyins(GameType::Tournament, RiskLevel::Moderate), Some(100));
    assert_eq!(tournament_min_buyins(GameType::Tournament, RiskLevel::Aggressive), Some(50));
    assert_eq!(tournament_min_buyins(GameType::Tournament, RiskLevel::UltraAggressive), Some(30));
}

#[test]
fn cash_games_have_no_table_entry() {
    for risk in RISKS {
        assert_eq!(tournament_min_buyins(GameType::Cash, risk), None);
    }
}

#[test]
fn tournament_min_buyins_fall_as_risk_rises() {
    for game in [GameType::SitAndGo, GameType::Tournament] {
        for i in 1..RISKS.len() {
            let careful = tournament_min_buyins(game, RISKS[i - 1]).unwrap();
            let bold = tournament_min_buyins(game, RISKS[i]).unwrap();
            assert!(careful > bold);
        }
    }
}

#[test]
fn tournaments_ask_for_more_than_sit_and_goes() {
    for risk in RISKS {
        assert!(
            tournament_min_buyins(GameType::Tournament, risk).unwrap()
                > tournament_min_buyins(GameType::SitAndGo, risk).unwrap()
        );
    }
}

#[test]
fn tournament_stake_fails_for_cash() {
    for risk in RISKS {
        for bankroll in [0, 1, 90_000, u64::MAX] {
            assert_eq!(
                get_tournament_stake(bankroll, GameType::Cash, risk),
                Err(StakeError::CashGame)
            );
        }
    }
}

#[test]
fn sit_and_go_aggressive_900() {
    assert_eq!(
        get_tournament_stake(90_000, GameType::SitAndGo, RiskLevel::Aggressive),
        Ok(BuyIn { cents: 3_000, remainder: 0, buyins: 30 })
    );
}

#[test]
fn tournament_ultra_aggressive_3000() {
    assert_eq!(
        get_tournament_stake(300_000, GameType::Tournament, RiskLevel::UltraAggressive),
        Ok(BuyIn { cents: 10_000, remainder: 0, buyins: 30 })
    );
}

#[test]
fn division_keeps_what_is_left_over() {
    assert_eq!(
        get_tournament_stake(100_000, GameType::SitAndGo, RiskLevel::Aggressive),
        Ok(BuyIn { cents: 3_333, remainder: 10, buyins: 30 })
    );
    assert_eq!(
        get_tournament_stake(199, GameType::Tournament, RiskLevel::Conservative),
        Ok(BuyIn { cents: 0, remainder: 199, buyins: 200 })
    );
    assert_eq!(
        get_tournament_stake(0, GameType::SitAndGo, RiskLevel::Moderate),
        Ok(BuyIn { cents: 0, remainder: 0, buyins: 50 })
    );
}

#[test]
fn division_is_exact_for_every_table_entry() {
    for game in [GameType::SitAndGo, GameType::Tournament] {
        for risk in RISKS {
            for bankroll in [0, 1, 19, 1_999, 90_000, 123_456_789, u64::MAX] {
                let buy_in = get_tournament_stake(bankroll, game, risk).unwrap();
                assert_eq!(Some(buy_in.buyins), tournament_min_buyins(game, risk));
                assert!(buy_in.remainder < buy_in.buyins);
                assert_eq!(buy_in.cents, bankroll / buy_in.buyins);
                assert_eq!(buy_in.buyins * buy_in.cents + buy_in.remainder, bankroll);
            }
        }
    }
}

#[test]
fn largest_bankroll_is_divided_without_overflow() {
    assert_eq!(
        get_tournament_stake(u64::MAX, GameType::SitAndGo, RiskLevel::UltraAggressive),
        Ok(BuyIn { cents: 922_337_203_685_477_580, remainder: 15, buyins: 20 })
    );
}

#[test]
fn profile_carries_the_three_inputs() {
    let profile = PlayerProfile {
        bankroll: 300_000,
        game_type: GameType::Tournament,
        risk_level: RiskLevel::UltraAggressive,
    };
    assert_eq!(
        get_tournament_stake(profile.bankroll, profile.game_type, profile.risk_level),
        Ok(BuyIn { cents: 10_000, remainder: 0, buyins: 30 })
    );
    let copy = profile;
    assert_eq!(copy, profile);
}
