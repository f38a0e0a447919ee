use strategy::RAS1Config;
use strategy::RAS1Thresholds;
use strategy::TradingMode;

#[test]
fn config_round_trips_through_its_fields() {
    let thresholds = RAS1Thresholds {
        base_bar_pct: Some(100),
        base_bar_end_pct: None,
        non_base_bar_end_pct: Some(1),
        non_base_bar_min_pct: None,
        non_base_bar_max_pct: Some(25),
    };
    let config = RAS1Config::new(
        String::from("AAPL"),
        TradingMode::Intraday {
            bar_minutes: 5,
            base_bar_start_time: String::from("09:30"),
        },
        2500,
        true,
        thresholds,
    );

    let rebuilt = RAS1Config::new(
        config.symbol.clone(),
        config.trading_mode.clone(),
        config.dollar_amount,
        config.base_bar_opp,
        config.thresholds,
    );

    assert_eq!(rebuilt, config);
    assert_eq!(rebuilt.symbol, "AAPL");
    assert_eq!(
        rebuilt.trading_mode,
        TradingMode::Intraday {
            bar_minutes: 5,
            base_bar_start_time: String::from("09:30"),
        }
    );
    assert_eq!(rebuilt.dollar_amount, 2500);
    assert!(rebuilt.base_bar_opp);
    assert_eq!(rebuilt.thresholds, thresholds);
}

#[test]
fn config_round_trips_with_daily_mode_and_unset_thresholds() {
    let thresholds = RAS1Thresholds {
        base_bar_pct: None,
        base_bar_end_pct: None,
        non_base_bar_end_pct: None,
        non_base_bar_min_pct: None,
        non_base_bar_max_pct: None,
    };
    let config = RAS1Config::new(
        String::from("IBM"),
        TradingMode::Daily(3),
        1000,
        false,
        thresholds,
    );
    let rebuilt = RAS1Config::new(
        config.symbol.clone(),
        config.trading_mode.clone(),
        config.dollar_amount,
        config.base_bar_opp,
        config.thresholds,
    );
    assert_eq!(rebuilt, config);
    assert_eq!(rebuilt.thresholds, thresholds);
}
