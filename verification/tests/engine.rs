use strategy::Bar;
use strategy::MarketEvent;
use strategy::RAS1Config;
use strategy::RAS1Strategy;
use strategy::RAS1Thresholds;
use strategy::Signal;
use strategy::SignalType;
use strategy::Strategy;
use strategy::Trade;
use strategy::TradingMode;

fn bar(open: u64, high: u64, low: u64, close: u64, is_base_bar: bool) -> Bar {
    Bar {
        timestamp: String::new(),
        open,
        high,
        low,
        close,
        volume: 100_000,
        is_base_bar,
    }
}

fn trade(price: u64) -> Trade {
    Trade {
        timestamp: String::new(),
        price,
        size: 1,
    }
}

fn no_thresholds() -> RAS1Thresholds {
    RAS1Thresholds {
        base_bar_pct: None,
        base_bar_end_pct: None,
        non_base_bar_end_pct: None,
        non_base_bar_min_pct: None,
        non_base_bar_max_pct: None,
    }
}

fn engine(dollar_amount: u32, base_bar_opp: bool, thresholds: RAS1Thresholds) -> RAS1Strategy {
    RAS1Strategy::new(RAS1Config::new(
        String::from("IBM"),
        TradingMode::Daily(1),
        dollar_amount,
        base_bar_opp,
        thresholds,
    ))
}

fn feed(strategy: &mut RAS1Strategy, events: Vec<MarketEvent>) -> Vec<Signal> {
    let mut signals = vec![];
    for event in events {
        if let Some(s) = strategy.on_event(&event) {
            signals.push(s);
        }
    }
    signals
}

#[test]
fn ras1_first_trade() {
    let mut strategy = engine(1000, false, no_thresholds());

    if let TradingMode::Daily(days) = strategy.config().trading_mode {
        println!("days: {}", days);
    }

    let events = vec![
        MarketEvent::Bar(bar(110, 120, 100, 105, false)),
        MarketEvent::Bar(bar(110, 130, 110, 115, true)),
        MarketEvent::Trade(trade(120)),
        MarketEvent::Bar(bar(120, 130, 100, 124, false)),
    ];

    let signals = feed(&mut strategy, events);

    assert_eq!(signals.len(), 1);

    println!("{:?}", signals);
}

#[test]
fn first_trade_buy_at_trade_price() {
    let mut strategy = engine(1000, false, no_thresholds());
    let signals = feed(
        &mut strategy,
        vec![
            MarketEvent::Bar(bar(100, 101, 99, 100, false)),
            MarketEvent::Bar(bar(105, 106, 104, 105, true)),
            MarketEvent::Trade(trade(106)),
        ],
    );
    assert_eq!(
        signals,
        vec![Signal {
            signal_type: SignalType::Buy,
            signal_trigger_price: 106,
            size: 9,
            reason: String::from("first trade"),
        }]
    );
    assert_eq!(strategy.current_position(), 9);
}

#[test]
fn first_trade_direction_flips_with_base_bar_opp() {
    let mut strategy = engine(1000, true, no_thresholds());
    let signals = feed(
        &mut strategy,
        vec![
            MarketEvent::Bar(bar(100, 101, 99, 100, false)),
            MarketEvent::Bar(bar(105, 106, 104, 105, true)),
            MarketEvent::Trade(trade(106)),
        ],
    );
    assert_eq!(signals.len(), 1);
    assert_eq!(signals[0].signal_type, SignalType::Sell);
    assert_eq!(signals[0].signal_trigger_price, 106);
    assert_eq!(signals[0].size, 9);
    assert_eq!(strategy.current_position(), -9);
}

#[test]
fn no_reversal_with_base_thresholds_unset() {
    let mut strategy = engine(1000, false, no_thresholds());
    let signals = feed(
        &mut strategy,
        vec![
            MarketEvent::Bar(bar(100, 101, 99, 100, false)),
            MarketEvent::Bar(bar(105, 106, 104, 105, true)),
            MarketEvent::Trade(trade(105)),
            // however extreme the following bars, no reversal can fire
            MarketEvent::Bar(bar(50, 60, 1, 2, false)),
            MarketEvent::Bar(bar(2, 1000, 1, 999, false)),
            MarketEvent::Bar(bar(999, 1000, 1, 2, false)),
        ],
    );
    assert_eq!(signals.len(), 1);
    assert_eq!(signals[0].reason, "first trade");
}

#[test]
fn reverse_on_initial_bar_long() {
    let th = RAS1Thresholds {
        base_bar_pct: Some(100),
        base_bar_end_pct: Some(200),
        ..no_thresholds()
    };
    let mut strategy = engine(1000, false, th);
    let signals = feed(
        &mut strategy,
        vec![
            MarketEvent::Bar(bar(100, 101, 99, 100, false)),
            MarketEvent::Bar(bar(105, 106, 104, 105, true)),
            MarketEvent::Trade(trade(105)),
            // targets: 105 - 1 = 104 and 104 - 2 = 102; min 102 >= low 100
            MarketEvent::Bar(bar(101, 103, 100, 101, false)),
        ],
    );
    assert_eq!(signals.len(), 2);
    assert_eq!(
        signals[1],
        Signal {
            signal_type: SignalType::Sell,
            signal_trigger_price: 102,
            size: 18,
            reason: String::from("reverse on initial bar"),
        }
    );
    assert_eq!(strategy.current_position(), 9 - 18);
}

#[test]
fn reverse_on_initial_bar_short() {
    let th = RAS1Thresholds {
        base_bar_pct: Some(100),
        base_bar_end_pct: Some(200),
        ..no_thresholds()
    };
    let mut strategy = engine(1000, false, th);
    let signals = feed(
        &mut strategy,
        vec![
            MarketEvent::Bar(bar(100, 101, 99, 100, false)),
            MarketEvent::Bar(bar(95, 96, 94, 95, true)),
            MarketEvent::Trade(trade(95)),
            // targets: 95 + 0 = 95 and 96 + 1 = 97; max 97 <= high 98
            MarketEvent::Bar(bar(96, 98, 95, 96, false)),
        ],
    );
    assert_eq!(signals.len(), 2);
    assert_eq!(signals[0].signal_type, SignalType::Sell);
    assert_eq!(signals[0].size, 10);
    assert_eq!(
        signals[1],
        Signal {
            signal_type: SignalType::Buy,
            signal_trigger_price: 97,
            size: 20,
            reason: String::from("reverse on initial bar"),
        }
    );
    assert_eq!(strategy.current_position(), -10 + 20);
}

#[test]
fn reverse_after_initial_bar_stage_a() {
    let th = RAS1Thresholds {
        base_bar_pct: Some(100),
        base_bar_end_pct: Some(200),
        non_base_bar_end_pct: Some(100),
        non_base_bar_min_pct: Some(100),
        non_base_bar_max_pct: None,
    };
    let mut strategy = engine(1000, false, th);
    let signals = feed(
        &mut strategy,
        vec![
            MarketEvent::Bar(bar(100, 101, 99, 100, false)),
            MarketEvent::Bar(bar(105, 106, 104, 105, true)),
            MarketEvent::Trade(trade(105)),
            // activation bar: min target 102 < low 104, no fire
            MarketEvent::Bar(bar(105, 106, 104, 105, false)),
            // stage A targets: 104, 102, 104 - 1 = 103, 105 - 1 = 104; min 102 >= low 100
            MarketEvent::Bar(bar(103, 104, 100, 101, false)),
        ],
    );
    assert_eq!(signals.len(), 2);
    assert_eq!(
        signals[1],
        Signal {
            signal_type: SignalType::Sell,
            signal_trigger_price: 102,
            size: 18,
            reason: String::from("reverse after initial bar: stage A"),
        }
    );
}

#[test]
fn reverse_after_initial_bar_stage_b() {
    let th = RAS1Thresholds {
        base_bar_pct: None,
        base_bar_end_pct: None,
        non_base_bar_end_pct: Some(100),
        non_base_bar_min_pct: None,
        non_base_bar_max_pct: Some(200),
    };
    let mut strategy = engine(1000, false, th);
    let signals = feed(
        &mut strategy,
        vec![
            MarketEvent::Bar(bar(100, 101, 99, 100, false)),
            MarketEvent::Bar(bar(105, 106, 104, 105, true)),
            MarketEvent::Trade(trade(105)),
            MarketEvent::Bar(bar(105, 106, 104, 105, false)),
            // stage A lacks its thresholds; stage B reads the highest bar:
            // targets 104 - 1 = 103 and 105 - 2 = 103; min 103 >= low 100
            MarketEvent::Bar(bar(103, 104, 100, 101, false)),
        ],
    );
    assert_eq!(signals.len(), 2);
    assert_eq!(
        signals[1],
        Signal {
            signal_type: SignalType::Sell,
            signal_trigger_price: 103,
            size: 18,
            reason: String::from("reverse after initial bar: stage B"),
        }
    );
}

#[test]
fn stage_b_extremum_can_move_to_the_incoming_bar() {
    let th = RAS1Thresholds {
        base_bar_pct: None,
        base_bar_end_pct: None,
        non_base_bar_end_pct: Some(100),
        non_base_bar_min_pct: None,
        non_base_bar_max_pct: Some(200),
    };
    let mut strategy = engine(1000, false, th);
    let signals = feed(
        &mut strategy,
        vec![
            MarketEvent::Bar(bar(100, 101, 99, 100, false)),
            MarketEvent::Bar(bar(105, 106, 104, 105, true)),
            MarketEvent::Trade(trade(105)),
            MarketEvent::Bar(bar(105, 106, 104, 105, false)),
            // this bar's high 107 makes it the highest bar itself, so the
            // stage B targets drop to 100 - 1 = 99 and 101 - 2 = 99,
            // below its own low 100: no fire
            MarketEvent::Bar(bar(105, 107, 100, 101, false)),
        ],
    );
    assert_eq!(signals.len(), 1);
}

#[test]
fn reversal_window_is_one_shot() {
    let th = RAS1Thresholds {
        base_bar_pct: Some(100),
        base_bar_end_pct: Some(200),
        non_base_bar_end_pct: Some(100),
        non_base_bar_min_pct: Some(100),
        non_base_bar_max_pct: None,
    };
    let mut strategy = engine(1000, false, th);
    let signals = feed(
        &mut strategy,
        vec![
            MarketEvent::Bar(bar(100, 101, 99, 100, false)),
            MarketEvent::Bar(bar(105, 106, 104, 105, true)),
            MarketEvent::Trade(trade(105)),
            // activation bar: no fire (102 < 104)
            MarketEvent::Bar(bar(105, 106, 104, 105, false)),
            // designated check bar: no fire either (102 < 104)
            MarketEvent::Bar(bar(105, 106, 104, 105, false)),
            // this bar would have fired stage A, but the window is closed
            MarketEvent::Bar(bar(103, 104, 100, 101, false)),
            MarketEvent::Bar(bar(103, 104, 100, 101, false)),
        ],
    );
    assert_eq!(signals.len(), 1);
    assert_eq!(signals[0].reason, "first trade");
}

#[test]
fn trades_signal_only_while_awaiting_initial_trade() {
    let mut strategy = engine(1000, false, no_thresholds());
    let signals = feed(
        &mut strategy,
        vec![
            // no base bar yet: trades do nothing
            MarketEvent::Trade(trade(100)),
            MarketEvent::Bar(bar(100, 101, 99, 100, false)),
            MarketEvent::Trade(trade(101)),
            MarketEvent::Bar(bar(105, 106, 104, 105, true)),
            // first trade while awaiting it: the one first-trade signal
            MarketEvent::Trade(trade(106)),
            // still awaiting a bar, but the first trade is spent
            MarketEvent::Trade(trade(107)),
            MarketEvent::Bar(bar(106, 107, 105, 106, false)),
            // active: trades do nothing
            MarketEvent::Trade(trade(108)),
        ],
    );
    assert_eq!(signals.len(), 1);
    assert_eq!(signals[0].signal_trigger_price, 106);
}

#[test]
fn base_bar_needs_a_previous_bar_to_classify() {
    let mut strategy = engine(1000, false, no_thresholds());
    let signals = feed(
        &mut strategy,
        vec![
            // flagged as base but unclassifiable: engine keeps waiting
            MarketEvent::Bar(bar(100, 101, 99, 100, true)),
            MarketEvent::Trade(trade(100)),
            // classifiable base bar (tie inherits nothing here: close rises)
            MarketEvent::Bar(bar(105, 106, 104, 105, true)),
            MarketEvent::Trade(trade(106)),
        ],
    );
    assert_eq!(signals.len(), 1);
    assert_eq!(signals[0].signal_trigger_price, 106);
}

#[test]
fn zero_size_first_trade_opens_no_position() {
    let th = RAS1Thresholds {
        base_bar_pct: Some(100),
        base_bar_end_pct: Some(100),
        ..no_thresholds()
    };
    let mut strategy = engine(1000, false, th);
    let signals = feed(
        &mut strategy,
        vec![
            MarketEvent::Bar(bar(2000, 2001, 1999, 2000, false)),
            MarketEvent::Bar(bar(2100, 2101, 2099, 2100, true)),
            // the dollar amount buys less than one unit at this price
            MarketEvent::Trade(trade(2100)),
            // with no open position, no reversal can ever fire
            MarketEvent::Bar(bar(1, 2, 1, 1, false)),
            MarketEvent::Bar(bar(1, 2, 1, 1, false)),
        ],
    );
    assert_eq!(signals.len(), 1);
    assert_eq!(signals[0].size, 0);
    assert_eq!(strategy.current_position(), 0);
}

#[test]
fn engine_works_through_the_strategy_trait() {
    fn drive<S: Strategy>(s: &mut S, events: Vec<MarketEvent>) -> Vec<Signal> {
        let mut signals = vec![];
        for event in events {
            if let Some(sig) = s.on_event(&event) {
                signals.push(sig);
            }
        }
        signals
    }

    let mut strategy = engine(1000, false, no_thresholds());
    let signals = drive(
        &mut strategy,
        vec![
            MarketEvent::Bar(bar(100, 101, 99, 100, false)),
            MarketEvent::Bar(bar(105, 106, 104, 105, true)),
            MarketEvent::Trade(trade(106)),
        ],
    );
    assert_eq!(signals.len(), 1);
    assert_eq!(signals[0].signal_type, SignalType::Buy);
}
