use strategy::Bar;
use strategy::BarType;
use strategy::classifier::classify;

fn bar_closing_at(close: u64) -> Bar {
    Bar {
        timestamp: String::new(),
        open: close,
        high: close + 1,
        low: close - 1,
        close,
        volume: 1,
        is_base_bar: false,
    }
}

#[test]
fn classify_up_on_higher_close() {
    let prev = Some(bar_closing_at(100));
    assert_eq!(classify(&bar_closing_at(105), &prev, &None), Some(BarType::UpBar));
}

#[test]
fn classify_down_on_lower_close() {
    let prev = Some(bar_closing_at(100));
    assert_eq!(classify(&bar_closing_at(95), &prev, &None), Some(BarType::DownBar));
}

#[test]
fn classify_tie_inherits_previous_classification() {
    let prev = Some(bar_closing_at(100));
    assert_eq!(
        classify(&bar_closing_at(100), &prev, &Some(BarType::UpBar)),
        Some(BarType::UpBar)
    );
    assert_eq!(
        classify(&bar_closing_at(100), &prev, &Some(BarType::DownBar)),
        Some(BarType::DownBar)
    );
}

#[test]
fn classify_tie_without_prior_classification_yields_nothing() {
    let prev = Some(bar_closing_at(100));
    assert_eq!(classify(&bar_closing_at(100), &prev, &None), None);
}

#[test]
fn classify_without_previous_bar_yields_nothing() {
    assert_eq!(classify(&bar_closing_at(100), &None, &Some(BarType::UpBar)), None);
}

#[test]
fn classify_is_repeatable_on_identical_inputs() {
    let prev = Some(bar_closing_at(100));
    let prev_type = Some(BarType::DownBar);
    let first = classify(&bar_closing_at(100), &prev, &prev_type);
    let second = classify(&bar_closing_at(100), &prev, &prev_type);
    assert_eq!(first, second);
    let third = classify(&bar_closing_at(107), &prev, &prev_type);
    let fourth = classify(&bar_closing_at(107), &prev, &prev_type);
    assert_eq!(third, fourth);
    assert_eq!(third, Some(BarType::UpBar));
}
