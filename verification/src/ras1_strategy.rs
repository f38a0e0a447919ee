use vstd::prelude::*;

use crate::classifier::BarType;
use crate::classifier::classify;
use crate::classifier::spec_classify;
use crate::config::ConfigView;
use crate::config::RAS1Config;
use crate::events::Bar;
use crate::events::BarView;
use crate::events::MarketEvent;
use crate::events::MarketEventView;
use crate::events::Trade;
use crate::events::TradeView;
use crate::events::opt_bar_view;
use crate::events::opt_bar_wf;
use crate::strategy::Signal;
use crate::strategy::SignalType;
use crate::strategy::SignalView;
use crate::strategy::Strategy;
use crate::strategy::first_trade_reason;
use crate::strategy::opt_signal_view;
use crate::strategy::reverse_on_initial_reason;
use crate::strategy::reverse_stage_a_reason;
use crate::strategy::reverse_stage_b_reason;
use crate::targets::lemma_div_le;
use crate::targets::lemma_reverse_on_initial_fired;
use crate::targets::lemma_stage_a_fired;
use crate::targets::lemma_stage_b_fired;
use crate::targets::reverse_on_initial_check;
use crate::targets::reverse_on_initial_trigger;
use crate::targets::stage_a_check;
use crate::targets::stage_a_trigger;
use crate::targets::stage_b_check;
use crate::targets::stage_b_trigger;

verus! {

/// The adopted base bar together with its classification.
struct BaseBarState {
    bar: Bar,
    bar_type: BarType,
}

/// Where the engine stands: waiting for a classifiable base bar, waiting for
/// the first trade after adopting one, or active. Transitions only ever move
/// forward through these states.
enum StrategyState {
    WaitingForBase,
    WaitingForInitial { base_bar_state: BaseBarState },
    Active { base_bar_state: BaseBarState },
}

/// Mathematical value of the engine's state-machine variant.
#[verifier::ext_equal]
pub ghost enum StateView {
    WaitingForBase,
    WaitingForInitial { base_bar: BarView, base_bar_type: BarType },
    Active { base_bar: BarView, base_bar_type: BarType },
}

spec fn state_view(s: StrategyState) -> StateView {
    match s {
        StrategyState::WaitingForBase => StateView::WaitingForBase,
        StrategyState::WaitingForInitial { base_bar_state } => StateView::WaitingForInitial {
            base_bar: base_bar_state.bar@,
            base_bar_type: base_bar_state.bar_type,
        },
        StrategyState::Active { base_bar_state } => StateView::Active {
            base_bar: base_bar_state.bar@,
            base_bar_type: base_bar_state.bar_type,
        },
    }
}

/// Mathematical value of the whole engine.
#[verifier::ext_equal]
pub ghost struct EngineView {
    pub config: ConfigView,
    pub state: StateView,
    pub prev_bar: Option<BarView>,
    pub prev_bar_type: Option<BarType>,
    pub current_position: int,
    pub signals_emitted: int,
    pub first_trade_emitted: bool,
    pub reversal_checked: bool,
    pub highest_close_bar: Option<BarView>,
    pub lowest_close_bar: Option<BarView>,
}

pub open spec fn abs_int(x: int) -> int {
    if x >= 0 {
        x
    } else {
        -x
    }
}

impl EngineView {
    /// The engine's internal invariant: the signal count, the one-shot
    /// flags and the position agree with one another, every stored bar is
    /// well formed, and the position stays far inside the machine bounds
    /// (a lifetime holds at most two signals, each sized from a dollar
    /// amount that fits in 32 bits).
    pub open spec fn wf(self) -> bool {
        &&& self.config.wf()
        &&& 0 <= self.signals_emitted <= 2
        &&& (self.first_trade_emitted <==> self.signals_emitted >= 1)
        &&& (self.signals_emitted == 0 ==> self.current_position == 0)
        &&& (self.signals_emitted == 1 ==> abs_int(self.current_position) <= u32::MAX)
        &&& abs_int(self.current_position) <= 3 * (u32::MAX as int)
        &&& opt_bar_wf(self.prev_bar)
        &&& opt_bar_wf(self.highest_close_bar)
        &&& opt_bar_wf(self.lowest_close_bar)
        &&& match self.state {
            StateView::WaitingForBase => self.signals_emitted == 0 && !self.reversal_checked,
            StateView::WaitingForInitial { base_bar, .. } => {
                &&& base_bar.wf()
                &&& self.signals_emitted <= 1
                &&& !self.reversal_checked
            },
            StateView::Active { base_bar, .. } => base_bar.wf(),
        }
    }
}

/// The engine as it is first constructed: everything at rest.
pub open spec fn init_view(config: ConfigView) -> EngineView {
    EngineView {
        config,
        state: StateView::WaitingForBase,
        prev_bar: None,
        prev_bar_type: None,
        current_position: 0,
        signals_emitted: 0,
        first_trade_emitted: false,
        reversal_checked: false,
        highest_close_bar: None,
        lowest_close_bar: None,
    }
}

/// The one first-trade signal: sized by the configured dollar amount at the
/// trade's price, in the base bar's direction, inverted when `base_bar_opp`
/// is set.
pub open spec fn first_trade_signal_view(
    config: ConfigView,
    base_bar_type: BarType,
    price: int,
) -> SignalView {
    SignalView {
        signal_type: if (base_bar_type == BarType::UpBar) != config.base_bar_opp {
            SignalType::Buy
        } else {
            SignalType::Sell
        },
        trigger_price: price,
        size: config.dollar_amount / price,
        reason: first_trade_reason(),
    }
}

/// A reversal signal: it closes the open position and opens an equal-dollar
/// position the other way, so its size is the dollar amount at the trigger
/// price plus the position's magnitude, and its direction opposes the
/// position's sign.
pub open spec fn reversal_signal_view(
    position: int,
    dollar_amount: int,
    trigger: int,
    reason: Seq<char>,
) -> SignalView {
    SignalView {
        signal_type: if position > 0 {
            SignalType::Sell
        } else {
            SignalType::Buy
        },
        trigger_price: trigger,
        size: dollar_amount / trigger + abs_int(position),
        reason,
    }
}

/// Bookkeeping done for every emitted signal: the position moves by the
/// signal's size in the signal's direction, and the count goes up by one.
pub open spec fn apply_signal_view(v: EngineView, s: SignalView) -> EngineView {
    EngineView {
        current_position: if s.signal_type == SignalType::Buy {
            v.current_position + s.size
        } else {
            v.current_position - s.size
        },
        signals_emitted: v.signals_emitted + 1,
        ..v
    }
}

/// Extrema bookkeeping: a stored extremum bar is replaced when the new bar
/// improves on it — a higher high for the highest tracker, a lower low for
/// the lowest. Nothing is seeded here; seeding happens on the transition to
/// the active state.
pub open spec fn update_extrema_view(v: EngineView, b: BarView) -> EngineView {
    EngineView {
        highest_close_bar: match v.highest_close_bar {
            Some(h) => if b.high > h.high {
                Some(b)
            } else {
                Some(h)
            },
            None => None,
        },
        lowest_close_bar: match v.lowest_close_bar {
            Some(l) => if b.low < l.low {
                Some(b)
            } else {
                Some(l)
            },
            None => None,
        },
        ..v
    }
}

/// One step of the engine on a trade event. A trade emits the one
/// first-trade signal when the engine is waiting for it; otherwise trades
/// change nothing. Only bar events drive state transitions.
pub open spec fn step_trade(v: EngineView, t: TradeView) -> (EngineView, Option<SignalView>) {
    match v.state {
        StateView::WaitingForInitial { base_bar, base_bar_type } => {
            if !v.first_trade_emitted {
                let s = first_trade_signal_view(v.config, base_bar_type, t.price);
                (
                    apply_signal_view(EngineView { first_trade_emitted: true, ..v }, s),
                    Some(s),
                )
            } else {
                (v, None)
            }
        },
        _ => (v, None),
    }
}

/// The state-machine part of a bar step, before the bar is recorded as the
/// new previous bar.
pub open spec fn step_bar_state(v: EngineView, b: BarView) -> (EngineView, Option<SignalView>) {
    match v.state {
        StateView::WaitingForBase => {
            if b.is_base_bar {
                match spec_classify(b, v.prev_bar, v.prev_bar_type) {
                    Some(bt) => (
                        EngineView {
                            state: StateView::WaitingForInitial { base_bar: b, base_bar_type: bt },
                            ..v
                        },
                        None,
                    ),
                    None => (v, None),
                }
            } else {
                (v, None)
            }
        },
        StateView::WaitingForInitial { base_bar, base_bar_type } => {
            let v1 = EngineView {
                state: StateView::Active { base_bar, base_bar_type },
                highest_close_bar: Some(b),
                lowest_close_bar: Some(b),
                ..v
            };
            match reverse_on_initial_trigger(v.config.thresholds, base_bar, v.current_position, b) {
                Some(tr) => {
                    let s = reversal_signal_view(
                        v.current_position,
                        v.config.dollar_amount,
                        tr,
                        reverse_on_initial_reason(),
                    );
                    (apply_signal_view(v1, s), Some(s))
                },
                None => (v1, None),
            }
        },
        StateView::Active { base_bar, base_bar_type } => {
            let v_ext = update_extrema_view(v, b);
            let evaluate = v.signals_emitted == 1 && !v.reversal_checked;
            let sig = if evaluate {
                match stage_a_trigger(v.config.thresholds, base_bar, v.prev_bar, v.current_position, b) {
                    Some(tr) => Some(
                        reversal_signal_view(
                            v.current_position,
                            v.config.dollar_amount,
                            tr,
                            reverse_stage_a_reason(),
                        ),
                    ),
                    None => match stage_b_trigger(
                        v.config.thresholds,
                        v_ext.highest_close_bar,
                        v_ext.lowest_close_bar,
                        v.current_position,
                        b,
                    ) {
                        Some(tr) => Some(
                            reversal_signal_view(
                                v.current_position,
                                v.config.dollar_amount,
                                tr,
                                reverse_stage_b_reason(),
                            ),
                        ),
                        None => None,
                    },
                }
            } else {
                None
            };
            let v1 = EngineView { reversal_checked: v.reversal_checked || evaluate, ..v_ext };
            match sig {
                Some(s) => (apply_signal_view(v1, s), Some(s)),
                None => (v1, None),
            }
        },
    }
}

/// One step of the engine on a bar event: the state machine acts on the
/// bar, then the bar and its classification are recorded as the new
/// previous bar, whether or not a signal was emitted.
pub open spec fn step_bar(v: EngineView, b: BarView) -> (EngineView, Option<SignalView>) {
    let r = step_bar_state(v, b);
    (
        EngineView {
            prev_bar: Some(b),
            prev_bar_type: spec_classify(b, v.prev_bar, v.prev_bar_type),
            ..r.0
        },
        r.1,
    )
}

/// One step of the engine on any event.
pub open spec fn step(v: EngineView, ev: MarketEventView) -> (EngineView, Option<SignalView>) {
    match ev {
        MarketEventView::Trade(t) => step_trade(v, t),
        MarketEventView::Bar(b) => step_bar(v, b),
    }
}

/// A step on a well-formed engine and a well-formed event keeps the engine
/// well formed.
pub proof fn lemma_step_preserves_wf(v: EngineView, ev: MarketEventView)
    requires
        v.wf(),
        ev.wf(),
    ensures
        step(v, ev).0.wf(),
{
    match ev {
        MarketEventView::Trade(t) => {
            if v.state matches StateView::WaitingForInitial { base_bar, base_bar_type }
                && !v.first_trade_emitted {
                lemma_div_le(v.config.dollar_amount, t.price);
            }
        },
        MarketEventView::Bar(b) => {
            match v.state {
                StateView::WaitingForBase => {},
                StateView::WaitingForInitial { base_bar, base_bar_type } => {
                    match reverse_on_initial_trigger(
                        v.config.thresholds,
                        base_bar,
                        v.current_position,
                        b,
                    ) {
                        Some(tr) => {
                            lemma_reverse_on_initial_fired(
                                v.config.thresholds,
                                base_bar,
                                v.current_position,
                                b,
                                tr,
                            );
                            lemma_div_le(v.config.dollar_amount, tr);
                        },
                        None => {},
                    }
                },
                StateView::Active { base_bar, base_bar_type } => {
                    if v.signals_emitted == 1 && !v.reversal_checked {
                        match stage_a_trigger(
                            v.config.thresholds,
                            base_bar,
                            v.prev_bar,
                            v.current_position,
                            b,
                        ) {
                            Some(tr) => {
                                lemma_stage_a_fired(
                                    v.config.thresholds,
                                    base_bar,
                                    v.prev_bar,
                                    v.current_position,
                                    b,
                                    tr,
                                );
                                lemma_div_le(v.config.dollar_amount, tr);
                            },
                            None => {
                                match stage_b_trigger(
                                    v.config.thresholds,
                                    update_extrema_view(v, b).highest_close_bar,
                                    update_extrema_view(v, b).lowest_close_bar,
                                    v.current_position,
                                    b,
                                ) {
                                    Some(tr) => {
                                        lemma_stage_b_fired(
                                            v.config.thresholds,
                                            update_extrema_view(v, b).highest_close_bar,
                                            update_extrema_view(v, b).lowest_close_bar,
                                            v.current_position,
                                            b,
                                            tr,
                                        );
                                        lemma_div_le(v.config.dollar_amount, tr);
                                    },
                                    None => {},
                                }
                            },
                        }
                    }
                },
            }
        },
    }
}

/// The base-bar reversal engine for one symbol: it consumes an ordered
/// event stream through `on_event` and emits at most one instruction per
/// event. Its whole behaviour is the step function `step` on its view.
pub struct RAS1Strategy {
    config: RAS1Config,
    state: StrategyState,
    prev_bar: Option<Bar>,
    prev_bar_type: Option<BarType>,
    current_position: i64,
    signals_emitted: u32,
    first_trade_emitted: bool,
    reversal_checked: bool,
    highest_close_bar: Option<Bar>,
    lowest_close_bar: Option<Bar>,
}

impl View for RAS1Strategy {
    type V = EngineView;

    closed spec fn view(&self) -> EngineView {
        EngineView {
            config: self.config@,
            state: state_view(self.state),
            prev_bar: opt_bar_view(self.prev_bar),
            prev_bar_type: self.prev_bar_type,
            current_position: self.current_position as int,
            signals_emitted: self.signals_emitted as int,
            first_trade_emitted: self.first_trade_emitted,
            reversal_checked: self.reversal_checked,
            highest_close_bar: opt_bar_view(self.highest_close_bar),
            lowest_close_bar: opt_bar_view(self.lowest_close_bar),
        }
    }
}

impl RAS1Strategy {
    /// One engine instance is created per symbol per session with a fixed
    /// configuration, at rest and holding no position.
    pub fn new(config: RAS1Config) -> (s: Self)
        ensures
            s@ == init_view(config@),
            s@.wf(),
    {
        RAS1Strategy {
            config,
            state: StrategyState::WaitingForBase,
            prev_bar: None,
            prev_bar_type: None,
            current_position: 0,
            signals_emitted: 0,
            first_trade_emitted: false,
            reversal_checked: false,
            highest_close_bar: None,
            lowest_close_bar: None,
        }
    }

    /// Read access to the configuration; there is no way to change it.
    pub fn config(&self) -> (c: &RAS1Config)
        ensures
            c@ == self@.config,
    {
        &self.config
    }

    /// The signed net position: positive when long, negative when short.
    pub fn current_position(&self) -> (p: i64)
        ensures
            p as int == self@.current_position,
    {
        self.current_position
    }

    /// The engine's single entry point. The new engine value and the
    /// emitted signal, if any, are exactly what the step function `step`
    /// says for the old engine value and this event.
    pub fn on_event(&mut self, event: &MarketEvent) -> (r: Option<Signal>)
        requires
            old(self)@.wf(),
            event@.wf(),
        ensures
            final(self)@ == step(old(self)@, event@).0,
            opt_signal_view(r) == step(old(self)@, event@).1,
            final(self)@.wf(),
    {
        proof {
            lemma_step_preserves_wf(old(self)@, event@);
        }
        match event {
            MarketEvent::Trade(t) => self.on_trade(t),
            MarketEvent::Bar(b) => self.on_bar(b),
        }
    }

    fn on_trade(&mut self, t: &Trade) -> (r: Option<Signal>)
        requires
            old(self)@.wf(),
            t@.wf(),
        ensures
            final(self)@ == step_trade(old(self)@, t@).0,
            opt_signal_view(r) == step_trade(old(self)@, t@).1,
    {
        let bt_opt: Option<BarType> = match &self.state {
            StrategyState::WaitingForInitial { base_bar_state } => Some(base_bar_state.bar_type),
            _ => None,
        };
        if let Some(bt) = bt_opt {
            if !self.first_trade_emitted {
                proof {
                    lemma_div_le(old(self)@.config.dollar_amount, t@.price);
                }
                let s = first_trade_signal(&self.config, bt, t.price);
                self.first_trade_emitted = true;
                self.apply_signal(&s);
                return Some(s);
            }
        }
        None
    }

    fn on_bar(&mut self, bar: &Bar) -> (r: Option<Signal>)
        requires
            old(self)@.wf(),
            bar@.wf(),
        ensures
            final(self)@ == step_bar(old(self)@, bar@).0,
            opt_signal_view(r) == step_bar(old(self)@, bar@).1,
    {
        let cls = classify(bar, &self.prev_bar, &self.prev_bar_type);
        let cur = self.state_snapshot();
        let sig: Option<Signal> = match cur {
            StrategyState::WaitingForBase => {
                if bar.is_base_bar {
                    if let Some(bt) = cls {
                        self.state = StrategyState::WaitingForInitial {
                            base_bar_state: BaseBarState { bar: bar.clone(), bar_type: bt },
                        };
                    }
                }
                None
            },
            StrategyState::WaitingForInitial { base_bar_state } => {
                let trig = reverse_on_initial_check(
                    &self.config.thresholds,
                    &base_bar_state.bar,
                    self.current_position,
                    bar,
                );
                self.state = StrategyState::Active { base_bar_state };
                self.highest_close_bar = Some(bar.clone());
                self.lowest_close_bar = Some(bar.clone());
                match trig {
                    Some(tr) => {
                        proof {
                            lemma_reverse_on_initial_fired(
                                old(self)@.config.thresholds,
                                old(self)@.state->WaitingForInitial_base_bar,
                                old(self)@.current_position,
                                bar@,
                                tr as int,
                            );
                            lemma_div_le(old(self)@.config.dollar_amount, tr as int);
                        }
                        let s = reversal_signal(
                            self.current_position,
                            self.config.dollar_amount,
                            tr,
                            "reverse on initial bar",
                        );
                        self.apply_signal(&s);
                        Some(s)
                    },
                    None => None,
                }
            },
            StrategyState::Active { base_bar_state } => {
                self.update_extrema(bar);
                let mut found: Option<Signal> = None;
                if self.signals_emitted == 1 && !self.reversal_checked {
                    self.reversal_checked = true;
                    let ta = stage_a_check(
                        &self.config.thresholds,
                        &base_bar_state.bar,
                        &self.prev_bar,
                        self.current_position,
                        bar,
                    );
                    match ta {
                        Some(tr) => {
                            proof {
                                lemma_stage_a_fired(
                                    old(self)@.config.thresholds,
                                    old(self)@.state->Active_base_bar,
                                    old(self)@.prev_bar,
                                    old(self)@.current_position,
                                    bar@,
                                    tr as int,
                                );
                                lemma_div_le(old(self)@.config.dollar_amount, tr as int);
                            }
                            found = Some(
                                reversal_signal(
                                    self.current_position,
                                    self.config.dollar_amount,
                                    tr,
                                    "reverse after initial bar: stage A",
                                ),
                            );
                        },
                        None => {
                            let tb = stage_b_check(
                                &self.config.thresholds,
                                &self.highest_close_bar,
                                &self.lowest_close_bar,
                                self.current_position,
                                bar,
                            );
                            if let Some(tr) = tb {
                                proof {
                                    lemma_stage_b_fired(
                                        old(self)@.config.thresholds,
                                        update_extrema_view(old(self)@, bar@).highest_close_bar,
                                        update_extrema_view(old(self)@, bar@).lowest_close_bar,
                                        old(self)@.current_position,
                                        bar@,
                                        tr as int,
                                    );
                                    lemma_div_le(old(self)@.config.dollar_amount, tr as int);
                                }
                                found = Some(
                                    reversal_signal(
                                        self.current_position,
                                        self.config.dollar_amount,
                                        tr,
                                        "reverse after initial bar: stage B",
                                    ),
                                );
                            }
                        },
                    }
                }
                match found {
                    Some(s) => {
                        self.apply_signal(&s);
                        Some(s)
                    },
                    None => None,
                }
            },
        };
        self.prev_bar = Some(bar.clone());
        self.prev_bar_type = cls;
        sig
    }

    /// Clones the current state-machine variant so the caller can match on
    /// it while mutating the engine.
    fn state_snapshot(&self) -> (s: StrategyState)
        ensures
            state_view(s) == state_view(self.state),
    {
        match &self.state {
            StrategyState::WaitingForBase => StrategyState::WaitingForBase,
            StrategyState::WaitingForInitial { base_bar_state } => {
                StrategyState::WaitingForInitial {
                    base_bar_state: BaseBarState {
                        bar: base_bar_state.bar.clone(),
                        bar_type: base_bar_state.bar_type,
                    },
                }
            },
            StrategyState::Active { base_bar_state } => {
                StrategyState::Active {
                    base_bar_state: BaseBarState {
                        bar: base_bar_state.bar.clone(),
                        bar_type: base_bar_state.bar_type,
                    },
                }
            },
        }
    }

    fn apply_signal(&mut self, s: &Signal)
        requires
            s@.size <= 2 * (u32::MAX as int),
            abs_int(old(self)@.current_position) <= 3 * (u32::MAX as int),
            old(self)@.signals_emitted < u32::MAX,
        ensures
            final(self)@ == apply_signal_view(old(self)@, s@),
    {
        match s.signal_type {
            SignalType::Buy => {
                self.current_position = self.current_position + (s.size as i64);
            },
            SignalType::Sell => {
                self.current_position = self.current_position - (s.size as i64);
            },
        }
        self.signals_emitted = self.signals_emitted + 1;
    }

    fn update_extrema(&mut self, bar: &Bar)
        ensures
            final(self)@ == update_extrema_view(old(self)@, bar@),
    {
        let replace_highest = match &self.highest_close_bar {
            Some(h) => bar.high > h.high,
            None => false,
        };
        if replace_highest {
            self.highest_close_bar = Some(bar.clone());
        }
        let replace_lowest = match &self.lowest_close_bar {
            Some(l) => bar.low < l.low,
            None => false,
        };
        if replace_lowest {
            self.lowest_close_bar = Some(bar.clone());
        }
    }
}

/// Sizes and directs the one first-trade signal from the configuration, the
/// base bar's classification and the trade's price.
fn first_trade_signal(config: &RAS1Config, base_bar_type: BarType, price: u64) -> (s: Signal)
    requires
        price >= 1,
    ensures
        s@ == first_trade_signal_view(config@, base_bar_type, price as int),
{
    let up = match base_bar_type {
        BarType::UpBar => true,
        BarType::DownBar => false,
    };
    let buy = up != config.base_bar_opp;
    Signal {
        signal_type: if buy {
            SignalType::Buy
        } else {
            SignalType::Sell
        },
        signal_trigger_price: price,
        size: (config.dollar_amount as u64) / price,
        reason: String::from_str("first trade"),
    }
}

/// Builds a reversal signal against the open position at the fired trigger
/// price.
fn reversal_signal(position: i64, dollar_amount: u32, trigger: u64, reason: &str) -> (s: Signal)
    requires
        position != 0,
        abs_int(position as int) <= u32::MAX,
        trigger >= 1,
    ensures
        s@ == reversal_signal_view(position as int, dollar_amount as int, trigger as int, reason@),
{
    proof {
        lemma_div_le(dollar_amount as int, trigger as int);
    }
    let magnitude: u64 = if position >= 0 {
        position as u64
    } else {
        (-position) as u64
    };
    let size: u64 = (dollar_amount as u64) / trigger + magnitude;
    Signal {
        signal_type: if position > 0 {
            SignalType::Sell
        } else {
            SignalType::Buy
        },
        signal_trigger_price: trigger,
        size,
        reason: String::from_str(reason),
    }
}

impl Strategy for RAS1Strategy {
    open spec fn strategy_wf(&self) -> bool {
        self@.wf()
    }

    open spec fn event_wf(&self, event: &MarketEvent) -> bool {
        event@.wf()
    }

    fn on_event(&mut self, event: &MarketEvent) -> (r: Option<Signal>) {
        RAS1Strategy::on_event(self, event)
    }
}

} // verus!
