use vstd::prelude::*;

use crate::config::ConfigView;
use crate::events::MarketEventView;
use crate::ras1_strategy::EngineView;
use crate::ras1_strategy::StateView;
use crate::ras1_strategy::init_view;
use crate::ras1_strategy::lemma_step_preserves_wf;
use crate::ras1_strategy::step;
use crate::strategy::SignalView;
use crate::strategy::is_first_trade_signal;
use crate::strategy::is_reversal_signal;
use crate::strategy::lemma_signal_kinds_disjoint;
use crate::strategy::signed_size;
use crate::targets::lemma_reverse_on_initial_fired;

verus! {

/// The engine after consuming a whole event sequence, one event at a time.
pub open spec fn run(v0: EngineView, evs: Seq<MarketEventView>) -> EngineView
    decreases evs.len(),
{
    if evs.len() == 0 {
        v0
    } else {
        step(run(v0, evs.drop_last()), evs.last()).0
    }
}

/// The signals the engine emits while consuming an event sequence, in
/// emission order.
pub open spec fn emitted_signals(v0: EngineView, evs: Seq<MarketEventView>) -> Seq<SignalView>
    decreases evs.len(),
{
    if evs.len() == 0 {
        Seq::empty()
    } else {
        let pre = emitted_signals(v0, evs.drop_last());
        match step(run(v0, evs.drop_last()), evs.last()).1 {
            Some(s) => pre.push(s),
            None => pre,
        }
    }
}

/// Every event in the sequence is well formed.
pub open spec fn all_events_wf(evs: Seq<MarketEventView>) -> bool {
    forall|i: int| 0 <= i < evs.len() ==> (#[trigger] evs[i]).wf()
}

pub open spec fn count_first_trades(ss: Seq<SignalView>) -> int
    decreases ss.len(),
{
    if ss.len() == 0 {
        0
    } else {
        count_first_trades(ss.drop_last()) + if is_first_trade_signal(ss.last()) {
            1int
        } else {
            0
        }
    }
}

pub open spec fn count_reversals(ss: Seq<SignalView>) -> int
    decreases ss.len(),
{
    if ss.len() == 0 {
        0
    } else {
        count_reversals(ss.drop_last()) + if is_reversal_signal(ss.last()) {
            1int
        } else {
            0
        }
    }
}

/// The signed sum of the emitted signals' sizes: buys count positive, sells
/// negative.
pub open spec fn signed_sum(ss: Seq<SignalView>) -> int
    decreases ss.len(),
{
    if ss.len() == 0 {
        0
    } else {
        signed_sum(ss.drop_last()) + signed_size(ss.last())
    }
}

/// Appending one signal moves each count by exactly that signal's
/// contribution.
proof fn lemma_counts_push(ss: Seq<SignalView>, s: SignalView)
    ensures
        count_first_trades(ss.push(s)) == count_first_trades(ss) + (if is_first_trade_signal(s) {
            1int
        } else {
            0
        }),
        count_reversals(ss.push(s)) == count_reversals(ss) + (if is_reversal_signal(s) {
            1int
        } else {
            0
        }),
        signed_sum(ss.push(s)) == signed_sum(ss) + signed_size(s),
{
    assert(ss.push(s).drop_last() =~= ss);
    assert(ss.push(s).last() == s);
}

/// A signal is emitted for a trade event only while the engine awaits the
/// initial trade; in every other state trades change nothing.
pub proof fn lemma_trade_signal_only_awaiting_initial(v: EngineView, t: crate::events::TradeView)
    ensures
        step(v, MarketEventView::Trade(t)).1 is Some ==> v.state matches
            StateView::WaitingForInitial { .. },
{
}

/// How far along the state machine a state stands.
pub open spec fn state_rank(s: StateView) -> int {
    match s {
        StateView::WaitingForBase => 0,
        StateView::WaitingForInitial { .. } => 1,
        StateView::Active { .. } => 2,
    }
}

/// State transitions are strictly forward: no step returns the engine to an
/// earlier state, the active state is never left, and awaiting the initial
/// trade can only turn active with the same adopted base bar.
pub proof fn lemma_transitions_strictly_forward(v: EngineView, ev: MarketEventView)
    ensures
        state_rank(step(v, ev).0.state) >= state_rank(v.state),
        v.state matches StateView::Active { .. } ==> step(v, ev).0.state == v.state,
        (v.state matches StateView::WaitingForInitial { base_bar, base_bar_type }) ==> (step(
            v,
            ev,
        ).0.state == v.state || step(v, ev).0.state == (StateView::Active {
            base_bar: v.state->WaitingForInitial_base_bar,
            base_bar_type: v.state->WaitingForInitial_base_bar_type,
        })),
{
}

/// How one step relates the emitted signal to the bookkeeping: the
/// first-trade flag records exactly whether a first-trade signal has been
/// emitted; a first-trade signal is emitted exactly on a trade event in the
/// awaiting-initial-trade state with the flag still clear; a reversal signal
/// is only ever emitted when exactly one signal was emitted before it; every
/// signal is of one of the two kinds; and the count and the position move by
/// exactly the emitted signal.
pub proof fn lemma_step_signal_kinds(v: EngineView, ev: MarketEventView)
    requires
        v.wf(),
        ev.wf(),
    ensures
        (match step(v, ev).1 {
            Some(s) => is_first_trade_signal(s) || is_reversal_signal(s),
            None => true,
        }),
        (match step(v, ev).1 {
            Some(s) => is_first_trade_signal(s),
            None => false,
        }) <==> (ev matches MarketEventView::Trade(_) && v.state matches
            StateView::WaitingForInitial { .. } && !v.first_trade_emitted),
        step(v, ev).0.first_trade_emitted <==> (v.first_trade_emitted || (match step(v, ev).1 {
            Some(s) => is_first_trade_signal(s),
            None => false,
        })),
        (match step(v, ev).1 {
            Some(s) => is_reversal_signal(s),
            None => false,
        }) ==> v.signals_emitted == 1,
        step(v, ev).0.signals_emitted == v.signals_emitted + (match step(v, ev).1 {
            Some(_) => 1int,
            None => 0,
        }),
        (step(v, ev).0.signals_emitted == 2) <==> (v.signals_emitted == 2 || (match step(
            v,
            ev,
        ).1 {
            Some(s) => is_reversal_signal(s),
            None => false,
        })),
        step(v, ev).0.current_position == v.current_position + (match step(v, ev).1 {
            Some(s) => signed_size(s),
            None => 0,
        }),
{
    match step(v, ev).1 {
        Some(s) => {
            lemma_signal_kinds_disjoint(s);
        },
        None => {},
    }
    match ev {
        MarketEventView::Trade(t) => {},
        MarketEventView::Bar(b) => {
            match v.state {
                StateView::WaitingForBase => {},
                StateView::WaitingForInitial { base_bar, base_bar_type } => {
                    match crate::targets::reverse_on_initial_trigger(
                        v.config.thresholds,
                        base_bar,
                        v.current_position,
                        b,
                    ) {
                        Some(tr) => {
                            lemma_reverse_on_initial_fired(
                                v.config.thresholds,
                                base_bar,
                                v.current_position,
                                b,
                                tr,
                            );
                        },
                        None => {},
                    }
                },
                StateView::Active { base_bar, base_bar_type } => {},
            }
        },
    }
}

/// Every engine reachable from a well-formed start through well-formed
/// events is well formed.
pub proof fn lemma_run_preserves_wf(v0: EngineView, evs: Seq<MarketEventView>)
    requires
        v0.wf(),
        all_events_wf(evs),
    ensures
        run(v0, evs).wf(),
    decreases evs.len(),
{
    if evs.len() > 0 {
        let dl = evs.drop_last();
        assert(all_events_wf(dl)) by {
            assert forall|i: int| 0 <= i < dl.len() implies (#[trigger] dl[i]).wf() by {
                assert(dl[i] == evs[i]);
            }
        }
        lemma_run_preserves_wf(v0, dl);
        assert(evs.last().wf());
        lemma_step_preserves_wf(run(v0, dl), evs.last());
    }
}

/// Over any run, the number of first-trade signals emitted is exactly the
/// change of the first-trade flag: it is emitted once, at the first trade
/// event seen while awaiting the initial trade, and never again.
pub proof fn lemma_run_first_trade_count(v0: EngineView, evs: Seq<MarketEventView>)
    requires
        v0.wf(),
        all_events_wf(evs),
    ensures
        count_first_trades(emitted_signals(v0, evs)) == (if run(v0, evs).first_trade_emitted {
            1int
        } else {
            0
        }) - (if v0.first_trade_emitted {
            1int
        } else {
            0
        }),
        v0.first_trade_emitted ==> run(v0, evs).first_trade_emitted,
    decreases evs.len(),
{
    if evs.len() > 0 {
        let dl = evs.drop_last();
        assert(all_events_wf(dl)) by {
            assert forall|i: int| 0 <= i < dl.len() implies (#[trigger] dl[i]).wf() by {
                assert(dl[i] == evs[i]);
            }
        }
        lemma_run_first_trade_count(v0, dl);
        lemma_run_preserves_wf(v0, dl);
        assert(evs.last().wf());
        lemma_step_signal_kinds(run(v0, dl), evs.last());
        match step(run(v0, dl), evs.last()).1 {
            Some(s) => {
                lemma_counts_push(emitted_signals(v0, dl), s);
            },
            None => {},
        }
    }
}

/// For all event sequences, a fresh engine emits at most one first-trade
/// signal over its lifetime, and emits it exactly when a trade arrives
/// while it awaits the initial trade.
pub proof fn lemma_exactly_one_first_trade(config: ConfigView, evs: Seq<MarketEventView>)
    requires
        config.wf(),
        all_events_wf(evs),
    ensures
        count_first_trades(emitted_signals(init_view(config), evs)) <= 1,
        count_first_trades(emitted_signals(init_view(config), evs)) == 1 <==> run(
            init_view(config),
            evs,
        ).first_trade_emitted,
{
    lemma_run_first_trade_count(init_view(config), evs);
}

/// Over any run, the number of reversal signals emitted is exactly the
/// change of the "two signals emitted" indicator, so a fresh engine emits
/// at most one reversal over its lifetime.
pub proof fn lemma_run_reversal_count(v0: EngineView, evs: Seq<MarketEventView>)
    requires
        v0.wf(),
        all_events_wf(evs),
    ensures
        count_reversals(emitted_signals(v0, evs)) == (if run(v0, evs).signals_emitted == 2 {
            1int
        } else {
            0
        }) - (if v0.signals_emitted == 2 {
            1int
        } else {
            0
        }),
    decreases evs.len(),
{
    if evs.len() > 0 {
        let dl = evs.drop_last();
        assert(all_events_wf(dl)) by {
            assert forall|i: int| 0 <= i < dl.len() implies (#[trigger] dl[i]).wf() by {
                assert(dl[i] == evs[i]);
            }
        }
        lemma_run_reversal_count(v0, dl);
        lemma_run_preserves_wf(v0, dl);
        assert(evs.last().wf());
        lemma_step_signal_kinds(run(v0, dl), evs.last());
        match step(run(v0, dl), evs.last()).1 {
            Some(s) => {
                lemma_counts_push(emitted_signals(v0, dl), s);
            },
            None => {},
        }
    }
}

/// At most one reversal signal is produced per engine lifetime.
pub proof fn lemma_at_most_one_reversal(config: ConfigView, evs: Seq<MarketEventView>)
    requires
        config.wf(),
        all_events_wf(evs),
    ensures
        count_reversals(emitted_signals(init_view(config), evs)) <= 1,
{
    lemma_run_reversal_count(init_view(config), evs);
}

/// Over any run, the position moves by exactly the signed sum of the
/// emitted signals' sizes.
pub proof fn lemma_run_position_signed_sum(v0: EngineView, evs: Seq<MarketEventView>)
    requires
        v0.wf(),
        all_events_wf(evs),
    ensures
        run(v0, evs).current_position == v0.current_position + signed_sum(
            emitted_signals(v0, evs),
        ),
    decreases evs.len(),
{
    if evs.len() > 0 {
        let dl = evs.drop_last();
        assert(all_events_wf(dl)) by {
            assert forall|i: int| 0 <= i < dl.len() implies (#[trigger] dl[i]).wf() by {
                assert(dl[i] == evs[i]);
            }
        }
        lemma_run_position_signed_sum(v0, dl);
        lemma_run_preserves_wf(v0, dl);
        assert(evs.last().wf());
        lemma_step_signal_kinds(run(v0, dl), evs.last());
        match step(run(v0, dl), evs.last()).1 {
            Some(s) => {
                lemma_counts_push(emitted_signals(v0, dl), s);
            },
            None => {},
        }
    }
}

/// After any number of emitted signals, a fresh engine's position equals
/// the signed sum of each emitted signal's size: buys add, sells subtract.
pub proof fn lemma_position_is_signed_sum(config: ConfigView, evs: Seq<MarketEventView>)
    requires
        config.wf(),
        all_events_wf(evs),
    ensures
        run(init_view(config), evs).current_position == signed_sum(
            emitted_signals(init_view(config), evs),
        ),
{
    lemma_run_position_signed_sum(init_view(config), evs);
}

} // verus!
