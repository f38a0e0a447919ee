use vstd::prelude::*;

use crate::events::MarketEvent;

verus! {

/// Direction of an emitted instruction.
#[derive(Debug, Clone, Copy, PartialEq, Eq, Structural)]
pub enum SignalType {
    Buy,
    Sell,
}

/// An advisory trading instruction. The engine emits at most one per event.
#[derive(Debug, PartialEq)]
pub struct Signal {
    pub signal_type: SignalType,
    pub signal_trigger_price: u64,
    pub size: u64,
    pub reason: String,
}

/// Mathematical value of a `Signal`.
#[verifier::ext_equal]
pub ghost struct SignalView {
    pub signal_type: SignalType,
    pub trigger_price: int,
    pub size: int,
    pub reason: Seq<char>,
}

impl View for Signal {
    type V = SignalView;

    open spec fn view(&self) -> SignalView {
        SignalView {
            signal_type: self.signal_type,
            trigger_price: self.signal_trigger_price as int,
            size: self.size as int,
            reason: self.reason@,
        }
    }
}

impl Clone for Signal {
    fn clone(&self) -> (r: Self)
        ensures
            r@ == self@,
    {
        Signal {
            signal_type: self.signal_type,
            signal_trigger_price: self.signal_trigger_price,
            size: self.size,
            reason: String::from_str(self.reason.as_str()),
        }
    }
}

/// Value of an optional emitted signal.
pub open spec fn opt_signal_view(o: Option<Signal>) -> Option<SignalView> {
    match o {
        Some(s) => Some(s@),
        None => None,
    }
}

/// Reason recorded on the one first-trade signal.
pub open spec fn first_trade_reason() -> Seq<char> {
    "first trade"@
}

/// Reason recorded when the reverse-on-initial-bar check fires.
pub open spec fn reverse_on_initial_reason() -> Seq<char> {
    "reverse on initial bar"@
}

/// Reason recorded when stage A of the reverse-after-initial-bar check fires.
pub open spec fn reverse_stage_a_reason() -> Seq<char> {
    "reverse after initial bar: stage A"@
}

/// Reason recorded when stage B of the reverse-after-initial-bar check fires.
pub open spec fn reverse_stage_b_reason() -> Seq<char> {
    "reverse after initial bar: stage B"@
}

/// A signal is a first-trade signal exactly when it carries the
/// first-trade reason.
pub open spec fn is_first_trade_signal(s: SignalView) -> bool {
    s.reason == first_trade_reason()
}

/// A signal is a reversal signal exactly when it carries one of the three
/// reversal reasons.
pub open spec fn is_reversal_signal(s: SignalView) -> bool {
    ||| s.reason == reverse_on_initial_reason()
    ||| s.reason == reverse_stage_a_reason()
    ||| s.reason == reverse_stage_b_reason()
}

/// A signal's contribution to the signed net position: a buy adds its size,
/// a sell subtracts it.
pub open spec fn signed_size(s: SignalView) -> int {
    if s.signal_type == SignalType::Buy {
        s.size
    } else {
        -s.size
    }
}

/// No reason text is both a first-trade reason and a reversal reason, so no
/// signal counts as both kinds.
pub proof fn lemma_signal_kinds_disjoint(s: SignalView)
    ensures
        !(is_first_trade_signal(s) && is_reversal_signal(s)),
{
    reveal_strlit("first trade");
    reveal_strlit("reverse on initial bar");
    reveal_strlit("reverse after initial bar: stage A");
    reveal_strlit("reverse after initial bar: stage B");
    assert(first_trade_reason().len() == 11);
    assert(reverse_on_initial_reason().len() == 22);
    assert(reverse_stage_a_reason().len() == 34);
    assert(reverse_stage_b_reason().len() == 34);
    assert(reverse_stage_a_reason()[33] == 'A');
    assert(reverse_stage_b_reason()[33] == 'B');
}

/// The extension point a caller implements or consumes: one entry point,
/// invoked once per event, strictly in arrival order.
pub trait Strategy {
    /// Holds when the strategy's internal bookkeeping is consistent.
    spec fn strategy_wf(&self) -> bool;

    /// Holds when the event is acceptable input for this strategy.
    spec fn event_wf(&self, event: &MarketEvent) -> bool;

    fn on_event(&mut self, event: &MarketEvent) -> (r: Option<Signal>)
        requires
            old(self).strategy_wf(),
            old(self).event_wf(event),
        ensures
            final(self).strategy_wf(),
    ;
}

} // verus!
