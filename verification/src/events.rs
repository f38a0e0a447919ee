use vstd::prelude::*;

verus! {

/// One OHLCV price interval. Prices are fixed-point integers: the caller
/// picks the scale (for example hundredths of a dollar) and uses it
/// consistently for every price fed to the engine.
#[derive(Debug, PartialEq)]
pub struct Bar {
    pub timestamp: String,
    pub open: u64,
    pub high: u64,
    pub low: u64,
    pub close: u64,
    pub volume: u32,
    pub is_base_bar: bool,
}

/// Mathematical value of a `Bar`.
#[verifier::ext_equal]
pub ghost struct BarView {
    pub timestamp: Seq<char>,
    pub open: int,
    pub high: int,
    pub low: int,
    pub close: int,
    pub volume: int,
    pub is_base_bar: bool,
}

impl View for Bar {
    type V = BarView;

    open spec fn view(&self) -> BarView {
        BarView {
            timestamp: self.timestamp@,
            open: self.open as int,
            high: self.high as int,
            low: self.low as int,
            close: self.close as int,
            volume: self.volume as int,
            is_base_bar: self.is_base_bar,
        }
    }
}

impl BarView {
    /// Market prices are strictly positive — zero prices would make the
    /// dollar-amount divisions in signal sizing meaningless — and fit the
    /// machine representation.
    pub open spec fn wf(self) -> bool {
        &&& 1 <= self.open <= u64::MAX
        &&& 1 <= self.high <= u64::MAX
        &&& 1 <= self.low <= u64::MAX
        &&& 1 <= self.close <= u64::MAX
    }
}

impl Clone for Bar {
    fn clone(&self) -> (r: Self)
        ensures
            r@ == self@,
    {
        Bar {
            timestamp: String::from_str(self.timestamp.as_str()),
            open: self.open,
            high: self.high,
            low: self.low,
            close: self.close,
            volume: self.volume,
            is_base_bar: self.is_base_bar,
        }
    }
}

/// A single execution/tick event.
#[derive(Debug, PartialEq)]
pub struct Trade {
    pub timestamp: String,
    pub price: u64,
    pub size: u32,
}

/// Mathematical value of a `Trade`.
#[verifier::ext_equal]
pub ghost struct TradeView {
    pub timestamp: Seq<char>,
    pub price: int,
    pub size: int,
}

impl View for Trade {
    type V = TradeView;

    open spec fn view(&self) -> TradeView {
        TradeView { timestamp: self.timestamp@, price: self.price as int, size: self.size as int }
    }
}

impl TradeView {
    pub open spec fn wf(self) -> bool {
        1 <= self.price <= u64::MAX
    }
}

impl Clone for Trade {
    fn clone(&self) -> (r: Self)
        ensures
            r@ == self@,
    {
        Trade {
            timestamp: String::from_str(self.timestamp.as_str()),
            price: self.price,
            size: self.size,
        }
    }
}

/// The events the engine consumes, strictly in arrival order.
#[derive(Debug, PartialEq)]
pub enum MarketEvent {
    Trade(Trade),
    Bar(Bar),
}

/// Mathematical value of a `MarketEvent`.
#[verifier::ext_equal]
pub ghost enum MarketEventView {
    Trade(TradeView),
    Bar(BarView),
}

impl View for MarketEvent {
    type V = MarketEventView;

    open spec fn view(&self) -> MarketEventView {
        match self {
            MarketEvent::Trade(t) => MarketEventView::Trade(t@),
            MarketEvent::Bar(b) => MarketEventView::Bar(b@),
        }
    }
}

impl MarketEventView {
    pub open spec fn wf(self) -> bool {
        match self {
            MarketEventView::Trade(t) => t.wf(),
            MarketEventView::Bar(b) => b.wf(),
        }
    }
}

/// Value of an optional stored bar.
pub open spec fn opt_bar_view(o: Option<Bar>) -> Option<BarView> {
    match o {
        Some(b) => Some(b@),
        None => None,
    }
}

/// An optional stored bar is well formed when the bar it holds is.
pub open spec fn opt_bar_wf(o: Option<BarView>) -> bool {
    match o {
        Some(b) => b.wf(),
        None => true,
    }
}

} // verus!
