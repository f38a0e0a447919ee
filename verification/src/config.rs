use vstd::prelude::*;

verus! {

/// How bars are cut for one engine instance: fixed-minute intraday bars
/// anchored at a start time, or n-day daily bars.
#[derive(Debug, PartialEq)]
pub enum TradingMode {
    Intraday { bar_minutes: u32, base_bar_start_time: String },
    Daily(u32),
}

/// Mathematical value of a `TradingMode`.
#[verifier::ext_equal]
pub ghost enum TradingModeView {
    Intraday { bar_minutes: int, base_bar_start_time: Seq<char> },
    Daily(int),
}

impl View for TradingMode {
    type V = TradingModeView;

    open spec fn view(&self) -> TradingModeView {
        match self {
            TradingMode::Intraday { bar_minutes, base_bar_start_time } => {
                TradingModeView::Intraday {
                    bar_minutes: *bar_minutes as int,
                    base_bar_start_time: base_bar_start_time@,
                }
            },
            TradingMode::Daily(n) => TradingModeView::Daily(*n as int),
        }
    }
}

impl Clone for TradingMode {
    fn clone(&self) -> (r: Self)
        ensures
            r@ == self@,
    {
        match self {
            TradingMode::Intraday { bar_minutes, base_bar_start_time } => {
                TradingMode::Intraday {
                    bar_minutes: *bar_minutes,
                    base_bar_start_time: String::from_str(base_bar_start_time.as_str()),
                }
            },
            TradingMode::Daily(n) => TradingMode::Daily(*n),
        }
    }
}

/// The five independently optional percentage thresholds that drive the
/// reversal price targets. Each is a percentage in basis points: a value of
/// `p` stands for `p/100` percent, so a target moves a reference price by
/// `price * p / 10000`, rounded toward zero.
#[derive(Debug, Clone, Copy, PartialEq)]
pub struct RAS1Thresholds {
    pub base_bar_pct: Option<u64>,
    pub base_bar_end_pct: Option<u64>,
    pub non_base_bar_end_pct: Option<u64>,
    pub non_base_bar_min_pct: Option<u64>,
    pub non_base_bar_max_pct: Option<u64>,
}

/// Mathematical value of the threshold record.
#[verifier::ext_equal]
pub ghost struct ThresholdsView {
    pub base_bar_pct: Option<int>,
    pub base_bar_end_pct: Option<int>,
    pub non_base_bar_end_pct: Option<int>,
    pub non_base_bar_min_pct: Option<int>,
    pub non_base_bar_max_pct: Option<int>,
}

impl ThresholdsView {
    /// A configured threshold is a nonnegative number of basis points.
    pub open spec fn wf(self) -> bool {
        &&& opt_pct_wf(self.base_bar_pct)
        &&& opt_pct_wf(self.base_bar_end_pct)
        &&& opt_pct_wf(self.non_base_bar_end_pct)
        &&& opt_pct_wf(self.non_base_bar_min_pct)
        &&& opt_pct_wf(self.non_base_bar_max_pct)
    }
}

pub open spec fn opt_pct_wf(o: Option<int>) -> bool {
    match o {
        Some(p) => 0 <= p <= u64::MAX,
        None => true,
    }
}

pub open spec fn opt_pct_view(o: Option<u64>) -> Option<int> {
    match o {
        Some(p) => Some(p as int),
        None => None,
    }
}

impl View for RAS1Thresholds {
    type V = ThresholdsView;

    open spec fn view(&self) -> ThresholdsView {
        ThresholdsView {
            base_bar_pct: opt_pct_view(self.base_bar_pct),
            base_bar_end_pct: opt_pct_view(self.base_bar_end_pct),
            non_base_bar_end_pct: opt_pct_view(self.non_base_bar_end_pct),
            non_base_bar_min_pct: opt_pct_view(self.non_base_bar_min_pct),
            non_base_bar_max_pct: opt_pct_view(self.non_base_bar_max_pct),
        }
    }
}

/// Everything one engine instance is constructed with; fixed for its
/// lifetime.
#[derive(Debug, PartialEq)]
pub struct RAS1Config {
    pub symbol: String,
    pub trading_mode: TradingMode,
    pub dollar_amount: u32,
    pub base_bar_opp: bool,
    pub thresholds: RAS1Thresholds,
}

/// Mathematical value of a `RAS1Config`.
#[verifier::ext_equal]
pub ghost struct ConfigView {
    pub symbol: Seq<char>,
    pub trading_mode: TradingModeView,
    pub dollar_amount: int,
    pub base_bar_opp: bool,
    pub thresholds: ThresholdsView,
}

impl ConfigView {
    /// The dollar amount fits its machine representation and every
    /// configured threshold is a nonnegative number of basis points.
    pub open spec fn wf(self) -> bool {
        &&& 0 <= self.dollar_amount <= u32::MAX
        &&& self.thresholds.wf()
    }
}

impl View for RAS1Config {
    type V = ConfigView;

    open spec fn view(&self) -> ConfigView {
        ConfigView {
            symbol: self.symbol@,
            trading_mode: self.trading_mode@,
            dollar_amount: self.dollar_amount as int,
            base_bar_opp: self.base_bar_opp,
            thresholds: self.thresholds@,
        }
    }
}

impl Clone for RAS1Config {
    fn clone(&self) -> (r: Self)
        ensures
            r@ == self@,
    {
        RAS1Config {
            symbol: String::from_str(self.symbol.as_str()),
            trading_mode: self.trading_mode.clone(),
            dollar_amount: self.dollar_amount,
            base_bar_opp: self.base_bar_opp,
            thresholds: self.thresholds,
        }
    }
}

impl RAS1Config {
    /// Builds a configuration from its field values and preserves each of
    /// them exactly, so a structured representation of a configuration
    /// round-trips through construction and field reads without loss.
    pub fn new(
        symbol: String,
        trading_mode: TradingMode,
        dollar_amount: u32,
        base_bar_opp: bool,
        thresholds: RAS1Thresholds,
    ) -> (c: Self)
        ensures
            c@ == (ConfigView {
                symbol: symbol@,
                trading_mode: trading_mode@,
                dollar_amount: dollar_amount as int,
                base_bar_opp: base_bar_opp,
                thresholds: thresholds@,
            }),
    {
        RAS1Config { symbol, trading_mode, dollar_amount, base_bar_opp, thresholds }
    }
}

/// Round trip: a configuration rebuilt from the field values read back out
/// of an existing configuration is that configuration, field for field.
pub proof fn lemma_config_round_trip(c: ConfigView)
    ensures
        (ConfigView {
            symbol: c.symbol,
            trading_mode: c.trading_mode,
            dollar_amount: c.dollar_amount,
            base_bar_opp: c.base_bar_opp,
            thresholds: c.thresholds,
        }) == c,
{
}

} // verus!
