use vstd::prelude::*;

use crate::config::RAS1Thresholds;
use crate::config::ThresholdsView;
use crate::events::Bar;
use crate::events::BarView;
use crate::events::opt_bar_view;
use crate::events::opt_bar_wf;

verus! {

/// Scale of the percentage thresholds: a threshold of `p` stands for
/// `p / 100` percent, so the amount moved off a reference price is
/// `price * p / PCT_SCALE`, rounded toward zero.
pub const PCT_SCALE: u64 = 10000;

/// The amount a percentage threshold moves a reference price by.
pub open spec fn pct_amount(price: int, pct: int) -> int {
    (price * pct) / (PCT_SCALE as int)
}

/// Price target below a reference price, used while long.
pub open spec fn long_target(price: int, pct: int) -> int {
    price - pct_amount(price, pct)
}

/// Price target above a reference price, used while short.
pub open spec fn short_target(price: int, pct: int) -> int {
    price + pct_amount(price, pct)
}

pub open spec fn min_int(a: int, b: int) -> int {
    if a <= b {
        a
    } else {
        b
    }
}

pub open spec fn max_int(a: int, b: int) -> int {
    if a >= b {
        a
    } else {
        b
    }
}

/// Value of an optional trigger price.
pub open spec fn opt_price_view(o: Option<u64>) -> Option<int> {
    match o {
        Some(p) => Some(p as int),
        None => None,
    }
}

/// The reverse-on-initial-bar check, run once on the bar that makes the
/// engine active. Both base-bar thresholds must be configured and a position
/// must be open; the combined target is the tighter of the two base-bar
/// targets, and the check fires when the incoming bar reaches it.
pub open spec fn reverse_on_initial_trigger(
    th: ThresholdsView,
    base: BarView,
    position: int,
    bar: BarView,
) -> Option<int> {
    match (th.base_bar_pct, th.base_bar_end_pct) {
        (Some(pa), Some(pb)) => {
            if position > 0 {
                let c = min_int(long_target(base.close, pa), long_target(base.low, pb));
                if c >= bar.low {
                    Some(c)
                } else {
                    None
                }
            } else if position < 0 {
                let c = max_int(short_target(base.close, pa), short_target(base.high, pb));
                if c <= bar.high {
                    Some(c)
                } else {
                    None
                }
            } else {
                None
            }
        },
        _ => None,
    }
}

/// Stage A of the reverse-after-initial-bar check: the base-bar targets
/// together with targets off the previous bar's end and close. All four
/// thresholds and a previous bar are needed, else the stage yields nothing.
pub open spec fn stage_a_trigger(
    th: ThresholdsView,
    base: BarView,
    prev: Option<BarView>,
    position: int,
    bar: BarView,
) -> Option<int> {
    match (th.base_bar_pct, th.base_bar_end_pct, th.non_base_bar_end_pct,
        th.non_base_bar_min_pct, prev) {
        (Some(pa), Some(pb), Some(pe), Some(pm), Some(pv)) => {
            if position > 0 {
                let c = min_int(
                    min_int(long_target(base.close, pa), long_target(base.low, pb)),
                    min_int(long_target(pv.low, pe), long_target(pv.close, pm)),
                );
                if c >= bar.low {
                    Some(c)
                } else {
                    None
                }
            } else if position < 0 {
                let c = max_int(
                    max_int(short_target(base.close, pa), short_target(base.high, pb)),
                    max_int(short_target(pv.high, pe), short_target(pv.close, pm)),
                );
                if c <= bar.high {
                    Some(c)
                } else {
                    None
                }
            } else {
                None
            }
        },
        _ => None,
    }
}

/// Stage B of the reverse-after-initial-bar check: targets off the running
/// extremum bar — its low or high for the end threshold, its close for the
/// max threshold. Both thresholds and the extremum are needed, else the
/// stage yields nothing.
pub open spec fn stage_b_trigger(
    th: ThresholdsView,
    highest: Option<BarView>,
    lowest: Option<BarView>,
    position: int,
    bar: BarView,
) -> Option<int> {
    if position > 0 {
        match (th.non_base_bar_end_pct, th.non_base_bar_max_pct, highest) {
            (Some(pe), Some(px), Some(ext)) => {
                let c = min_int(long_target(ext.low, pe), long_target(ext.close, px));
                if c >= bar.low {
                    Some(c)
                } else {
                    None
                }
            },
            _ => None,
        }
    } else if position < 0 {
        match (th.non_base_bar_end_pct, th.non_base_bar_max_pct, lowest) {
            (Some(pe), Some(px), Some(ext)) => {
                let c = max_int(short_target(ext.high, pe), short_target(ext.close, px));
                if c <= bar.high {
                    Some(c)
                } else {
                    None
                }
            },
            _ => None,
        }
    } else {
        None
    }
}

/// With either base-bar threshold unset, the reverse-on-initial-bar check
/// never fires, whatever the bars and the position.
pub proof fn lemma_reverse_on_initial_needs_both_thresholds(
    th: ThresholdsView,
    base: BarView,
    position: int,
    bar: BarView,
)
    requires
        th.base_bar_pct is None || th.base_bar_end_pct is None,
    ensures
        reverse_on_initial_trigger(th, base, position, bar) is None,
{
}

/// Dividing a nonnegative amount by a positive price keeps it nonnegative
/// and never enlarges it.
pub proof fn lemma_div_le(x: int, d: int)
    requires
        x >= 0,
        d >= 1,
    ensures
        0 <= x / d <= x,
{
    vstd::arithmetic::div_mod::lemma_div_pos_is_pos(x, d);
    vstd::arithmetic::div_mod::lemma_div_nonincreasing(x, d);
}

/// The amount a nonnegative threshold moves a nonnegative price by is
/// itself nonnegative, so a long target never exceeds its reference price
/// and a short target never undercuts it.
pub proof fn lemma_pct_amount_nonneg(price: int, pct: int)
    requires
        price >= 0,
        pct >= 0,
    ensures
        pct_amount(price, pct) >= 0,
        long_target(price, pct) <= price,
        short_target(price, pct) >= price,
{
    vstd::arithmetic::mul::lemma_mul_nonnegative(price, pct);
    vstd::arithmetic::div_mod::lemma_div_pos_is_pos(price * pct, PCT_SCALE as int);
}

/// A fired reverse-on-initial-bar trigger implies an open position and a
/// positive trigger price.
pub proof fn lemma_reverse_on_initial_fired(
    th: ThresholdsView,
    base: BarView,
    position: int,
    bar: BarView,
    tr: int,
)
    requires
        th.wf(),
        base.wf(),
        bar.wf(),
        reverse_on_initial_trigger(th, base, position, bar) == Some(tr),
    ensures
        position != 0,
        tr >= 1,
{
    let pa = th.base_bar_pct->0;
    let pb = th.base_bar_end_pct->0;
    if position < 0 {
        lemma_pct_amount_nonneg(base.close, pa);
        lemma_pct_amount_nonneg(base.high, pb);
    }
}

/// A fired stage A trigger implies an open position and a positive trigger
/// price.
pub proof fn lemma_stage_a_fired(
    th: ThresholdsView,
    base: BarView,
    prev: Option<BarView>,
    position: int,
    bar: BarView,
    tr: int,
)
    requires
        th.wf(),
        base.wf(),
        opt_bar_wf(prev),
        bar.wf(),
        stage_a_trigger(th, base, prev, position, bar) == Some(tr),
    ensures
        position != 0,
        tr >= 1,
{
    let pa = th.base_bar_pct->0;
    let pb = th.base_bar_end_pct->0;
    let pe = th.non_base_bar_end_pct->0;
    let pm = th.non_base_bar_min_pct->0;
    if position < 0 {
        let pv = prev->0;
        lemma_pct_amount_nonneg(base.close, pa);
        lemma_pct_amount_nonneg(base.high, pb);
        lemma_pct_amount_nonneg(pv.high, pe);
        lemma_pct_amount_nonneg(pv.close, pm);
    }
}

/// A fired stage B trigger implies an open position and a positive trigger
/// price.
pub proof fn lemma_stage_b_fired(
    th: ThresholdsView,
    highest: Option<BarView>,
    lowest: Option<BarView>,
    position: int,
    bar: BarView,
    tr: int,
)
    requires
        th.wf(),
        opt_bar_wf(highest),
        opt_bar_wf(lowest),
        bar.wf(),
        stage_b_trigger(th, highest, lowest, position, bar) == Some(tr),
    ensures
        position != 0,
        tr >= 1,
{
    let pe = th.non_base_bar_end_pct->0;
    let px = th.non_base_bar_max_pct->0;
    if position < 0 {
        let ext = lowest->0;
        lemma_pct_amount_nonneg(ext.high, pe);
        lemma_pct_amount_nonneg(ext.close, px);
    }
}

/// Computes `long_target` exactly, in wide integers so no input overflows.
pub fn long_target_price(price: u64, pct: u64) -> (t: i128)
    ensures
        t == long_target(price as int, pct as int),
        t <= price as i128,
{
    proof {
        vstd::arithmetic::mul::lemma_mul_upper_bound(
            price as int,
            u64::MAX as int,
            pct as int,
            u64::MAX as int,
        );
        vstd::arithmetic::div_mod::lemma_div_is_ordered(
            (price as int) * (pct as int),
            (u64::MAX as int) * (u64::MAX as int),
            PCT_SCALE as int,
        );
    }
    let amt: u128 = (price as u128) * (pct as u128) / (PCT_SCALE as u128);
    (price as i128) - (amt as i128)
}

/// Computes `short_target` exactly, in wide integers so no input overflows.
pub fn short_target_price(price: u64, pct: u64) -> (t: i128)
    ensures
        t == short_target(price as int, pct as int),
        t >= price as i128,
{
    proof {
        vstd::arithmetic::mul::lemma_mul_upper_bound(
            price as int,
            u64::MAX as int,
            pct as int,
            u64::MAX as int,
        );
        vstd::arithmetic::div_mod::lemma_div_is_ordered(
            (price as int) * (pct as int),
            (u64::MAX as int) * (u64::MAX as int),
            PCT_SCALE as int,
        );
    }
    let amt: u128 = (price as u128) * (pct as u128) / (PCT_SCALE as u128);
    (price as i128) + (amt as i128)
}

/// Runs the reverse-on-initial-bar check on the incoming bar.
pub fn reverse_on_initial_check(
    th: &RAS1Thresholds,
    base: &Bar,
    position: i64,
    bar: &Bar,
) -> (r: Option<u64>)
    requires
        base@.wf(),
        bar@.wf(),
    ensures
        opt_price_view(r) == reverse_on_initial_trigger(th@, base@, position as int, bar@),
{
    let (pa, pb) = match (th.base_bar_pct, th.base_bar_end_pct) {
        (Some(a), Some(b)) => (a, b),
        _ => {
            return None;
        },
    };
    if position > 0 {
        let ta = long_target_price(base.close, pa);
        let tb = long_target_price(base.low, pb);
        let c = if ta <= tb {
            ta
        } else {
            tb
        };
        if c >= bar.low as i128 {
            Some(c as u64)
        } else {
            None
        }
    } else if position < 0 {
        let ta = short_target_price(base.close, pa);
        let tb = short_target_price(base.high, pb);
        let c = if ta >= tb {
            ta
        } else {
            tb
        };
        if c <= bar.high as i128 {
            Some(c as u64)
        } else {
            None
        }
    } else {
        None
    }
}

/// Runs stage A of the reverse-after-initial-bar check on the incoming bar.
pub fn stage_a_check(
    th: &RAS1Thresholds,
    base: &Bar,
    prev: &Option<Bar>,
    position: i64,
    bar: &Bar,
) -> (r: Option<u64>)
    requires
        base@.wf(),
        opt_bar_wf(opt_bar_view(*prev)),
        bar@.wf(),
    ensures
        opt_price_view(r) == stage_a_trigger(
            th@,
            base@,
            opt_bar_view(*prev),
            position as int,
            bar@,
        ),
{
    let pv = match prev {
        Some(p) => p,
        None => {
            return None;
        },
    };
    let (pa, pb, pe, pm) = match (th.base_bar_pct, th.base_bar_end_pct, th.non_base_bar_end_pct,
        th.non_base_bar_min_pct) {
        (Some(a), Some(b), Some(e), Some(m)) => (a, b, e, m),
        _ => {
            return None;
        },
    };
    if position > 0 {
        let t1 = long_target_price(base.close, pa);
        let t2 = long_target_price(base.low, pb);
        let t3 = long_target_price(pv.low, pe);
        let t4 = long_target_price(pv.close, pm);
        let c12 = if t1 <= t2 {
            t1
        } else {
            t2
        };
        let c34 = if t3 <= t4 {
            t3
        } else {
            t4
        };
        let c = if c12 <= c34 {
            c12
        } else {
            c34
        };
        if c >= bar.low as i128 {
            Some(c as u64)
        } else {
            None
        }
    } else if position < 0 {
        let t1 = short_target_price(base.close, pa);
        let t2 = short_target_price(base.high, pb);
        let t3 = short_target_price(pv.high, pe);
        let t4 = short_target_price(pv.close, pm);
        let c12 = if t1 >= t2 {
            t1
        } else {
            t2
        };
        let c34 = if t3 >= t4 {
            t3
        } else {
            t4
        };
        let c = if c12 >= c34 {
            c12
        } else {
            c34
        };
        if c <= bar.high as i128 {
            Some(c as u64)
        } else {
            None
        }
    } else {
        None
    }
}

/// Runs stage B of the reverse-after-initial-bar check on the incoming bar.
pub fn stage_b_check(
    th: &RAS1Thresholds,
    highest: &Option<Bar>,
    lowest: &Option<Bar>,
    position: i64,
    bar: &Bar,
) -> (r: Option<u64>)
    requires
        opt_bar_wf(opt_bar_view(*highest)),
        opt_bar_wf(opt_bar_view(*lowest)),
        bar@.wf(),
    ensures
        opt_price_view(r) == stage_b_trigger(
            th@,
            opt_bar_view(*highest),
            opt_bar_view(*lowest),
            position as int,
            bar@,
        ),
{
    let (pe, px) = match (th.non_base_bar_end_pct, th.non_base_bar_max_pct) {
        (Some(e), Some(x)) => (e, x),
        _ => {
            return None;
        },
    };
    if position > 0 {
        let ext = match highest {
            Some(h) => h,
            None => {
                return None;
            },
        };
        let t1 = long_target_price(ext.low, pe);
        let t2 = long_target_price(ext.close, px);
        let c = if t1 <= t2 {
            t1
        } else {
            t2
        };
        if c >= bar.low as i128 {
            Some(c as u64)
        } else {
            None
        }
    } else if position < 0 {
        let ext = match lowest {
            Some(l) => l,
            None => {
                return None;
            },
        };
        let t1 = short_target_price(ext.high, pe);
        let t2 = short_target_price(ext.close, px);
        let c = if t1 >= t2 {
            t1
        } else {
            t2
        };
        if c <= bar.high as i128 {
            Some(c as u64)
        } else {
            None
        }
    } else {
        None
    }
}

} // verus!
