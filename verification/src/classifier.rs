use vstd::prelude::*;

use crate::events::Bar;
use crate::events::BarView;
use crate::events::opt_bar_view;

verus! {

/// Whether a bar closed above or below the bar before it.
#[derive(Debug, Clone, Copy, PartialEq, Eq, Structural)]
pub enum BarType {
    UpBar,
    DownBar,
}

/// Classification of a bar against the bar before it: up on a higher close,
/// down on a lower close, and on an equal close the previous classification
/// is inherited. Without a previous bar — or, on a tie, without a previous
/// classification — the bar is unclassifiable.
pub open spec fn spec_classify(
    bar: BarView,
    prev_bar: Option<BarView>,
    prev_bar_type: Option<BarType>,
) -> Option<BarType> {
    match prev_bar {
        Some(p) => {
            if bar.close > p.close {
                Some(BarType::UpBar)
            } else if bar.close < p.close {
                Some(BarType::DownBar)
            } else {
                prev_bar_type
            }
        },
        None => None,
    }
}

/// Classifies a bar against the previous bar and classification. The result
/// is a function of the arguments alone, so identical inputs always yield
/// the identical classification.
pub fn classify(
    bar: &Bar,
    prev_bar: &Option<Bar>,
    prev_bar_type: &Option<BarType>,
) -> (r: Option<BarType>)
    ensures
        r == spec_classify(bar@, opt_bar_view(*prev_bar), *prev_bar_type),
{
    match prev_bar {
        Some(p) => {
            if bar.close > p.close {
                Some(BarType::UpBar)
            } else if bar.close < p.close {
                Some(BarType::DownBar)
            } else {
                *prev_bar_type
            }
        },
        None => None,
    }
}

} // verus!
