//! Requests for historical bars.

use vstd::prelude::*;

verus! {

/// A request for the bars of one symbol.
#[derive(Debug, Clone)]
pub struct HistoricalDataRequest {
    pub symbol: String,
    pub end_date_time: String,
    pub duration: String,
    pub bar_size: BarSize,
    pub what_to_show: WhatToShow,
    pub use_rth: bool,
}

/// The span of one bar.
#[derive(Debug, Clone, Copy, PartialEq, Eq, Structural)]
pub enum BarSize {
    Sec1,
    Sec5,
    Sec15,
    Sec30,
    Min1,
    Min2,
    Min3,
    Min5,
    Min15,
    Min20,
    Min30,
    Hour1,
    Day1,
}

/// Which prices the bars are made of.
#[derive(Debug, Clone, Copy, PartialEq, Eq, Structural)]
pub enum WhatToShow {
    Trades,
    Midpoint,
    Bid,
    Ask,
    BidAsk,
    HistoricalVolatility,
    OptionImpliedVolatility,
}

} // verus!
