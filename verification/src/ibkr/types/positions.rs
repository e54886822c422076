//! Positions and kinds of securities.

use vstd::prelude::*;

verus! {

/// A holding in one security. `D` holds its figures: size, cost, price, value
/// and profit, in whatever numbers the application reckons with.
#[derive(Debug, Clone)]
pub struct Position<D> {
    pub account: String,
    pub symbol: String,
    pub figures: D,
    pub contract_type: String,
    pub currency: String,
    pub exchange: String,
    pub local_symbol: String,
}

/// The kind of a security.
#[derive(Debug, Clone, Copy, PartialEq, Eq, Structural)]
pub enum SecurityType {
    Stock,
    Option,
    Future,
    Forex,
    Combo,
    Warrant,
    Bond,
    Commodity,
    News,
    Fund,
}

} // verus!
