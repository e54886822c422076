//! Sides and kinds of orders, and how the gateway names them.

use crate::ibkr::error::{IbkrError, IbkrErrorView};
use vstd::prelude::*;
use vstd::string::StringExecFns;

verus! {

/// The side of an order.
#[derive(Debug, Clone, Copy, PartialEq, Eq, Structural)]
pub enum OrderAction {
    Buy,
    Sell,
}

/// The kind of an order.
#[derive(Debug, Clone, Copy, PartialEq, Eq, Structural)]
pub enum OrderType {
    Market,
    Limit,
    Stop,
    StopLimit,
}

/// Whether orders of this kind carry a limit price.
pub open spec fn carries_limit_price(t: OrderType) -> bool {
    t == OrderType::Limit || t == OrderType::StopLimit
}

/// The code under which the gateway takes an order of this kind, for the
/// kinds that can be placed.
pub open spec fn order_type_code(t: OrderType) -> Option<Seq<char>> {
    match t {
        OrderType::Market => Some("MKT"@),
        OrderType::Limit => Some("LMT"@),
        _ => None,
    }
}

impl OrderType {
    /// Whether orders of this kind carry a limit price.
    pub fn requires_price(&self) -> (r: bool)
        ensures
            r == carries_limit_price(*self),
    {
        match self {
            OrderType::Limit => true,
            OrderType::StopLimit => true,
            _ => false,
        }
    }

    /// The code under which the gateway takes an order of this kind. Market
    /// and limit orders can be placed; a request for any other kind fails.
    pub fn gateway_code(&self) -> (r: Result<&'static str, IbkrError>)
        ensures
            match r {
                Ok(code) => order_type_code(*self) == Some(code@),
                Err(e) => order_type_code(*self) is None && e@ == IbkrErrorView::RequestFailed(
                    "Order type not implemented"@,
                ),
            },
    {
        match self {
            OrderType::Market => Ok("MKT"),
            OrderType::Limit => Ok("LMT"),
            _ => Err(IbkrError::RequestFailed(String::from_str("Order type not implemented"))),
        }
    }
}

} // verus!
