//! Orders: what is checked before one is placed, and which ones are tracked.
//!
//! Placing an order is a call into the gateway; it is the caller's. `T` is
//! what the caller keeps of a tracked order: its request, its status and its
//! times.

use crate::events::emitter::{emitted, AppEvent, AppEventView, EventEmitter};
use crate::ibkr::error::{error_text, IbkrError};
use crate::ibkr::types::orders::{carries_limit_price, OrderType};
use crate::middleware::rate_limit::{
    admits,
    charged,
    limit_of,
    rejection_message,
    retry_after_ms,
    RateLimiter,
    RateLimiterView,
};
use crate::utils::helpers::{is_valid_symbol, valid_symbol};
use crate::utils::text::{push_signed_decimal, signed_decimal};
use std::collections::HashMap;
use vstd::prelude::*;
use vstd::string::StringExecFns;

verus! {

broadcast use vstd::std_specs::hash::group_hash_axioms;

/// The endpoint whose budget orders are charged to.
pub open spec fn place_order_endpoint() -> Seq<char> {
    "place_order"@
}

/// What an order is checked for before it is placed: its symbol is valid, its
/// quantity is positive, and, where its kind carries a limit price, it has one
/// that is positive. `price_positive` is `None` for an order without a price.
pub open spec fn order_check(
    symbol: Seq<char>,
    quantity_positive: bool,
    order_type: OrderType,
    price_positive: Option<bool>,
) -> Result<(), Seq<char>> {
    if !valid_symbol(symbol) {
        Err("Invalid symbol: "@ + symbol)
    } else if !quantity_positive {
        Err("Quantity must be positive"@)
    } else if carries_limit_price(order_type) && price_positive != Some(true) {
        Err("Limit orders require a positive price"@)
    } else {
        Ok(())
    }
}

/// Whether `r` is the verdict `expected`.
pub open spec fn is_order_verdict(r: Result<(), String>, expected: Result<(), Seq<char>>) -> bool {
    match r {
        Ok(_) => expected is Ok,
        Err(m) => expected == Err::<(), Seq<char>>(m@),
    }
}

/// What is reported of an order that is not tracked.
pub open spec fn not_tracked_message(order_id: i32) -> Seq<char> {
    "Order "@ + signed_decimal(order_id as int) + " not found in tracking"@
}

/// Whether an order may go to the gateway at `now`: it has to pass the check,
/// and then to fit the budget, which is charged only for an order that
/// passed.
pub open spec fn placement_verdict(
    check: Result<(), Seq<char>>,
    limiter: RateLimiterView,
    now: u64,
) -> Result<(), Seq<char>> {
    match check {
        Err(m) => Err(m),
        Ok(_) => {
            let e = limit_of(limiter, place_order_endpoint(), now);
            if admits(e, now) {
                Ok(())
            } else {
                Err(rejection_message(place_order_endpoint(), retry_after_ms(e, now) as nat))
            }
        },
    }
}

/// The limiter after an order asked for placement at `now`.
pub open spec fn limiter_after_placement(
    check: Result<(), Seq<char>>,
    limiter: RateLimiterView,
    now: u64,
) -> RateLimiterView {
    match check {
        Err(_) => limiter,
        Ok(_) => RateLimiterView {
            limits: limiter.limits.insert(
                place_order_endpoint(),
                charged(limit_of(limiter, place_order_endpoint(), now), now),
            ),
            default_limit: limiter.default_limit,
        },
    }
}

/// Whether `t` is what `m` keeps of some order.
pub open spec fn is_tracked<T>(m: Map<i32, T>, t: T) -> bool {
    exists|id: i32| #[trigger] m.contains_key(id) && m[id] == t
}

/// The orders that were placed and are not done.
#[verifier::reject_recursive_types(T)]
pub struct TradingService<T> {
    pending_orders: HashMap<i32, T>,
}

impl<T> View for TradingService<T> {
    type V = Map<i32, T>;

    closed spec fn view(&self) -> Map<i32, T> {
        self.pending_orders@
    }
}

impl<T> TradingService<T> {
    /// No orders.
    pub fn new() -> (r: Self)
        ensures
            r@ == Map::<i32, T>::empty(),
    {
        TradingService { pending_orders: HashMap::new() }
    }

    /// Checks an order before it is placed.
    pub fn validate_order(
        symbol: &str,
        quantity_positive: bool,
        order_type: OrderType,
        price_positive: Option<bool>,
    ) -> (r: Result<(), String>)
        ensures
            is_order_verdict(r, order_check(symbol@, quantity_positive, order_type, price_positive)),
    {
        if !is_valid_symbol(symbol) {
            return Err(String::from_str("Invalid symbol: ").concat(symbol));
        }
        if !quantity_positive {
            return Err(String::from_str("Quantity must be positive"));
        }
        if order_type.requires_price() {
            let positive = match price_positive {
                Some(p) => p,
                None => false,
            };
            if !positive {
                return Err(String::from_str("Limit orders require a positive price"));
            }
        }
        Ok(())
    }

    /// Decides whether an order goes to the gateway at `now`: it is checked,
    /// and if it passes, the budget of the order endpoint is asked.
    pub fn place_order_with_validation(
        limiter: &mut RateLimiter,
        symbol: &str,
        quantity_positive: bool,
        order_type: OrderType,
        price_positive: Option<bool>,
        now: u64,
    ) -> (r: Result<(), String>)
        ensures
            is_order_verdict(
                r,
                placement_verdict(
                    order_check(symbol@, quantity_positive, order_type, price_positive),
                    old(limiter)@,
                    now,
                ),
            ),
            final(limiter)@ == limiter_after_placement(
                order_check(symbol@, quantity_positive, order_type, price_positive),
                old(limiter)@,
                now,
            ),
    {
        match Self::validate_order(symbol, quantity_positive, order_type, price_positive) {
            Err(m) => Err(m),
            Ok(_) => match limiter.check_and_update_at("place_order", now) {
                Ok(_) => Ok(()),
                Err(m) => Err(m),
            },
        }
    }

    /// Tracks the order that the gateway took under `order_id`, and tells the
    /// observers.
    pub fn order_placed(
        &mut self,
        emitter: &mut EventEmitter,
        order_id: i32,
        symbol: &str,
        tracker: T,
    )
        ensures
            final(self)@ == old(self)@.insert(order_id, tracker),
            final(emitter)@ == emitted(
                old(emitter)@,
                AppEventView::OrderPlaced { order_id, symbol: symbol@ },
            ),
    {
        self.pending_orders.insert(order_id, tracker);
        let _ = emitter.emit(AppEvent::OrderPlaced { order_id, symbol: symbol.to_owned() });
    }

    /// Tells the observers that the gateway did not take an order, and returns
    /// the failure as text.
    pub fn order_failed(emitter: &mut EventEmitter, error: &IbkrError) -> (r: String)
        ensures
            r@ == error_text(error@),
            final(emitter)@ == emitted(
                old(emitter)@,
                AppEventView::OrderError { order_id: None, error: error_text(error@) },
            ),
    {
        let _ = emitter.emit(AppEvent::OrderError { order_id: None, error: error.to_string() });
        error.to_string()
    }

    /// What is kept of the order `order_id`, if it is tracked.
    pub fn get(&self, order_id: i32) -> (r: Option<&T>)
        ensures
            match r {
                Some(t) => self@.contains_key(order_id) && *t == self@[order_id],
                None => !self@.contains_key(order_id),
            },
    {
        self.pending_orders.get(&order_id)
    }

    /// Stops tracking the order `order_id` and tells the observers. An order
    /// that is not tracked cannot be cancelled.
    pub fn cancel_order(&mut self, emitter: &mut EventEmitter, order_id: i32) -> (r: Result<
        (),
        String,
    >)
        ensures
            final(self)@ == old(self)@.remove(order_id),
            old(self)@.contains_key(order_id) ==> r is Ok && final(emitter)@ == emitted(
                old(emitter)@,
                AppEventView::OrderCancelled { order_id },
            ),
            !old(self)@.contains_key(order_id) ==> r is Err && r->Err_0@ == not_tracked_message(
                order_id,
            ) && final(emitter)@ == old(emitter)@,
    {
        match self.pending_orders.remove(&order_id) {
            Some(_) => {
                let _ = emitter.emit(AppEvent::OrderCancelled { order_id });
                Ok(())
            },
            None => {
                let mut message = String::from_str("Order ");
                push_signed_decimal(&mut message, order_id as i64);
                message.append(" not found in tracking");
                Err(message)
            },
        }
    }

    /// What is kept of every tracked order, each once.
    pub fn get_pending_orders(&self) -> (r: Vec<&T>)
        ensures
            self@.dom().finite(),
            r@.len() == self@.dom().len(),
            forall|i: int| 0 <= i < r@.len() ==> is_tracked(self@, *(#[trigger] r@[i])),
    {
        let mut out: Vec<&T> = Vec::new();
        for tracker in it: self.pending_orders.values()
            invariant
                out@.len() == it.index(),
                it.seq().unref().to_set() == self.pending_orders@.values(),
                it.seq().len() == self.pending_orders@.dom().len(),
                forall|j: int| 0 <= j < out@.len() ==> is_tracked(self@, *(#[trigger] out@[j])),
        {
            proof {
                assert(it.seq().unref()[it.index() as int] == *tracker);
                assert(it.seq().unref().to_set().contains(*tracker));
                assert(self.pending_orders@.values().contains(*tracker));
                let id = choose|id: i32|
                    #[trigger] self.pending_orders@.dom().contains(id) && self.pending_orders@[id]
                        == *tracker;
                assert(self@.contains_key(id) && self@[id] == *tracker);
            }
            out.push(tracker);
        }
        out
    }

    /// Puts `tracker` in place of what is kept of the order `order_id`, if it
    /// is tracked. With `filled`, the order went from open to done with this
    /// update, and the observers are told of it with the filled quantity that
    /// `filled` holds, as JSON text. Returns whether the order is tracked.
    pub fn update_order_status(
        &mut self,
        emitter: &mut EventEmitter,
        order_id: i32,
        tracker: T,
        filled: Option<String>,
    ) -> (r: bool)
        ensures
            r == old(self)@.contains_key(order_id),
            final(self)@ == if r {
                old(self)@.insert(order_id, tracker)
            } else {
                old(self)@
            },
            final(emitter)@ == match filled {
                Some(quantity) => if r {
                    emitted(
                        old(emitter)@,
                        AppEventView::OrderFilled { order_id, filled_qty: quantity@ },
                    )
                } else {
                    old(emitter)@
                },
                None => old(emitter)@,
            },
    {
        if self.pending_orders.contains_key(&order_id) {
            self.pending_orders.insert(order_id, tracker);
            match filled {
                Some(filled_qty) => {
                    let _ = emitter.emit(AppEvent::OrderFilled { order_id, filled_qty });
                },
                None => {},
            }
            true
        } else {
            false
        }
    }
}

} // verus!
