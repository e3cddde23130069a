//! What the ledger reports when it turns an operation down.

use crate::decimal::{Amount, Price};
use crate::side::Side;
use vstd::prelude::*;

verus! {

/// Why an operation was turned down.
#[derive(Debug, PartialEq, Eq, Structural, Clone, Copy)]
pub enum Reason {
    /// No level exists at the price on the side that was asked for.
    LevelNotFound,
    /// The level holds less than the amount to be removed.
    InsufficientDepth,
    /// The decimal arithmetic could not deliver the exact sum of a level's
    /// amount and the amount to be added.
    ArithmeticOverflow,
}

/// A failed operation: the reason, and the request that met it.
#[derive(Debug, Clone, Copy)]
pub struct OrderBookErr {
    /// Why the operation failed.
    pub reason: Reason,
    /// The price of the request.
    pub price: Option<Price>,
    /// The amount of the request, where it had one.
    pub amount: Option<Amount>,
    /// The side of the request.
    pub side: Side,
}

impl OrderBookErr {
    /// The failure of a request at `price` on `side` for the given `reason`.
    pub open spec fn spec_new(reason: Reason, price: Price, amount: Option<Amount>, side: Side)
        -> OrderBookErr {
        OrderBookErr { reason, price: Some(price), amount, side }
    }

    /// The failure of a request at `price` on `side` for the given `reason`.
    pub fn new(reason: Reason, price: Price, amount: Option<Amount>, side: Side) -> (e:
        OrderBookErr)
        ensures
            e == Self::spec_new(reason, price, amount, side),
    {
        OrderBookErr { reason, price: Some(price), amount, side }
    }
}

} // verus!
