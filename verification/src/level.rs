//! One price level, and the rules by which adding and removing change it.
//!
//! The rules are stated apart from the decimal arithmetic: each takes the
//! results of the arithmetic as arguments and decides what becomes of the
//! level.

use crate::decimal::{Amount, Price};
use crate::error::{OrderBookErr, Reason};
use crate::side::Side;
use vstd::prelude::*;

verus! {

/// The aggregate quantity resting at one price on one side.
#[derive(Debug, Clone, Copy)]
pub struct Level {
    /// The price, as it was written when the level was created.
    pub price: Price,
    /// The quantity resting at the price.
    pub amount: Amount,
}

impl Level {
    /// What adding `amount` at `price` makes of the level `found` there,
    /// where `sum` is the exact sum of the level's amount and `amount`, or
    /// `None` if the decimal arithmetic did not deliver it.
    ///
    /// A missing level is created with the amount added. An existing level
    /// keeps its price as written and takes the sum; without a sum the
    /// request fails with [`Reason::ArithmeticOverflow`].
    pub open spec fn credited_with(
        found: Option<Level>,
        price: Price,
        amount: Amount,
        side: Side,
        sum: Option<Amount>,
    ) -> Result<Level, OrderBookErr> {
        match found {
            None => Ok(Level { price, amount }),
            Some(level) => match sum {
                Some(total) => Ok(Level { price: level.price, amount: total }),
                None => Err(
                    OrderBookErr::spec_new(Reason::ArithmeticOverflow, price, Some(amount), side),
                ),
            },
        }
    }

    /// What adding `amount` at `price` makes of the level `found` there.
    pub open spec fn spec_credited(found: Option<Level>, price: Price, amount: Amount, side: Side)
        -> Result<Level, OrderBookErr> {
        Self::credited_with(
            found,
            price,
            amount,
            side,
            match found {
                Some(level) => level.amount.spec_checked_add(amount),
                None => None,
            },
        )
    }

    /// What removing `amount` at `price` makes of the level `found` there,
    /// where `kept` is what the decimal arithmetic delivered for the level's
    /// amount less the difference of that amount and `amount`, or `None` if
    /// it did not deliver it exactly.
    ///
    /// Without a level the request fails with [`Reason::LevelNotFound`], and
    /// with [`Reason::InsufficientDepth`] if `amount` exceeds the level's
    /// amount. Every other request succeeds: the level keeps its price as
    /// written and its amount becomes `kept`, which is worth `amount`, or
    /// `amount` itself where there is no `kept`.
    pub open spec fn debited_with(
        found: Option<Level>,
        price: Price,
        amount: Amount,
        side: Side,
        kept: Option<Amount>,
    ) -> Result<Level, OrderBookErr> {
        match found {
            None => Err(OrderBookErr::spec_new(Reason::LevelNotFound, price, Some(amount), side)),
            Some(level) => if amount@ > level.amount@ {
                Err(OrderBookErr::spec_new(Reason::InsufficientDepth, price, Some(amount), side))
            } else {
                Ok(
                    Level {
                        price: level.price,
                        amount: match kept {
                            Some(rest) => rest,
                            None => amount,
                        },
                    },
                )
            },
        }
    }

    /// The amount that a level keeps after a removal: its amount less the
    /// difference of its amount and the amount removed.
    pub open spec fn spec_kept(self, amount: Amount) -> Option<Amount> {
        match self.amount.spec_checked_sub(amount) {
            Some(difference) => self.amount.spec_checked_sub(difference),
            None => None,
        }
    }

    /// What removing `amount` at `price` makes of the level `found` there.
    pub open spec fn spec_debited(found: Option<Level>, price: Price, amount: Amount, side: Side)
        -> Result<Level, OrderBookErr> {
        Self::debited_with(
            found,
            price,
            amount,
            side,
            match found {
                Some(level) => level.spec_kept(amount),
                None => None,
            },
        )
    }

    /// Decides what adding `amount` at `price` makes of the level `found`
    /// there, given the `sum` that the decimal arithmetic delivered.
    pub fn credited(
        found: Option<Level>,
        price: Price,
        amount: Amount,
        side: Side,
        sum: Option<Amount>,
    ) -> (r: Result<Level, OrderBookErr>)
        ensures
            r == Self::credited_with(found, price, amount, side, sum),
    {
        match found {
            None => Ok(Level { price, amount }),
            Some(level) => match sum {
                Some(total) => Ok(Level { price: level.price, amount: total }),
                None => Err(OrderBookErr::new(Reason::ArithmeticOverflow, price, Some(amount), side)),
            },
        }
    }

    /// Decides what removing `amount` at `price` makes of the level `found`
    /// there, given the amount `kept` that the decimal arithmetic delivered.
    pub fn debited(
        found: Option<Level>,
        price: Price,
        amount: Amount,
        side: Side,
        kept: Option<Amount>,
    ) -> (r: Result<Level, OrderBookErr>)
        ensures
            r == Self::debited_with(found, price, amount, side, kept),
    {
        match found {
            None => Err(OrderBookErr::new(Reason::LevelNotFound, price, Some(amount), side)),
            Some(level) => if amount > level.amount {
                Err(OrderBookErr::new(Reason::InsufficientDepth, price, Some(amount), side))
            } else {
                let rest = match kept {
                    Some(rest) => rest,
                    None => amount,
                };
                Ok(Level { price: level.price, amount: rest })
            },
        }
    }
}

} // verus!
