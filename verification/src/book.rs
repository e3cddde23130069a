//! The ledger: the quantity resting at each price, for the bids and for the
//! asks.
//!
//! A level comes into being with the first amount added at its price and is
//! never taken away again, whatever its amount becomes. Prices are told apart
//! by numeric value: `1.0` and `1.00` name the same level.
//!
//! Removing does not subtract. The request must not exceed the level, and
//! the level then keeps its amount less the difference of the two, which is
//! worth the amount asked for: a level of 10 from which 3 is removed holds 3.
//! A removal within the level never fails.
//!
//! What a level holds is exact. A sum that the decimal type cannot hold
//! without rounding fails the request to add and leaves the book as it was.

use crate::decimal::{Amount, Price};
use crate::error::{OrderBookErr, Reason};
use crate::ladder::Ladder;
use crate::level::Level;
use crate::side::Side;
use vstd::prelude::*;

verus! {

/// The price levels of one instrument, bids and asks apart.
pub struct OrderBook {
    bids: Ladder,
    asks: Ladder,
}

/// What a book holds: for each side, the level at each price, by the units
/// of the price.
pub struct BookView {
    /// The levels of the buy side.
    pub bids: Map<int, Level>,
    /// The levels of the sell side.
    pub asks: Map<int, Level>,
}

impl BookView {
    /// The levels of `side`.
    pub open spec fn levels(self, side: Side) -> Map<int, Level> {
        match side {
            Side::Buy => self.bids,
            Side::Sell => self.asks,
        }
    }

    /// The level of `side` at `units`, if there is one.
    pub open spec fn level(self, side: Side, units: int) -> Option<Level> {
        Ladder::level_at(self.levels(side), units)
    }

    /// This book with `level` at `units` on `side`, and all else unchanged.
    pub open spec fn with_level(self, side: Side, units: int, level: Level) -> BookView {
        match side {
            Side::Buy => BookView { bids: self.bids.insert(units, level), asks: self.asks },
            Side::Sell => BookView { bids: self.bids, asks: self.asks.insert(units, level) },
        }
    }

    /// Whether every level is in range and stands under the units of its own
    /// price. The view of every book is.
    pub open spec fn sound(self) -> bool {
        Ladder::sound(self.bids) && Ladder::sound(self.asks)
    }

    /// The book without levels.
    pub open spec fn empty() -> BookView {
        BookView { bids: Map::empty(), asks: Map::empty() }
    }

    /// What a request to add `amount` at `price` on `side` returns.
    pub open spec fn add_result(self, price: Price, amount: Amount, side: Side) -> Result<
        (),
        OrderBookErr,
    > {
        match Level::spec_credited(self.level(side, price@), price, amount, side) {
            Ok(_) => Ok(()),
            Err(e) => Err(e),
        }
    }

    /// The book that a request to add `amount` at `price` on `side` leaves:
    /// this book with the level that the request makes, or this book as it
    /// is where the request fails.
    pub open spec fn after_add(self, price: Price, amount: Amount, side: Side) -> BookView {
        match Level::spec_credited(self.level(side, price@), price, amount, side) {
            Ok(level) => self.with_level(side, price@, level),
            Err(_) => self,
        }
    }

    /// What a request to remove `amount` at `price` on `side` returns.
    pub open spec fn remove_result(self, price: Price, amount: Amount, side: Side) -> Result<
        (),
        OrderBookErr,
    > {
        match Level::spec_debited(self.level(side, price@), price, amount, side) {
            Ok(_) => Ok(()),
            Err(e) => Err(e),
        }
    }

    /// The book that a request to remove `amount` at `price` on `side`
    /// leaves: this book with the level that the request makes, or this book
    /// as it is where the request fails.
    pub open spec fn after_remove(self, price: Price, amount: Amount, side: Side) -> BookView {
        match Level::spec_debited(self.level(side, price@), price, amount, side) {
            Ok(level) => self.with_level(side, price@, level),
            Err(_) => self,
        }
    }

    /// What a request for the amount at `price` on `side` returns.
    pub open spec fn amount_result(self, price: Price, side: Side) -> Result<
        Amount,
        OrderBookErr,
    > {
        match self.level(side, price@) {
            Some(level) => Ok(level.amount),
            None => Err(OrderBookErr::spec_new(Reason::LevelNotFound, price, None, side)),
        }
    }
}

/// The levels that a listing of prices and amounts stands for.
pub open spec fn levels_of(listing: Seq<(Price, Amount)>) -> Seq<Level> {
    listing.map_values(|entry: (Price, Amount)| Level { price: entry.0, amount: entry.1 })
}

impl View for OrderBook {
    type V = BookView;

    closed spec fn view(&self) -> BookView {
        BookView { bids: self.bids@, asks: self.asks@ }
    }
}

impl OrderBook {
    /// A book without levels.
    pub fn new() -> (r: OrderBook)
        ensures
            r@ == BookView::empty(),
            r@.sound(),
    {
        OrderBook { bids: Ladder::new(), asks: Ladder::new() }
    }

    /// The level of `side` at the numeric value of `price`, if there is one.
    pub fn find(&self, price: Price, side: Side) -> (r: Option<Level>)
        ensures
            r == self@.level(side, price@),
            self@.sound(),
    {
        self.bids.recall_sound();
        self.asks.recall_sound();
        match side {
            Side::Buy => self.bids.find(price),
            Side::Sell => self.asks.find(price),
        }
    }

    /// Files `level` under its price on `side`.
    fn store(&mut self, level: Level, side: Side)
        requires
            old(self)@.sound(),
        ensures
            final(self)@ == old(self)@.with_level(side, level.price@, level),
            final(self)@.sound(),
    {
        match side {
            Side::Buy => self.bids.store(level),
            Side::Sell => self.asks.store(level),
        }
    }

    /// Adds `amount` to the level at `price` on `side`, and creates the level
    /// with that amount if there is none.
    ///
    /// An existing level keeps its price as written and takes the exact sum
    /// of its amount and `amount`. Where the decimal arithmetic does not
    /// deliver that sum, the request fails with
    /// [`Reason::ArithmeticOverflow`] and the book stays as it was. Creating
    /// a level never fails.
    pub fn add(&mut self, price: Price, amount: Amount, side: Side) -> (r: Result<
        (),
        OrderBookErr,
    >)
        ensures
            r == old(self)@.add_result(price, amount, side),
            final(self)@ == old(self)@.after_add(price, amount, side),
            old(self)@.level(side, price@) is None ==> r is Ok,
            r is Ok ==> final(self)@.level(side, price@).unwrap().amount@ == amount@ + (match old(
                self,
            )@.level(side, price@) {
                Some(level) => level.amount@,
                None => 0,
            }),
            final(self)@.sound(),
    {
        let found = self.find(price, side);
        let sum = match found {
            Some(level) => level.amount.checked_add(amount),
            None => None,
        };
        match Level::credited(found, price, amount, side, sum) {
            Ok(level) => {
                self.store(level, side);
                Ok(())
            },
            Err(e) => Err(e),
        }
    }

    /// Removes `amount` at `price` on `side`.
    ///
    /// Fails with [`Reason::LevelNotFound`] if there is no level at the
    /// price, and with [`Reason::InsufficientDepth`] if `amount` exceeds the
    /// level's amount; a failed request leaves the book as it was. Every
    /// other request succeeds. The level's amount then becomes its amount
    /// less the difference of the two, which is worth `amount`; where the
    /// decimal arithmetic does not deliver that exactly, the level takes
    /// `amount` as it is written. The level stays in the book, also with an
    /// amount of zero.
    pub fn remove(&mut self, price: Price, amount: Amount, side: Side) -> (r: Result<
        (),
        OrderBookErr,
    >)
        ensures
            r == old(self)@.remove_result(price, amount, side),
            final(self)@ == old(self)@.after_remove(price, amount, side),
            r is Ok <==> (old(self)@.level(side, price@) matches Some(level) && amount@
                <= level.amount@),
            r is Ok ==> final(self)@.level(side, price@).unwrap().amount@ == amount@,
            final(self)@.sound(),
    {
        let found = self.find(price, side);
        let difference = match found {
            Some(level) => level.amount.checked_sub(amount),
            None => None,
        };
        let kept = match (found, difference) {
            (Some(level), Some(less)) => level.amount.checked_sub(less),
            _ => None,
        };
        match Level::debited(found, price, amount, side, kept) {
            Ok(level) => {
                self.store(level, side);
                Ok(())
            },
            Err(e) => Err(e),
        }
    }

    /// The amount of the level at `price` on `side`.
    ///
    /// Fails with [`Reason::LevelNotFound`], and no amount in the error, if
    /// there is no level at the price.
    pub fn get_amount(&self, price: Price, side: Side) -> (r: Result<Amount, OrderBookErr>)
        ensures
            r == self@.amount_result(price, side),
    {
        match self.find(price, side) {
            Some(level) => Ok(level.amount),
            None => Err(OrderBookErr::new(Reason::LevelNotFound, price, None, side)),
        }
    }

    /// The bids: each level of the buy side once, with its price as written
    /// and its amount, by ascending price. The best bid comes last: read the
    /// listing in reverse for the best bid first.
    pub fn get_bids(&self) -> (r: Vec<(Price, Amount)>)
        ensures
            Ladder::lists(levels_of(r@), self@.bids),
            forall|i: int, j: int|
                0 <= i < j < r@.len() ==> (#[trigger] r@[i]).0@ < (#[trigger] r@[j]).0@,
    {
        Self::listing(&self.bids)
    }

    /// The asks: each level of the sell side once, with its price as written
    /// and its amount, by ascending price. The best ask comes first.
    pub fn get_asks(&self) -> (r: Vec<(Price, Amount)>)
        ensures
            Ladder::lists(levels_of(r@), self@.asks),
            forall|i: int, j: int|
                0 <= i < j < r@.len() ==> (#[trigger] r@[i]).0@ < (#[trigger] r@[j]).0@,
    {
        Self::listing(&self.asks)
    }

    /// The levels of one side as prices and amounts, by ascending price.
    fn listing(ladder: &Ladder) -> (r: Vec<(Price, Amount)>)
        ensures
            Ladder::lists(levels_of(r@), ladder@),
            forall|i: int, j: int|
                0 <= i < j < r@.len() ==> (#[trigger] r@[i]).0@ < (#[trigger] r@[j]).0@,
    {
        let levels = ladder.ascending();
        let mut out: Vec<(Price, Amount)> = Vec::new();
        let mut at: usize = 0;
        while at < levels.len()
            invariant
                at <= levels@.len(),
                out@.len() == at,
                forall|i: int| 0 <= i < at ==> levels_of(out@)[i] == #[trigger] levels@[i],
            decreases levels@.len() - at,
        {
            let level = levels[at];
            out.push((level.price, level.amount));
            at = at + 1;
        }
        proof {
            assert(levels_of(out@) =~= levels@);
            assert forall|i: int, j: int| 0 <= i < j < out@.len() implies (#[trigger] out@[i]).0@
                < (#[trigger] out@[j]).0@ by {
                assert(levels_of(out@)[i] == levels@[i]);
                assert(levels_of(out@)[j] == levels@[j]);
            }
        }
        out
    }
}

} // verus!
