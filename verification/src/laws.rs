//! What holds of the ledger over whole runs of requests.

use crate::book::BookView;
use crate::decimal::{Amount, Price};
use crate::error::{OrderBookErr, Reason};
use crate::ladder::Ladder;
use crate::level::Level;
use crate::side::Side;
use vstd::prelude::*;

verus! {

/// A request that changes a book.
pub enum Request {
    /// Add `amount` at `price` on `side`.
    Add { price: Price, amount: Amount, side: Side },
    /// Remove `amount` at `price` on `side`.
    Remove { price: Price, amount: Amount, side: Side },
}

impl Request {
    /// Whether this request adds at the numeric price `units` on `side`.
    pub open spec fn adds_at(self, side: Side, units: int) -> bool {
        match self {
            Request::Add { price, amount, side: at } => at == side && price@ == units,
            Request::Remove { .. } => false,
        }
    }

    /// Whether this request is made at the numeric price `units` on `side`.
    pub open spec fn is_at(self, side: Side, units: int) -> bool {
        match self {
            Request::Add { price, amount, side: at } => at == side && price@ == units,
            Request::Remove { price, amount, side: at } => at == side && price@ == units,
        }
    }
}

/// The units that `amounts` are worth together.
pub open spec fn total(amounts: Seq<Amount>) -> int
    decreases amounts.len(),
{
    if amounts.len() == 0 {
        0
    } else {
        total(amounts.drop_last()) + amounts.last()@
    }
}

/// The units that the requests of a run add at the numeric price `units` on
/// `side`.
pub open spec fn added_at(requests: Seq<Request>, side: Side, units: int) -> int
    decreases requests.len(),
{
    if requests.len() == 0 {
        0
    } else {
        added_at(requests.drop_last(), side, units) + (match requests.last() {
            Request::Add { price, amount, side: at } => if at == side && price@ == units {
                amount@
            } else {
                0
            },
            Request::Remove { .. } => 0,
        })
    }
}

impl BookView {
    /// The book that `request` leaves.
    pub open spec fn after(self, request: Request) -> BookView {
        match request {
            Request::Add { price, amount, side } => self.after_add(price, amount, side),
            Request::Remove { price, amount, side } => self.after_remove(price, amount, side),
        }
    }

    /// The book that `requests` leave, made one after the other.
    pub open spec fn after_all(self, requests: Seq<Request>) -> BookView
        decreases requests.len(),
    {
        if requests.len() == 0 {
            self
        } else {
            self.after_all(requests.drop_last()).after(requests.last())
        }
    }

    /// The book that adding each of `amounts` in turn at `price` on `side`
    /// leaves.
    pub open spec fn after_adds(self, price: Price, amounts: Seq<Amount>, side: Side) -> BookView
        decreases amounts.len(),
    {
        if amounts.len() == 0 {
            self
        } else {
            self.after_adds(price, amounts.drop_last(), side).after_add(
                price,
                amounts.last(),
                side,
            )
        }
    }

    /// Whether each of the requests to add `amounts` in turn at `price` on
    /// `side` succeeds.
    pub open spec fn adds_succeed(self, price: Price, amounts: Seq<Amount>, side: Side) -> bool
        decreases amounts.len(),
    {
        amounts.len() > 0 ==> {
            &&& self.adds_succeed(price, amounts.drop_last(), side)
            &&& self.after_adds(price, amounts.drop_last(), side).add_result(
                price,
                amounts.last(),
                side,
            ) is Ok
        }
    }

    /// Whether every request of the run that is made at `units` on `side` is
    /// a request to add, and succeeds.
    pub open spec fn adds_there_succeed(self, requests: Seq<Request>, side: Side, units: int)
        -> bool
        decreases requests.len(),
    {
        requests.len() > 0 ==> {
            &&& self.adds_there_succeed(requests.drop_last(), side, units)
            &&& requests.last().is_at(side, units) ==> (match requests.last() {
                Request::Add { price, amount, side: at } => self.after_all(
                    requests.drop_last(),
                ).add_result(price, amount, at) is Ok,
                Request::Remove { .. } => false,
            })
        }
    }

    /// The units resting at `units` on `side`: those of the level there, and
    /// none without a level.
    pub open spec fn resting(self, side: Side, units: int) -> int {
        match self.level(side, units) {
            Some(level) => level.amount@,
            None => 0,
        }
    }
}

/// A request that succeeds in adding at a price raises what rests there by
/// the amount added, and leaves a level there.
pub proof fn lemma_add_raises(book: BookView, price: Price, amount: Amount, side: Side)
    requires
        book.add_result(price, amount, side) is Ok,
    ensures
        book.after_add(price, amount, side).level(side, price@) is Some,
        book.after_add(price, amount, side).resting(side, price@) == book.resting(side, price@)
            + amount@,
{
    if let Some(level) = book.level(side, price@) {
        crate::decimal::Decimal::lemma_exact(
            crate::arith::decimal_sum(
                level.amount.spec_mantissa(),
                level.amount.spec_scale(),
                amount.spec_mantissa(),
                amount.spec_scale(),
            ),
            level.amount@ + amount@,
        );
    }
}

/// After any run of successful requests to add at one price on one side,
/// the level at that price holds what rested there before and the sum of all
/// the amounts added. The sum does not depend on the order of the requests.
pub proof fn lemma_adds_accumulate(book: BookView, price: Price, amounts: Seq<Amount>, side: Side)
    requires
        book.adds_succeed(price, amounts, side),
    ensures
        book.after_adds(price, amounts, side).resting(side, price@) == book.resting(side, price@)
            + total(amounts),
        amounts.len() > 0 ==> book.after_adds(price, amounts, side).level(side, price@) is Some,
    decreases amounts.len(),
{
    if amounts.len() > 0 {
        lemma_adds_accumulate(book, price, amounts.drop_last(), side);
        lemma_add_raises(
            book.after_adds(price, amounts.drop_last(), side),
            price,
            amounts.last(),
            side,
        );
    }
}

/// Two amounts added at one price leave the same quantity there in either
/// order.
pub proof fn lemma_add_order(book: BookView, price: Price, a: Amount, b: Amount, side: Side)
    requires
        book.adds_succeed(price, seq![a, b], side),
        book.adds_succeed(price, seq![b, a], side),
    ensures
        book.after_adds(price, seq![a, b], side).resting(side, price@) == book.after_adds(
            price,
            seq![b, a],
            side,
        ).resting(side, price@),
{
    lemma_adds_accumulate(book, price, seq![a, b], side);
    lemma_adds_accumulate(book, price, seq![b, a], side);
    lemma_total_of_two(a, b);
    lemma_total_of_two(b, a);
}

/// The total of two amounts is the sum of their units.
proof fn lemma_total_of_two(a: Amount, b: Amount)
    ensures
        total(seq![a, b]) == a@ + b@,
{
    let both = seq![a, b];
    assert(both.drop_last() =~= seq![a]);
    assert(seq![a].drop_last() =~= Seq::<Amount>::empty());
    assert(total(seq![a]) == total(seq![a].drop_last()) + a@);
    assert(total(both) == total(both.drop_last()) + b@);
}

/// A listing of a side holds no price twice, and as many entries as the side
/// has levels.
pub proof fn lemma_listing_counts(listing: Seq<Level>, levels: Map<int, Level>)
    requires
        Ladder::lists(listing, levels),
    ensures
        forall|i: int, j: int|
            0 <= i < listing.len() && 0 <= j < listing.len() && i != j ==> (
            #[trigger] listing[i]).price@ != (#[trigger] listing[j]).price@,
        levels.dom().finite(),
        levels.dom().len() == listing.len(),
{
    let prices = listing.map_values(|level: Level| level.price@);
    assert forall|i: int, j: int|
        0 <= i < listing.len() && 0 <= j < listing.len() && i != j implies (
    #[trigger] listing[i]).price@ != (#[trigger] listing[j]).price@ by {
        if i < j {
            assert(listing[i].price@ < listing[j].price@);
        } else {
            assert(listing[j].price@ < listing[i].price@);
        }
    }
    assert(prices.no_duplicates()) by {
        assert forall|i: int, j: int|
            0 <= i < prices.len() && 0 <= j < prices.len() && i != j implies prices[i]
            != prices[j] by {
            assert(prices[i] == listing[i].price@ && prices[j] == listing[j].price@);
        }
    }
    assert(prices.to_set() =~= levels.dom()) by {
        assert forall|units: int| prices.to_set().contains(units) implies levels.dom().contains(
            units,
        ) by {
            let i: int = choose|i: int| 0 <= i < prices.len() && prices[i] == units;
            assert(Ladder::level_at(levels, listing[i].price@) == Some(listing[i]));
        }
        assert forall|units: int| levels.dom().contains(units) implies prices.to_set().contains(
            units,
        ) by {
            assert(levels.contains_key(units));
            let i: int = choose|i: int|
                0 <= i < listing.len() && (#[trigger] listing[i]).price@ == units;
            assert(prices[i] == units);
        }
    }
    prices.unique_seq_to_set();
}

/// A listing read in reverse comes by strictly descending price: so the bids
/// come best first.
pub proof fn lemma_reverse_descends(listing: Seq<Level>, levels: Map<int, Level>)
    requires
        Ladder::lists(listing, levels),
    ensures
        forall|i: int, j: int|
            0 <= i < j < listing.len() ==> (#[trigger] listing.reverse()[i]).price@ > (
            #[trigger] listing.reverse()[j]).price@,
{
    let back = listing.reverse();
    assert forall|i: int, j: int| 0 <= i < j < listing.len() implies (#[trigger] back[i]).price@
        > (#[trigger] back[j]).price@ by {
        let high: int = listing.len() - 1 - i;
        let low: int = listing.len() - 1 - j;
        assert(back[i] == listing[high] && back[j] == listing[low]);
        assert(listing[low].price@ < listing[high].price@);
    }
}

/// A request changes the levels only at its own price on its own side: the
/// level at any other price, or on the other side, is the same before and
/// after. And it takes no level away.
pub proof fn lemma_request_is_local(book: BookView, request: Request, side: Side, units: int)
    ensures
        !request.is_at(side, units) ==> book.after(request).level(side, units) == book.level(
            side,
            units,
        ),
        book.level(side, units) is Some ==> book.after(request).level(side, units) is Some,
        !request.adds_at(side, units) && book.level(side, units) is None ==> book.after(
            request,
        ).level(side, units) is None,
{
}

/// However requests at other prices and on the other side come in between,
/// the successful requests to add at one price on one side leave there what
/// rested before and the sum of all the amounts added.
pub proof fn lemma_adds_accumulate_among_others(
    book: BookView,
    requests: Seq<Request>,
    side: Side,
    units: int,
)
    requires
        book.adds_there_succeed(requests, side, units),
    ensures
        book.after_all(requests).resting(side, units) == book.resting(side, units) + added_at(
            requests,
            side,
            units,
        ),
    decreases requests.len(),
{
    if requests.len() > 0 {
        let before = book.after_all(requests.drop_last());
        lemma_adds_accumulate_among_others(book, requests.drop_last(), side, units);
        lemma_request_is_local(before, requests.last(), side, units);
        match requests.last() {
            Request::Add { price, amount, side: at } => {
                if at == side && price@ == units {
                    lemma_add_raises(before, price, amount, at);
                }
            },
            Request::Remove { .. } => {},
        }
    }
}

/// No run of requests takes a level away: a level that once stands at a
/// price stands there ever after, whatever its amount becomes.
pub proof fn lemma_levels_persist(book: BookView, requests: Seq<Request>, side: Side, units: int)
    requires
        book.level(side, units) is Some,
    ensures
        book.after_all(requests).level(side, units) is Some,
    decreases requests.len(),
{
    if requests.len() > 0 {
        lemma_levels_persist(book, requests.drop_last(), side, units);
        lemma_request_is_local(book.after_all(requests.drop_last()), requests.last(), side, units);
    }
}

/// A price at which nothing was ever added on a side has no level there:
/// asking for its amount and removing from it both fail with
/// [`Reason::LevelNotFound`], and the removal leaves the book as it was.
pub proof fn lemma_never_added(requests: Seq<Request>, price: Price, amount: Amount, side: Side)
    requires
        forall|i: int| 0 <= i < requests.len() ==> !(#[trigger] requests[i]).adds_at(side, price@),
    ensures
        ({
            let book = BookView::empty().after_all(requests);
            &&& book.level(side, price@) is None
            &&& book.amount_result(price, side) == Err::<Amount, OrderBookErr>(
                OrderBookErr::spec_new(Reason::LevelNotFound, price, None, side),
            )
            &&& book.remove_result(price, amount, side) == Err::<(), OrderBookErr>(
                OrderBookErr::spec_new(Reason::LevelNotFound, price, Some(amount), side),
            )
            &&& book.after_remove(price, amount, side) == book
        }),
    decreases requests.len(),
{
    if requests.len() > 0 {
        let before = requests.drop_last();
        assert forall|i: int| 0 <= i < before.len() implies !(#[trigger] before[i]).adds_at(
            side,
            price@,
        ) by {
            assert(before[i] == requests[i]);
        }
        lemma_never_added(before, price, amount, side);
        lemma_request_is_local(BookView::empty().after_all(before), requests.last(), side, price@);
    }
}

/// Removing more than a level holds fails with
/// [`Reason::InsufficientDepth`] and leaves the book as it was.
pub proof fn lemma_remove_beyond_depth(book: BookView, price: Price, amount: Amount, side: Side)
    requires
        book.level(side, price@) matches Some(level) && amount@ > level.amount@,
    ensures
        book.remove_result(price, amount, side) == Err::<(), OrderBookErr>(
            OrderBookErr::spec_new(Reason::InsufficientDepth, price, Some(amount), side),
        ),
        book.after_remove(price, amount, side) == book,
{
}

/// Removing no more than a level holds succeeds, and leaves the level worth
/// the amount asked for.
pub proof fn lemma_remove_within_depth(book: BookView, price: Price, amount: Amount, side: Side)
    requires
        book.level(side, price@) matches Some(level) && amount@ <= level.amount@,
    ensures
        book.remove_result(price, amount, side) is Ok,
        book.after_remove(price, amount, side).level(side, price@) matches Some(level)
            && level.amount@ == amount@,
{
    lemma_remove_keeps_level(book, price, amount, side);
}

/// A removal that succeeds leaves the level in the book, worth the amount
/// asked for: also where that is zero.
pub proof fn lemma_remove_keeps_level(book: BookView, price: Price, amount: Amount, side: Side)
    requires
        book.remove_result(price, amount, side) is Ok,
    ensures
        book.level(side, price@) is Some,
        book.after_remove(price, amount, side).level(side, price@) matches Some(level)
            && level.amount@ == amount@,
{
    let level = book.level(side, price@).unwrap();
    let raw = crate::arith::decimal_difference(
        level.amount.spec_mantissa(),
        level.amount.spec_scale(),
        amount.spec_mantissa(),
        amount.spec_scale(),
    );
    crate::decimal::Decimal::lemma_exact(raw, level.amount@ - amount@);
    let difference = level.amount.spec_checked_sub(amount).unwrap();
    crate::decimal::Decimal::lemma_exact(
        crate::arith::decimal_difference(
            level.amount.spec_mantissa(),
            level.amount.spec_scale(),
            difference.spec_mantissa(),
            difference.spec_scale(),
        ),
        level.amount@ - difference@,
    );
}

} // verus!
