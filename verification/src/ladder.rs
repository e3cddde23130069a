//! One side of the book: its price levels, in the numeric order of their
//! prices.

use crate::decimal::{Decimal, OrderKey, Price, MAX_MANTISSA};
use crate::level::Level;
use crate::pow10::UNITS_PER_ONE;
use crate::order::lemma_key_order;
use std::collections::BTreeMap;
use vstd::prelude::*;
use vstd::std_specs::btree::increasing_seq;
use vstd::std_specs::cmp::OrdSpec;
use vstd::std_specs::iter::IteratorSpec;

verus! {

/// The price levels of one side, at most one for each numeric price.
///
/// Its view maps the units of a price to the level at that price.
pub struct Ladder {
    levels: BTreeMap<OrderKey, Level>,
}

/// Whether `units` is within the span of values that decimals cover.
spec fn in_span(units: int) -> bool {
    -MAX_MANTISSA * UNITS_PER_ONE <= units <= MAX_MANTISSA * UNITS_PER_ONE
}

/// Whether `level` is in range and stands at the position of its own price.
spec fn filed(key: OrderKey, level: Level) -> bool {
    &&& level.price.wf()
    &&& level.amount.wf()
    &&& level.price.spec_key() == key
}

/// The levels of a tree by the units of their prices.
spec fn by_units(tree: Map<OrderKey, Level>) -> Map<int, Level> {
    Map::new(
        |units: int| in_span(units) && tree.contains_key(Decimal::key_of_units(units)),
        |units: int| tree[Decimal::key_of_units(units)],
    )
}

/// Filing a level at the position of a price files it under the price's
/// units.
proof fn lemma_by_units_insert(tree: Map<OrderKey, Level>, price: Price, level: Level)
    requires
        price.wf(),
    ensures
        by_units(tree.insert(price.spec_key(), level)) == by_units(tree).insert(price@, level),
{
    price.lemma_units_bound();
    assert forall|units: int| in_span(units) implies (Decimal::key_of_units(units)
        == price.spec_key() <==> units == price@) by {
        Decimal::lemma_key_units(units);
    }
    assert(by_units(tree.insert(price.spec_key(), level)) =~= by_units(tree).insert(
        price@,
        level,
    ));
}

impl View for Ladder {
    type V = Map<int, Level>;

    closed spec fn view(&self) -> Map<int, Level> {
        by_units(self.levels@)
    }
}

impl Ladder {
    #[verifier::type_invariant]
    spec fn inv(self) -> bool {
        forall|key: OrderKey| #[trigger]
            self.levels@.contains_key(key) ==> filed(key, self.levels@[key])
    }

    /// Whether every level of `levels` is in range and stands under the
    /// units of its own price. The view of every ladder is.
    pub open spec fn sound(levels: Map<int, Level>) -> bool {
        forall|units: int| #[trigger]
            levels.contains_key(units) ==> {
                &&& levels[units].price.wf()
                &&& levels[units].amount.wf()
                &&& levels[units].price@ == units
            }
    }

    /// The level at `units`, if there is one.
    pub open spec fn level_at(levels: Map<int, Level>, units: int) -> Option<Level> {
        if levels.contains_key(units) {
            Some(levels[units])
        } else {
            None
        }
    }

    /// Whether `listing` holds exactly the levels of `levels`, each once, by
    /// ascending price.
    pub open spec fn lists(listing: Seq<Level>, levels: Map<int, Level>) -> bool {
        &&& forall|i: int, j: int|
            0 <= i < j < listing.len() ==> (#[trigger] listing[i]).price@ < (
            #[trigger] listing[j]).price@
        &&& forall|i: int|
            0 <= i < listing.len() ==> Self::level_at(levels, (#[trigger] listing[i]).price@)
                == Some(listing[i])
        &&& forall|units: int| #[trigger]
            levels.contains_key(units) ==> exists|i: int|
                0 <= i < listing.len() && (#[trigger] listing[i]).price@ == units
    }

    /// A ladder without levels.
    pub fn new() -> (r: Ladder)
        ensures
            r@ == Map::<int, Level>::empty(),
            Self::sound(r@),
    {
        let r = Ladder { levels: BTreeMap::new() };
        assert(r@ =~= Map::<int, Level>::empty());
        r
    }

    /// Recalls that the view of every ladder is sound. It computes nothing.
    pub fn recall_sound(&self)
        ensures
            Self::sound(self@),
    {
        proof {
            use_type_invariant(self);
            self.lemma_sound();
        }
    }

    /// The level at the numeric value of `price`, if there is one.
    pub fn find(&self, price: Price) -> (r: Option<Level>)
        ensures
            r == Self::level_at(self@, price@),
            Self::sound(self@),
    {
        proof {
            use_type_invariant(self);
            use_type_invariant(price);
            price.lemma_units_bound();
            self.lemma_sound();
        }
        let key: OrderKey = price.key();
        match self.levels.get(&key) {
            Some(level) => Some(*level),
            None => None,
        }
    }

    /// Files `level` under its price, in place of the level that stood at
    /// that numeric price, if there was one.
    pub fn store(&mut self, level: Level)
        ensures
            final(self)@ == old(self)@.insert(level.price@, level),
            Self::sound(final(self)@),
    {
        proof {
            use_type_invariant(&*self);
            use_type_invariant(level.price);
            use_type_invariant(level.amount);
            lemma_by_units_insert(self.levels@, level.price, level);
        }
        let key: OrderKey = level.price.key();
        // The tree is taken out while it changes: the ladder holds an empty
        // one meanwhile, which keeps its invariant.
        let mut tree: BTreeMap<OrderKey, Level> = BTreeMap::new();
        core::mem::swap(&mut self.levels, &mut tree);
        tree.insert(key, level);
        core::mem::swap(&mut self.levels, &mut tree);
        proof {
            use_type_invariant(&*self);
            self.lemma_sound();
        }
    }

    /// The levels of the ladder, by ascending price.
    pub fn ascending(&self) -> (r: Vec<Level>)
        ensures
            Self::lists(r@, self@),
    {
        proof {
            use_type_invariant(self);
        }
        let mut out: Vec<Level> = Vec::new();
        let ghost all: Seq<(&OrderKey, &Level)> = self.levels.iter().remaining();
        for entry in it: self.levels.iter()
            invariant
                it.seq() == all,
                out@.len() == it.index(),
                forall|i: int| 0 <= i < out@.len() ==> out@[i] == *(#[trigger] all[i]).1,
        {
            out.push(*entry.1);
        }
        proof {
            self.lemma_listing(all, out@);
        }
        out
    }

    /// The view of a ladder that keeps its invariant is sound.
    proof fn lemma_sound(self)
        requires
            self.inv(),
        ensures
            Self::sound(self@),
    {
        assert forall|units: int| #[trigger] self@.contains_key(units) implies {
            &&& self@[units].price.wf()
            &&& self@[units].amount.wf()
            &&& self@[units].price@ == units
        } by {
            let key: OrderKey = Decimal::key_of_units(units);
            assert(self.levels@.contains_key(key));
            Decimal::lemma_key_units(units);
            self@[units].price.lemma_units_bound();
        }
    }

    /// What the tree hands out in its own order lists the ladder.
    proof fn lemma_listing(self, all: Seq<(&OrderKey, &Level)>, out: Seq<Level>)
        requires
            self.inv(),
            all == self.levels.iter().remaining(),
            increasing_seq(all.map_values(|entry: (&OrderKey, &Level)| *entry.0)),
            out.len() == all.len(),
            forall|i: int| 0 <= i < out.len() ==> out[i] == *(#[trigger] all[i]).1,
        ensures
            Self::lists(out, self@),
    {
        let tree = self.levels@;
        let keys = all.map_values(|entry: (&OrderKey, &Level)| *entry.0);
        self.lemma_sound();
        assert forall|i: int| 0 <= i < out.len() implies tree.contains_key(#[trigger] keys[i])
            && tree[keys[i]] == out[i] by {
            assert(tree.contains_key(*all[i].0));
        }
        assert forall|i: int| 0 <= i < out.len() implies Self::level_at(
            self@,
            (#[trigger] out[i]).price@,
        ) == Some(out[i]) by {
            assert(tree.contains_key(keys[i]));
            out[i].price.lemma_units_bound();
        }
        assert forall|i: int, j: int| 0 <= i < j < out.len() implies (#[trigger] out[i]).price@ < (
        #[trigger] out[j]).price@ by {
            assert(tree.contains_key(keys[i]));
            assert(tree.contains_key(keys[j]));
            out[i].price.lemma_units_bound();
            out[j].price.lemma_units_bound();
            lemma_increasing(keys, i, j);
            lemma_key_order(keys[i], keys[j]);
        }
        assert forall|units: int| #[trigger] self@.contains_key(units) implies exists|i: int|
            0 <= i < out.len() && (#[trigger] out[i]).price@ == units by {
            let key: OrderKey = Decimal::key_of_units(units);
            assert(tree.contains_key(key));
            assert(all.contains((&key, &tree[key])));
            let i: int = choose|i: int| 0 <= i < all.len() && all[i] == (&key, &tree[key]);
            assert(out[i] == tree[key]);
            assert(out[i].price@ == units);
        }
    }
}

/// In a sequence that the tree calls increasing, an earlier position comes
/// before a later one, whole part first.
proof fn lemma_increasing(keys: Seq<OrderKey>, i: int, j: int)
    requires
        increasing_seq(keys),
        0 <= i < j < keys.len(),
    ensures
        keys[i].0 < keys[j].0 || (keys[i].0 == keys[j].0 && keys[i].1 < keys[j].1),
{
    assert(keys[i].cmp_spec(&keys[j]) is Less);
}

} // verus!
