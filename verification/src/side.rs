//! The two sides of a book.

use vstd::prelude::*;

verus! {

/// The side of the book that an operation addresses.
#[derive(Debug, PartialEq, Eq, Structural, Clone, Copy)]
pub enum Side {
    /// The bid side: resting interest to buy.
    Buy,
    /// The ask side: resting interest to sell.
    Sell,
}

} // verus!
