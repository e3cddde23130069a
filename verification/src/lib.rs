//! An aggregated price-level ledger for one instrument: the quantity resting
//! at each price, kept separately for the buy side and the sell side.
//!
//! [`OrderBook`] answers three requests: add a quantity at a price, remove a
//! quantity at a price, and tell how much rests at a price. Prices and
//! quantities are fixed-point [`Decimal`]s.

pub mod arith;
pub mod book;
pub mod decimal;
pub mod error;
pub mod ladder;
pub mod laws;
pub mod level;
pub mod order;
pub mod pow10;
pub mod render;
pub mod side;

pub use crate::book::OrderBook;
pub use crate::decimal::{Amount, Decimal, Price};
pub use crate::error::{OrderBookErr, Reason};
pub use crate::level::Level;
pub use crate::side::Side;
