//! The text of an error, for logs.
//!
//! A failed request reads
//! `order book error; reason: no price level found; price: Some(70); amount: Some(5); side: Sell`.
//! The digits of a decimal are written by `rust_decimal`.

use crate::decimal::Decimal;
use crate::error::{OrderBookErr, Reason};
use crate::side::Side;
use vstd::prelude::*;
use vstd::string::*;

verus! {

/// The text that `rust_decimal` writes for the decimal
/// `mantissa / 10^scale`.
pub uninterp spec fn decimal_text(mantissa: i128, scale: u32) -> Seq<char>;

/// Builds the decimal with `rust_decimal::Decimal::from_i128_with_scale` and
/// writes it with the `Display` that `rust_decimal` gives its `Decimal`.
///
/// Nothing is claimed of the text but that it is a function of the mantissa
/// and the scale. The two must be in range: the constructor panics on others.
#[verifier::external_body]
fn raw_text(mantissa: i128, scale: u32) -> (r: String)
    requires
        Decimal::fits(mantissa as int, scale as int),
    ensures
        r@ == decimal_text(mantissa, scale),
{
    rust_decimal::Decimal::from_i128_with_scale(mantissa, scale).to_string()
}

impl Decimal {
    /// The text of this decimal.
    pub open spec fn spec_text(self) -> Seq<char> {
        decimal_text(self.spec_mantissa(), self.spec_scale())
    }

    /// The text of this decimal, as `rust_decimal` writes it: `1.50` for the
    /// mantissa 150 at scale 2.
    pub fn text(&self) -> (r: String)
        ensures
            r@ == self.spec_text(),
    {
        raw_text(self.mantissa(), self.scale())
    }
}

impl Side {
    /// The name of the side.
    pub open spec fn spec_label(self) -> Seq<char> {
        match self {
            Side::Buy => "Buy"@,
            Side::Sell => "Sell"@,
        }
    }

    /// The name of the side: `Buy` or `Sell`.
    pub fn label(&self) -> (r: &'static str)
        ensures
            r@ == self.spec_label(),
    {
        match self {
            Side::Buy => "Buy",
            Side::Sell => "Sell",
        }
    }
}

impl Reason {
    /// The reason in words.
    pub open spec fn spec_label(self) -> Seq<char> {
        match self {
            Reason::LevelNotFound => "no price level found"@,
            Reason::InsufficientDepth => "insufficient depth"@,
            Reason::ArithmeticOverflow => "arithmetic overflow"@,
        }
    }

    /// The reason in words.
    pub fn label(&self) -> (r: &'static str)
        ensures
            r@ == self.spec_label(),
    {
        match self {
            Reason::LevelNotFound => "no price level found",
            Reason::InsufficientDepth => "insufficient depth",
            Reason::ArithmeticOverflow => "arithmetic overflow",
        }
    }
}

/// How a text that may be missing is written: `Some(..)` around it, or
/// `None`.
pub open spec fn optional(text: Option<Seq<char>>) -> Seq<char> {
    match text {
        Some(inner) => "Some("@ + inner + ")"@,
        None => "None"@,
    }
}

impl OrderBookErr {
    /// The text of an error with the given reason and side, whose price and
    /// amount are written as `price` and `amount`.
    pub open spec fn spec_compose(
        reason: Reason,
        price: Option<Seq<char>>,
        amount: Option<Seq<char>>,
        side: Side,
    ) -> Seq<char> {
        "order book error; reason: "@ + reason.spec_label() + "; price: "@ + optional(price)
            + "; amount: "@ + optional(amount) + "; side: "@ + side.spec_label()
    }

    /// The text of this error.
    pub open spec fn spec_message(self) -> Seq<char> {
        Self::spec_compose(
            self.reason,
            match self.price {
                Some(price) => Some(price.spec_text()),
                None => None,
            },
            match self.amount {
                Some(amount) => Some(amount.spec_text()),
                None => None,
            },
            self.side,
        )
    }

    /// Writes an error with the given reason and side, whose price and
    /// amount have been written as `price` and `amount`.
    pub fn compose(reason: Reason, price: Option<String>, amount: Option<String>, side: Side) -> (r:
        String)
        ensures
            r@ == Self::spec_compose(
                reason,
                match price {
                    Some(text) => Some(text@),
                    None => None,
                },
                match amount {
                    Some(text) => Some(text@),
                    None => None,
                },
                side,
            ),
    {
        let mut out = String::from_str("order book error; reason: ");
        out.append(reason.label());
        out.append("; price: ");
        append_optional(&mut out, &price);
        out.append("; amount: ");
        append_optional(&mut out, &amount);
        out.append("; side: ");
        out.append(side.label());
        out
    }

    /// The text of this error, for logs.
    pub fn message(&self) -> (r: String)
        ensures
            r@ == self.spec_message(),
    {
        let price = match self.price {
            Some(price) => Some(price.text()),
            None => None,
        };
        let amount = match self.amount {
            Some(amount) => Some(amount.text()),
            None => None,
        };
        Self::compose(self.reason, price, amount, self.side)
    }
}

/// Appends a text that may be missing.
fn append_optional(out: &mut String, text: &Option<String>)
    ensures
        final(out)@ == old(out)@ + optional(
            match *text {
                Some(inner) => Some(inner@),
                None => None,
            },
        ),
{
    match text {
        Some(inner) => {
            out.append("Some(");
            out.append(inner.as_str());
            out.append(")");
        },
        None => {
            out.append("None");
        },
    }
}

} // verus!
