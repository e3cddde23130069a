//! Addition and subtraction of decimals.
//!
//! The sums and differences themselves are computed by `rust_decimal`. Its
//! answer decides the mantissa and the scale of a result, and this module
//! does not take that answer on trust: a result is accepted only if it is in
//! range and worth exactly the sum, or the difference, of the operands. An
//! answer that was rounded to fit is turned down like an overflow.

use crate::decimal::{Decimal, OrderKey};
use crate::pow10::UNITS_PER_ONE;
use vstd::arithmetic::div_mod::lemma_fundamental_div_mod_converse;
use vstd::prelude::*;

verus! {

/// The answer of `rust_decimal`'s checked addition for the operands
/// `a_mantissa / 10^a_scale` and `b_mantissa / 10^b_scale`: the mantissa and
/// the scale of the sum it returns, or `None` where it reports an overflow.
pub uninterp spec fn decimal_sum(a_mantissa: i128, a_scale: u32, b_mantissa: i128, b_scale: u32)
    -> Option<(i128, u32)>;

/// The answer of `rust_decimal`'s checked subtraction for the operands
/// `a_mantissa / 10^a_scale` and `b_mantissa / 10^b_scale`: the mantissa and
/// the scale of the difference it returns, or `None` where it reports an
/// overflow.
pub uninterp spec fn decimal_difference(
    a_mantissa: i128,
    a_scale: u32,
    b_mantissa: i128,
    b_scale: u32,
) -> Option<(i128, u32)>;

/// Calls `rust_decimal::Decimal::checked_add` on the two operands, built with
/// `Decimal::from_i128_with_scale`, and reads the result back with
/// `Decimal::mantissa` and `Decimal::scale`.
///
/// Nothing is claimed of the answer but that it is a function of the
/// operands. The operands must be in range: the constructor panics on others.
#[verifier::external_body]
fn raw_checked_add(a_mantissa: i128, a_scale: u32, b_mantissa: i128, b_scale: u32) -> (r: Option<
    (i128, u32),
>)
    requires
        Decimal::fits(a_mantissa as int, a_scale as int),
        Decimal::fits(b_mantissa as int, b_scale as int),
    ensures
        r == decimal_sum(a_mantissa, a_scale, b_mantissa, b_scale),
{
    let a = rust_decimal::Decimal::from_i128_with_scale(a_mantissa, a_scale);
    let b = rust_decimal::Decimal::from_i128_with_scale(b_mantissa, b_scale);
    match rust_decimal::Decimal::checked_add(a, b) {
        Some(sum) => Some((sum.mantissa(), sum.scale())),
        None => None,
    }
}

/// Calls `rust_decimal::Decimal::checked_sub` on the two operands, built with
/// `Decimal::from_i128_with_scale`, and reads the result back with
/// `Decimal::mantissa` and `Decimal::scale`.
///
/// Nothing is claimed of the answer but that it is a function of the
/// operands. The operands must be in range: the constructor panics on others.
#[verifier::external_body]
fn raw_checked_sub(a_mantissa: i128, a_scale: u32, b_mantissa: i128, b_scale: u32) -> (r: Option<
    (i128, u32),
>)
    requires
        Decimal::fits(a_mantissa as int, a_scale as int),
        Decimal::fits(b_mantissa as int, b_scale as int),
    ensures
        r == decimal_difference(a_mantissa, a_scale, b_mantissa, b_scale),
{
    let a = rust_decimal::Decimal::from_i128_with_scale(a_mantissa, a_scale);
    let b = rust_decimal::Decimal::from_i128_with_scale(b_mantissa, b_scale);
    match rust_decimal::Decimal::checked_sub(a, b) {
        Some(difference) => Some((difference.mantissa(), difference.scale())),
        None => None,
    }
}

/// The position of the sum of the values at two positions. Its whole part
/// may lie beyond the range of a decimal.
fn key_of_sum(a: OrderKey, b: OrderKey) -> (k: OrderKey)
    requires
        Decimal::canonical(a),
        Decimal::canonical(b),
    ensures
        Decimal::units_of_key(k) == Decimal::units_of_key(a) + Decimal::units_of_key(b),
        k.1 < UNITS_PER_ONE,
{
    let rest: u128 = a.1 + b.1;
    if rest >= UNITS_PER_ONE {
        (a.0 + b.0 + 1, rest - UNITS_PER_ONE)
    } else {
        (a.0 + b.0, rest)
    }
}

/// The position of the difference of the values at two positions. Its whole
/// part may lie beyond the range of a decimal.
fn key_of_difference(a: OrderKey, b: OrderKey) -> (k: OrderKey)
    requires
        Decimal::canonical(a),
        Decimal::canonical(b),
    ensures
        Decimal::units_of_key(k) == Decimal::units_of_key(a) - Decimal::units_of_key(b),
        k.1 < UNITS_PER_ONE,
{
    if a.1 >= b.1 {
        (a.0 - b.0, a.1 - b.1)
    } else {
        (a.0 - b.0 - 1, a.1 + (UNITS_PER_ONE - b.1))
    }
}

/// Two positions with rests below one unit hold the same value only if they
/// are the same position.
proof fn lemma_key_unique(a: OrderKey, b: OrderKey)
    requires
        a.1 < UNITS_PER_ONE,
        b.1 < UNITS_PER_ONE,
        Decimal::units_of_key(a) == Decimal::units_of_key(b),
    ensures
        a == b,
{
    let units: int = Decimal::units_of_key(a);
    lemma_fundamental_div_mod_converse(units, UNITS_PER_ONE as int, a.0 as int, a.1 as int);
    lemma_fundamental_div_mod_converse(units, UNITS_PER_ONE as int, b.0 as int, b.1 as int);
}

impl Decimal {
    /// The decimal that an answer of the decimal arithmetic stands for, if
    /// the answer is in range and worth exactly `units`.
    pub open spec fn exact(raw: Option<(i128, u32)>, units: int) -> Option<Decimal> {
        match raw {
            Some((mantissa, scale)) => if Self::fits(mantissa as int, scale as int)
                && Self::units_of(mantissa as int, scale as int) == units {
                Some(Self::spec_from_parts(mantissa, scale))
            } else {
                None
            },
            None => None,
        }
    }

    /// The sum of two decimals as [`Decimal::checked_add`] returns it.
    pub open spec fn spec_checked_add(self, other: Decimal) -> Option<Decimal> {
        Self::exact(
            decimal_sum(
                self.spec_mantissa(),
                self.spec_scale(),
                other.spec_mantissa(),
                other.spec_scale(),
            ),
            self.units() + other.units(),
        )
    }

    /// The difference of two decimals as [`Decimal::checked_sub`] returns it.
    pub open spec fn spec_checked_sub(self, other: Decimal) -> Option<Decimal> {
        Self::exact(
            decimal_difference(
                self.spec_mantissa(),
                self.spec_scale(),
                other.spec_mantissa(),
                other.spec_scale(),
            ),
            self.units() - other.units(),
        )
    }

    /// An accepted answer is worth exactly the units asked for, and holds the
    /// mantissa and the scale that were answered.
    pub proof fn lemma_exact(raw: Option<(i128, u32)>, units: int)
        ensures
            Self::exact(raw, units) matches Some(d) ==> d.wf() && d.units() == units && raw == Some(
                (d.spec_mantissa(), d.spec_scale()),
            ),
    {
        if let Some((mantissa, scale)) = raw {
            Self::lemma_parts(mantissa, scale);
        }
    }

    /// The decimal at `target` that the answer `raw` stands for, if any.
    fn accept(raw: Option<(i128, u32)>, target: OrderKey) -> (r: Option<Decimal>)
        requires
            target.1 < UNITS_PER_ONE,
        ensures
            r == Self::exact(raw, Self::units_of_key(target)),
    {
        match raw {
            Some((mantissa, scale)) => match Decimal::new(mantissa, scale) {
                Some(d) => {
                    let k: OrderKey = d.key();
                    proof {
                        Self::lemma_parts(mantissa, scale);
                        if Self::units_of_key(k) == Self::units_of_key(target) {
                            lemma_key_unique(k, target);
                        }
                    }
                    if k.0 == target.0 && k.1 == target.1 {
                        Some(d)
                    } else {
                        None
                    }
                },
                None => None,
            },
            None => None,
        }
    }

    /// Judges the answer `raw` that the decimal arithmetic gave for the sum
    /// of `self` and `other`: the decimal it stands for, if that is in range
    /// and worth exactly the sum.
    pub fn accept_sum(self, other: Decimal, raw: Option<(i128, u32)>) -> (r: Option<Decimal>)
        ensures
            r == Self::exact(raw, self.units() + other.units()),
            r matches Some(d) ==> d.units() == self.units() + other.units(),
    {
        proof {
            Self::lemma_exact(raw, self.units() + other.units());
        }
        Self::accept(raw, key_of_sum(self.key(), other.key()))
    }

    /// Judges the answer `raw` that the decimal arithmetic gave for the
    /// difference of `self` and `other`: the decimal it stands for, if that is
    /// in range and worth exactly the difference.
    pub fn accept_difference(self, other: Decimal, raw: Option<(i128, u32)>) -> (r: Option<
        Decimal,
    >)
        ensures
            r == Self::exact(raw, self.units() - other.units()),
            r matches Some(d) ==> d.units() == self.units() - other.units(),
    {
        proof {
            Self::lemma_exact(raw, self.units() - other.units());
        }
        Self::accept(raw, key_of_difference(self.key(), other.key()))
    }

    /// The exact sum of two decimals, or `None` if the decimal arithmetic
    /// does not deliver it: on overflow, and where it could only answer with
    /// a rounded value.
    pub fn checked_add(self, other: Decimal) -> (r: Option<Decimal>)
        ensures
            r == self.spec_checked_add(other),
            r matches Some(d) ==> d.units() == self.units() + other.units(),
    {
        let raw = raw_checked_add(self.mantissa(), self.scale(), other.mantissa(), other.scale());
        self.accept_sum(other, raw)
    }

    /// The exact difference of two decimals, or `None` if the decimal
    /// arithmetic does not deliver it: on overflow, and where it could only
    /// answer with a rounded value.
    pub fn checked_sub(self, other: Decimal) -> (r: Option<Decimal>)
        ensures
            r == self.spec_checked_sub(other),
            r matches Some(d) ==> d.units() == self.units() - other.units(),
    {
        let raw = raw_checked_sub(self.mantissa(), self.scale(), other.mantissa(), other.scale());
        self.accept_difference(other, raw)
    }
}

} // verus!
