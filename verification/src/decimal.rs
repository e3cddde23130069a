//! Fixed-point decimal numbers: a signed 96-bit mantissa and a scale of up to
//! 28 digits after the point.
//!
//! Every such number is a whole multiple of `10^-28`. The library reasons
//! about a decimal through that multiple, its [`Decimal::units`]: two decimals
//! are numerically equal exactly when their units are, whatever their scales.

use crate::pow10::{
    lemma_pow10_adds, lemma_pow10_max, lemma_pow10_monotonic, lemma_pow10_positive, pow10,
    pow10_exec, MAX_SCALE, UNITS_PER_ONE,
};
use vstd::arithmetic::div_mod::lemma_fundamental_div_mod_converse;
use vstd::prelude::*;

verus! {

/// The largest magnitude of a mantissa: `2^96 - 1`.
pub const MAX_MANTISSA: i128 = 79_228_162_514_264_337_593_543_950_335;

/// A fixed-point decimal number, `mantissa / 10^scale`.
#[derive(Debug, Clone, Copy)]
pub struct Decimal {
    mantissa: i128,
    scale: u32,
}

/// A price tier.
pub type Price = Decimal;

/// A quantity resting at a price.
pub type Amount = Decimal;

/// Where a decimal stands in the numeric order: the whole part, rounded
/// towards negative infinity, and the rest in units of `10^-28`.
pub type OrderKey = (i128, u128);

impl View for Decimal {
    type V = int;

    /// The numeric value, in units of `10^-28`.
    open spec fn view(&self) -> int {
        self.units()
    }
}

impl Decimal {
    /// The mantissa.
    pub closed spec fn spec_mantissa(self) -> i128 {
        self.mantissa
    }

    /// The scale: the number of digits after the point.
    pub closed spec fn spec_scale(self) -> u32 {
        self.scale
    }

    /// The decimal with the given mantissa and scale.
    pub closed spec fn spec_from_parts(mantissa: i128, scale: u32) -> Decimal {
        Decimal { mantissa, scale }
    }

    /// Whether a mantissa and a scale are within the range of the type.
    pub open spec fn fits(mantissa: int, scale: int) -> bool {
        &&& -MAX_MANTISSA <= mantissa <= MAX_MANTISSA
        &&& 0 <= scale <= MAX_SCALE
    }

    /// The value of `mantissa / 10^scale` in units of `10^-28`.
    pub open spec fn units_of(mantissa: int, scale: int) -> int {
        mantissa * pow10((MAX_SCALE - scale) as nat)
    }

    /// Whether this value is within the range of the type. Every decimal that
    /// executable code can hold is.
    pub open spec fn wf(self) -> bool {
        Self::fits(self.spec_mantissa() as int, self.spec_scale() as int)
    }

    /// The invariant of the type: the value is within range.
    #[verifier::type_invariant]
    pub open spec fn inv(self) -> bool {
        self.wf()
    }

    /// The numeric value, in units of `10^-28`.
    pub open spec fn units(self) -> int {
        Self::units_of(self.spec_mantissa() as int, self.spec_scale() as int)
    }

    /// The position of this value in the numeric order.
    pub open spec fn spec_key(self) -> OrderKey {
        Self::key_of_units(self.units())
    }

    /// The position of `units` in the numeric order.
    pub open spec fn key_of_units(units: int) -> OrderKey {
        ((units / (UNITS_PER_ONE as int)) as i128, (units % (UNITS_PER_ONE as int)) as u128)
    }

    /// The value, in units of `10^-28`, that stands at `key`.
    pub open spec fn units_of_key(key: OrderKey) -> int {
        key.0 * UNITS_PER_ONE + key.1
    }

    /// Whether `key` is the position of some decimal's value.
    pub open spec fn canonical(key: OrderKey) -> bool {
        &&& -MAX_MANTISSA - 1 <= key.0 <= MAX_MANTISSA
        &&& key.1 < UNITS_PER_ONE
    }

    /// A decimal is determined by its mantissa and its scale.
    pub proof fn lemma_parts(mantissa: i128, scale: u32)
        ensures
            Self::spec_from_parts(mantissa, scale).spec_mantissa() == mantissa,
            Self::spec_from_parts(mantissa, scale).spec_scale() == scale,
    {
    }

    /// A position in the numeric order and the units that stand there
    /// determine each other.
    pub proof fn lemma_key_units(units: int)
        requires
            -MAX_MANTISSA * UNITS_PER_ONE <= units <= MAX_MANTISSA * UNITS_PER_ONE,
        ensures
            Self::canonical(Self::key_of_units(units)),
            Self::units_of_key(Self::key_of_units(units)) == units,
    {
        let one: int = UNITS_PER_ONE as int;
        let q: int = units / one;
        let r: int = units % one;
        assert(units == one * q + r && 0 <= r < one) by {
            vstd::arithmetic::div_mod::lemma_fundamental_div_mod(units, one);
            vstd::arithmetic::div_mod::lemma_mod_bound(units, one);
        }
        assert(-MAX_MANTISSA - 1 <= q <= MAX_MANTISSA) by (nonlinear_arith)
            requires
                units == one * q + r,
                0 <= r < one,
                one > 0,
                -MAX_MANTISSA * one <= units <= MAX_MANTISSA * one,
        ;
    }

    /// The key of a canonical position's units is that position.
    pub proof fn lemma_units_key(key: OrderKey)
        requires
            Self::canonical(key),
        ensures
            Self::key_of_units(Self::units_of_key(key)) == key,
    {
        lemma_fundamental_div_mod_converse(
            Self::units_of_key(key),
            UNITS_PER_ONE as int,
            key.0 as int,
            key.1 as int,
        );
    }

    /// The units of a decimal in range are within `MAX_MANTISSA` ones.
    pub proof fn lemma_units_bound(self)
        requires
            self.wf(),
        ensures
            -MAX_MANTISSA * UNITS_PER_ONE <= self.units() <= MAX_MANTISSA * UNITS_PER_ONE,
            Self::canonical(self.spec_key()),
            Self::units_of_key(self.spec_key()) == self.units(),
    {
        let lift: int = pow10((MAX_SCALE - self.spec_scale()) as nat);
        let m: int = self.spec_mantissa() as int;
        lemma_pow10_positive((MAX_SCALE - self.spec_scale()) as nat);
        lemma_pow10_monotonic((MAX_SCALE - self.spec_scale()) as nat, 28);
        lemma_pow10_max();
        let one: int = UNITS_PER_ONE as int;
        assert(-MAX_MANTISSA * one <= m * lift <= MAX_MANTISSA * one) by (nonlinear_arith)
            requires
                -MAX_MANTISSA <= m <= MAX_MANTISSA,
                1 <= lift <= one,
        ;
        Self::lemma_key_units(self.units());
    }

    /// The decimal `mantissa / 10^scale`, if the two are within range.
    pub fn new(mantissa: i128, scale: u32) -> (r: Option<Decimal>)
        ensures
            r == if Self::fits(mantissa as int, scale as int) {
                Some(Self::spec_from_parts(mantissa, scale))
            } else {
                None::<Decimal>
            },
    {
        if scale <= MAX_SCALE && -MAX_MANTISSA <= mantissa && mantissa <= MAX_MANTISSA {
            Some(Decimal { mantissa, scale })
        } else {
            None
        }
    }

    /// The whole number `value`, at scale zero.
    pub fn from_int(value: i64) -> (r: Decimal)
        ensures
            r == Self::spec_from_parts(value as i128, 0),
            r.units() == value * UNITS_PER_ONE,
    {
        proof {
            lemma_pow10_max();
        }
        Decimal { mantissa: value as i128, scale: 0 }
    }

    /// The mantissa.
    pub fn mantissa(&self) -> (r: i128)
        ensures
            r == self.spec_mantissa(),
            -MAX_MANTISSA <= r <= MAX_MANTISSA,
    {
        proof {
            use_type_invariant(self);
        }
        self.mantissa
    }

    /// The scale: the number of digits after the point.
    pub fn scale(&self) -> (r: u32)
        ensures
            r == self.spec_scale(),
            r <= MAX_SCALE,
    {
        proof {
            use_type_invariant(self);
        }
        self.scale
    }

    /// The position of this value in the numeric order.
    pub fn key(&self) -> (k: OrderKey)
        ensures
            k == self.spec_key(),
            Self::canonical(k),
            Self::units_of_key(k) == self.units(),
    {
        proof {
            use_type_invariant(self);
            self.lemma_units_bound();
            lemma_pow10_adds(self.scale as nat, (MAX_SCALE - self.scale) as nat);
            lemma_pow10_max();
        }
        let divisor: u128 = pow10_exec(self.scale);
        let lift: u128 = pow10_exec(MAX_SCALE - self.scale);
        let negative: bool = self.mantissa < 0;
        let magnitude: u128 = if negative {
            (-self.mantissa) as u128
        } else {
            self.mantissa as u128
        };
        let quotient: u128 = magnitude / divisor;
        let rest: u128 = magnitude % divisor;
        assert(magnitude == quotient * divisor + rest && rest < divisor && quotient <= magnitude)
            by (nonlinear_arith)
            requires
                quotient == magnitude / divisor,
                rest == magnitude % divisor,
                divisor >= 1,
        ;
        let ghost one: int = UNITS_PER_ONE as int;
        assert(divisor * lift == one);
        let k: OrderKey = if !negative {
            assert(rest * lift < one && magnitude * lift == quotient * one + rest * lift)
                by (nonlinear_arith)
                requires
                    magnitude == quotient * divisor + rest,
                    rest < divisor,
                    divisor * lift == one,
                    lift >= 1,
            ;
            (quotient as i128, rest * lift)
        } else if rest == 0 {
            assert((-(magnitude as int)) * lift == (-(quotient as int)) * one) by (nonlinear_arith)
                requires
                    magnitude == quotient * divisor + rest,
                    rest == 0,
                    divisor * lift == one,
            ;
            (-(quotient as i128), 0)
        } else {
            assert((divisor - rest) * lift < one && (divisor - rest) * lift > 0 && (-(
            magnitude as int)) * lift == (-(quotient as int) - 1) * one + (divisor - rest) * lift)
                by (nonlinear_arith)
                requires
                    magnitude == quotient * divisor + rest,
                    0 < rest < divisor,
                    divisor * lift == one,
                    lift >= 1,
            ;
            (-(quotient as i128) - 1, (divisor - rest) * lift)
        };
        proof {
            assert(Self::units_of_key(k) == self.units());
            Self::lemma_units_key(k);
        }
        k
    }
}

} // verus!
