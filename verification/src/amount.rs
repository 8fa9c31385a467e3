//! Exact, non-negative monetary amounts at a fixed scale.
//!
//! An amount is a whole number of the smallest unit, one ten-thousandth.
//! Arithmetic is integer arithmetic on that number, so it never rounds;
//! what does not fit is reported, never wrapped.

use crate::config::{MAX_DECIMAL_PLACES, MAX_UNITS};
use crate::decimal::{
    decimal_text, exact_decimal, parse_exact, round_half_away, to_text, MAX_MANTISSA, MAX_SCALE,
};
use vstd::prelude::*;

verus! {

/// A non-negative amount of money. Its view is the number of smallest units
/// it holds.
#[derive(Clone, Copy, Debug, PartialEq, Eq, Structural)]
pub struct Amount {
    units: u128,
}

/// Why an amount could not be made or computed.
#[derive(Clone, Copy, Debug, PartialEq, Eq)]
pub enum AmountError {
    /// The text is not a decimal number.
    Malformed,
    /// The decimal has more fractional digits than an amount may carry;
    /// holds its scale.
    TooManyDecimalPlaces(u32),
    /// The decimal is below zero; holds its mantissa and scale.
    NegativeValue(i128, u32),
    /// The value is larger than an amount can hold.
    Overflow,
    /// The subtraction would go below zero; holds both operands.
    SubtractToNegative(Amount, Amount),
}

/// Whether the parts are those of a decimal: a mantissa of at most 96 bits
/// and a scale of at most 28.
pub open spec fn is_decimal(mantissa: int, scale: nat) -> bool {
    -MAX_MANTISSA <= mantissa <= MAX_MANTISSA && scale <= MAX_SCALE
}

impl AmountError {
    /// The error as a sentence. A negative value is named where its parts
    /// are those of a decimal, and the operands of a subtraction always.
    pub open spec fn message_of(self) -> Seq<char> {
        match self {
            AmountError::Malformed => "Amount is not a decimal number"@,
            AmountError::TooManyDecimalPlaces(_) => "Amount has too many decimal places"@,
            AmountError::NegativeValue(mantissa, scale) => if is_decimal(
                mantissa as int,
                scale as nat,
            ) {
                "Amount cannot be negative: "@ + decimal_text(mantissa as int, scale as nat)
            } else {
                "Amount cannot be negative"@
            },
            AmountError::Overflow => "Amount is too large"@,
            AmountError::SubtractToNegative(lhs, rhs) => "Subtraction results in negative amount: "@
                + lhs.text() + " - "@ + rhs.text(),
        }
    }

    /// The error as a sentence.
    pub fn message(&self) -> (message: String)
        ensures
            message@ == self.message_of(),
    {
        match self {
            AmountError::Malformed => String::from_str("Amount is not a decimal number"),
            AmountError::TooManyDecimalPlaces(_) => String::from_str(
                "Amount has too many decimal places",
            ),
            AmountError::NegativeValue(mantissa, scale) => {
                if -MAX_MANTISSA <= *mantissa && *mantissa <= MAX_MANTISSA && *scale <= MAX_SCALE {
                    let refused = to_text(*mantissa, *scale);
                    String::from_str("Amount cannot be negative: ").concat(refused.as_str())
                } else {
                    String::from_str("Amount cannot be negative")
                }
            },
            AmountError::Overflow => String::from_str("Amount is too large"),
            AmountError::SubtractToNegative(lhs, rhs) => {
                let minuend = lhs.format();
                let subtrahend = rhs.format();
                String::from_str("Subtraction results in negative amount: ").concat(
                    minuend.as_str(),
                ).concat(" - ").concat(subtrahend.as_str())
            },
        }
    }
}

impl View for Amount {
    type V = nat;

    closed spec fn view(&self) -> nat {
        self.units as nat
    }
}

/// The number of smallest units in one unit of a decimal's mantissa at the
/// given scale: ten to the power `MAX_DECIMAL_PLACES - scale`.
pub open spec fn units_per_step(scale: nat) -> int {
    if scale == 0 {
        10_000
    } else if scale == 1 {
        1_000
    } else if scale == 2 {
        100
    } else if scale == 3 {
        10
    } else {
        1
    }
}

/// What becomes of a decimal with the given parts: the number of smallest
/// units of the amount it denotes, or the reason it denotes none.
pub open spec fn parts_outcome(mantissa: int, scale: nat) -> Result<nat, AmountError> {
    if scale > MAX_DECIMAL_PLACES {
        Err(AmountError::TooManyDecimalPlaces(scale as u32))
    } else if mantissa < 0 {
        Err(AmountError::NegativeValue(mantissa as i128, scale as u32))
    } else if mantissa * units_per_step(scale) > MAX_UNITS {
        Err(AmountError::Overflow)
    } else {
        Ok((mantissa * units_per_step(scale)) as nat)
    }
}

/// What becomes of a text: the outcome for the decimal that it spells, or
/// `Malformed` where it spells none.
pub open spec fn parse_outcome(text: Seq<char>) -> Result<nat, AmountError> {
    match exact_decimal(text) {
        Some((mantissa, scale)) => parts_outcome(mantissa, scale),
        None => Err(AmountError::Malformed),
    }
}

/// Whether `result` is the amount or the error that `outcome` calls for.
pub open spec fn yields(result: Result<Amount, AmountError>, outcome: Result<nat, AmountError>) -> bool {
    match result {
        Ok(amount) => outcome == Ok::<nat, AmountError>(amount@),
        Err(error) => outcome == Err::<nat, AmountError>(error),
    }
}

impl Amount {
    /// Every amount fits the 96-bit mantissa of a decimal at the fixed scale.
    #[verifier::type_invariant]
    pub open spec fn wf(self) -> bool {
        self@ <= MAX_UNITS
    }

    /// The amount as decimal text: that of the decimal with the amount's
    /// units as mantissa at the fixed scale.
    pub open spec fn text(self) -> Seq<char> {
        decimal_text(self@ as int, MAX_DECIMAL_PLACES as nat)
    }

    /// The amount that holds the given number of units.
    pub closed spec fn of_units(units: nat) -> Amount {
        Amount { units: units as u128 }
    }

    /// Two amounts are the same exactly when they hold the same number of
    /// units.
    pub proof fn lemma_equal_by_view(self, other: Amount)
        ensures
            self@ == other@ <==> self == other,
    {
    }

    /// `of_units` and the view undo each other.
    pub proof fn lemma_of_units(units: nat)
        requires
            units <= MAX_UNITS,
        ensures
            Amount::of_units(units)@ == units,
            Amount::of_units(units).wf(),
    {
    }

    /// The amount that a decimal with the given parts denotes.
    ///
    /// A scale above `MAX_DECIMAL_PLACES` is refused before the sign is
    /// looked at, and the sign before the size.
    pub fn from_decimal_parts(mantissa: i128, scale: u32) -> (result: Result<Amount, AmountError>)
        ensures
            yields(result, parts_outcome(mantissa as int, scale as nat)),
            result matches Ok(amount) ==> amount.wf(),
    {
        if scale > MAX_DECIMAL_PLACES as u32 {
            return Err(AmountError::TooManyDecimalPlaces(scale));
        }
        if mantissa < 0 {
            return Err(AmountError::NegativeValue(mantissa, scale));
        }
        let step: u128 = if scale == 0 {
            10_000
        } else if scale == 1 {
            1_000
        } else if scale == 2 {
            100
        } else if scale == 3 {
            10
        } else {
            1
        };
        let magnitude: u128 = mantissa as u128;
        if magnitude > MAX_UNITS / step {
            return Err(AmountError::Overflow);
        }
        Ok(Amount { units: magnitude * step })
    }

    /// Reads an amount from its decimal text.
    ///
    /// Fails where the text is no decimal number, where it has more than
    /// `MAX_DECIMAL_PLACES` fractional digits, where it is negative, and
    /// where it is too large.
    pub fn parse(text: &str) -> (result: Result<Amount, AmountError>)
        ensures
            yields(result, parse_outcome(text@)),
            result matches Ok(amount) ==> amount.wf(),
    {
        match parse_exact(text) {
            Some((mantissa, scale)) => Amount::from_decimal_parts(mantissa, scale),
            None => Err(AmountError::Malformed),
        }
    }

    /// The number of smallest units in this amount.
    pub fn value(&self) -> (units: u128)
        ensures
            units == self@,
            units <= MAX_UNITS,
    {
        proof {
            use_type_invariant(self);
        }
        self.units
    }

    /// The sum of two amounts, or `Overflow` where it is too large to hold.
    pub fn checked_add(self, rhs: Amount) -> (result: Result<Amount, AmountError>)
        ensures
            match result {
                Ok(sum) => sum@ == self@ + rhs@ && sum.wf(),
                Err(error) => self@ + rhs@ > MAX_UNITS && error == AmountError::Overflow,
            },
    {
        proof {
            use_type_invariant(self);
            use_type_invariant(rhs);
        }
        if rhs.units > MAX_UNITS - self.units {
            Err(AmountError::Overflow)
        } else {
            Ok(Amount { units: self.units + rhs.units })
        }
    }

    /// Adds `rhs` to this amount. The sum has to fit.
    pub fn add_assign(&mut self, rhs: Amount)
        requires
            old(self)@ + rhs@ <= MAX_UNITS,
        ensures
            final(self)@ == old(self)@ + rhs@,
            final(self).wf(),
    {
        self.units = self.units + rhs.units;
    }

    /// Takes `rhs` from this amount, or fails with both operands and leaves
    /// the amount as it was where `rhs` is the larger.
    pub fn checked_sub_assign(&mut self, rhs: Amount) -> (result: Result<(), AmountError>)
        ensures
            match result {
                Ok(()) => rhs@ <= old(self)@ && final(self)@ == old(self)@ - rhs@,
                Err(error) => {
                    &&& old(self)@ < rhs@
                    &&& *final(self) == *old(self)
                    &&& error == AmountError::SubtractToNegative(*old(self), rhs)
                },
            },
            final(self).wf(),
    {
        proof {
            use_type_invariant(&*self);
        }
        if self.units >= rhs.units {
            self.units = self.units - rhs.units;
            Ok(())
        } else {
            Err(AmountError::SubtractToNegative(*self, rhs))
        }
    }

    /// Whether this amount is at least `rhs`.
    pub fn covers(&self, rhs: &Amount) -> (enough: bool)
        ensures
            enough == (rhs@ <= self@),
    {
        self.units >= rhs.units
    }

    /// Writes the amount as decimal text, rounded to `MAX_DECIMAL_PLACES`
    /// fractional digits with midpoints away from zero. An amount carries
    /// no finer digits, so the rounding leaves it as it is, and the text is
    /// that of the decimal with the amount's units as mantissa at the fixed
    /// scale.
    pub fn format(&self) -> (text: String)
        ensures
            text@ == self.text(),
    {
        proof {
            use_type_invariant(self);
        }
        let places: u32 = MAX_DECIMAL_PLACES as u32;
        let (mantissa, scale) = round_half_away(self.units as i128, places, places);
        to_text(mantissa, scale)
    }

    /// The units of an amount, read as a decimal at the fixed scale, denote
    /// the same amount again.
    pub proof fn lemma_parts_round_trip(self)
        requires
            self.wf(),
        ensures
            parts_outcome(self@ as int, MAX_DECIMAL_PLACES as nat) == Ok::<nat, AmountError>(self@),
    {
    }
}

impl TryFrom<&str> for Amount {
    type Error = AmountError;

    /// Reads an amount from its decimal text, as `Amount::parse` does.
    fn try_from(text: &str) -> (result: Result<Amount, AmountError>)
        ensures
            yields(result, parse_outcome(text@)),
    {
        Amount::parse(text)
    }
}

impl vstd::std_specs::convert::TryFromSpecImpl<&str> for Amount {
    open spec fn obeys_try_from_spec() -> bool {
        true
    }

    open spec fn try_from_spec(text: &str) -> Result<Amount, AmountError> {
        match parse_outcome(text@) {
            Ok(units) => Ok(Amount::of_units(units)),
            Err(error) => Err(error),
        }
    }
}

impl Default for Amount {
    /// The amount of nothing.
    fn default() -> (zero: Amount)
        ensures
            zero@ == 0,
    {
        Amount { units: 0 }
    }
}

} // verus!
