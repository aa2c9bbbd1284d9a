//! Validation and text of a numeric entry field holding a `usize`.

use vstd::prelude::*;
use crate::text::{decimal, decimal_string, lemma_parse_decimal, parse_usize, parse_usize_spec};

verus! {

/// Why a text does not give an acceptable value.
#[derive(Clone, Copy, Debug, PartialEq, Eq, Structural)]
pub enum UsizeValidationError {
    BadCharacter,
    MinViolation,
    MaxViolation,
}

impl UsizeValidationError {
    /// The message shown to the user.
    pub fn message(&self) -> (r: &'static str)
        ensures
            *self == UsizeValidationError::BadCharacter ==> r@ == "bad character"@,
            *self == UsizeValidationError::MinViolation ==> r@ == "value too low"@,
            *self == UsizeValidationError::MaxViolation ==> r@ == "value too high"@,
    {
        match self {
            UsizeValidationError::BadCharacter => "bad character",
            UsizeValidationError::MinViolation => "value too low",
            UsizeValidationError::MaxViolation => "value too high",
        }
    }
}

pub open spec fn validate_spec(v: usize, min: Option<usize>, max: Option<usize>) -> Result<
    (),
    UsizeValidationError,
> {
    if min matches Some(lo) && v < lo {
        Err(UsizeValidationError::MinViolation)
    } else if max matches Some(hi) && v > hi {
        Err(UsizeValidationError::MaxViolation)
    } else {
        Ok(())
    }
}

/// Checks `v` against the optional bounds, the lower one first.
pub fn validate_usize(v: usize, min: Option<usize>, max: Option<usize>) -> (r: Result<
    (),
    UsizeValidationError,
>)
    ensures
        r == validate_spec(v, min, max),
{
    match min {
        Some(lo) if v < lo => {
            return Err(UsizeValidationError::MinViolation);
        },
        _ => {},
    }
    match max {
        Some(hi) if v > hi => Err(UsizeValidationError::MaxViolation),
        _ => Ok(()),
    }
}

/// A `usize` entry field with optional bounds.
pub struct UsizeFormatter {
    pub min: Option<usize>,
    pub max: Option<usize>,
}

impl UsizeFormatter {
    /// The value of a complete text: a decimal number within the bounds.
    pub open spec fn value_spec(&self, input: Seq<char>) -> Result<usize, UsizeValidationError> {
        match parse_usize_spec(input) {
            Some(v) => match validate_spec(v, self.min, self.max) {
                Ok(()) => Ok(v),
                Err(e) => Err(e),
            },
            None => Err(UsizeValidationError::BadCharacter),
        }
    }

    /// The text shown for a value.
    pub fn format(&self, value: usize) -> (r: String)
        ensures
            r@ == decimal(value as nat),
    {
        decimal_string(value)
    }

    /// Whether a text being typed may stand: empty, or a number within the
    /// bounds.
    pub fn validate_partial_input(&self, input: &str) -> (r: Result<(), UsizeValidationError>)
        ensures
            input@.len() == 0 ==> r is Ok,
            input@.len() > 0 ==> r == match self.value_spec(input@) {
                Ok(_) => Ok(()),
                Err(e) => Err(e),
            },
    {
        if input.is_empty() {
            return Ok(());
        }
        match self.value(input) {
            Ok(_) => Ok(()),
            Err(e) => Err(e),
        }
    }

    /// The value of a complete text.
    pub fn value(&self, input: &str) -> (r: Result<usize, UsizeValidationError>)
        ensures
            r == self.value_spec(input@),
    {
        match parse_usize(input) {
            Some(v) => match validate_usize(v, self.min, self.max) {
                Ok(()) => Ok(v),
                Err(e) => Err(e),
            },
            None => Err(UsizeValidationError::BadCharacter),
        }
    }
}

/// The text shown for a value reads back as that value, unless the value
/// is outside the bounds, in which case the same bound violation is reported.
pub proof fn lemma_format_value_round_trip(f: UsizeFormatter, v: usize)
    ensures
        f.value_spec(decimal(v as nat)) == match validate_spec(v, f.min, f.max) {
            Ok(()) => Ok(v),
            Err(e) => Err(e),
        },
{
    lemma_parse_decimal(v);
}

} // verus!
