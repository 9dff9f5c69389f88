//! The stages of one guess: parsing the raw line, checking it against the
//! configured bounds, and comparing it with the secret. Every failure is a
//! `GuessError`, built by the stage that detected it.
use vstd::prelude::*;
use vstd::string::*;
use crate::integer::{parse_i64_between, parsed_i64};
use crate::text::{chars_of, decimal_of, push_decimal, trim_bounds, trimmed};

verus! {

/// Why a guess was not accepted, or why the session could not go on.
#[derive(Debug, Clone, PartialEq, Eq)]
pub enum GuessError {
    /// Reading a line failed; `cause` describes the failure.
    IoFailure { cause: String },
    /// The line, as read, does not denote an integer.
    ParseFailure { raw: String },
    /// The integer lies outside `[low, high]`.
    RangeFailure { value: i64, low: i64, high: i64 },
}

/// How a guess relates to the secret.
#[derive(Debug, Clone, Copy, PartialEq, Eq, Structural)]
pub enum Outcome {
    Less,
    Greater,
    Equal,
}

impl GuessError {
    /// The error for a failed read.
    pub fn from_io(cause: String) -> (r: GuessError)
        ensures
            r == (GuessError::IoFailure { cause }),
    {
        GuessError::IoFailure { cause }
    }

    /// The error for a line that is not an integer.
    pub fn from_parse(raw: String) -> (r: GuessError)
        ensures
            r == (GuessError::ParseFailure { raw }),
    {
        GuessError::ParseFailure { raw }
    }

    /// The error for an integer outside the bounds.
    pub fn from_range(value: i64, low: i64, high: i64) -> (r: GuessError)
        ensures
            r == (GuessError::RangeFailure { value, low, high }),
    {
        GuessError::RangeFailure { value, low, high }
    }

    /// An equal copy of this error.
    pub fn duplicate(&self) -> (r: GuessError)
        ensures
            r == *self,
    {
        match self {
            GuessError::IoFailure { cause } => GuessError::IoFailure { cause: cause.clone() },
            GuessError::ParseFailure { raw } => GuessError::ParseFailure { raw: raw.clone() },
            GuessError::RangeFailure { value, low, high } => GuessError::RangeFailure {
                value: *value,
                low: *low,
                high: *high,
            },
        }
    }

    /// Whether the session can go on after this error: only a failed read
    /// ends it.
    pub fn is_recoverable(&self) -> (r: bool)
        ensures
            r == !(self is IoFailure),
    {
        !matches!(self, GuessError::IoFailure { .. })
    }

    /// A message that names the offending input and what was expected.
    pub fn message(&self) -> (r: String)
        ensures
            r@ == message_of(*self),
    {
        match self {
            GuessError::IoFailure { cause } => {
                let mut s = String::from_str("failed to read a line: ");
                s.append(cause.as_str());
                s
            },
            GuessError::ParseFailure { raw } => {
                let mut s = String::from_str("not a whole number: \"");
                s.append(raw.as_str());
                s.append("\"");
                s
            },
            GuessError::RangeFailure { value, low, high } => {
                let mut s = String::new();
                push_decimal(&mut s, *value);
                s.append(" is out of range: the number lies between ");
                push_decimal(&mut s, *low);
                s.append(" and ");
                push_decimal(&mut s, *high);
                assert(s@ =~= message_of(*self));
                s
            },
        }
    }
}

/// The text of `GuessError::message`.
pub open spec fn message_of(e: GuessError) -> Seq<char> {
    match e {
        GuessError::IoFailure { cause } => "failed to read a line: "@ + cause@,
        GuessError::ParseFailure { raw } => "not a whole number: \""@ + raw@ + "\""@,
        GuessError::RangeFailure { value, low, high } => decimal_of(value as int)
            + " is out of range: the number lies between "@ + decimal_of(low as int) + " and "@
            + decimal_of(high as int),
    }
}

/// The ordering of `guess` relative to `secret`.
pub open spec fn outcome_of(guess: i64, secret: i64) -> Outcome {
    if guess < secret {
        Outcome::Less
    } else if guess > secret {
        Outcome::Greater
    } else {
        Outcome::Equal
    }
}

/// The integer that a raw line denotes once trimmed, if it fits in `i64`.
pub open spec fn guess_value(raw: Seq<char>) -> Option<i64> {
    parsed_i64(trimmed(raw))
}

/// Reads a guess from a raw line: white space at either end is ignored, and
/// the rest must be a whole base-10 integer, with an optional sign, that
/// fits in `i64`. Otherwise the error holds the line as it was given.
pub fn parse(raw: String) -> (r: Result<i64, GuessError>)
    ensures
        match guess_value(raw@) {
            Some(v) => r == Ok::<i64, GuessError>(v),
            None => r == Err::<i64, GuessError>(GuessError::ParseFailure { raw }),
        },
{
    let cs = chars_of(raw.as_str());
    let (a, b) = trim_bounds(&cs);
    match parse_i64_between(&cs, a, b) {
        Some(v) => Ok(v),
        None => Err(GuessError::from_parse(raw)),
    }
}

/// Accepts `value` when it lies within `[low, high]`, both ends included.
pub fn validate(value: i64, low: i64, high: i64) -> (r: Result<i64, GuessError>)
    requires
        low <= high,
    ensures
        low <= value <= high ==> r == Ok::<i64, GuessError>(value),
        value < low || value > high ==> r == Err::<i64, GuessError>(
            GuessError::RangeFailure { value, low, high },
        ),
{
    if value < low || value > high {
        Err(GuessError::from_range(value, low, high))
    } else {
        Ok(value)
    }
}

/// Compares a validated guess with the secret.
pub fn compare(guess: i64, secret: i64) -> (r: Outcome)
    ensures
        r == outcome_of(guess, secret),
        guess < secret ==> r == Outcome::Less,
        guess > secret ==> r == Outcome::Greater,
        guess == secret ==> r == Outcome::Equal,
{
    if guess < secret {
        Outcome::Less
    } else if guess > secret {
        Outcome::Greater
    } else {
        Outcome::Equal
    }
}

/// `compare` is a function of its arguments alone: any two results that it
/// may give for the same guess and secret are the same outcome.
pub proof fn compare_is_pure(guess: i64, secret: i64, first: Outcome, second: Outcome)
    requires
        first == outcome_of(guess, secret),
        second == outcome_of(guess, secret),
    ensures
        first == second,
{
}

} // verus!
