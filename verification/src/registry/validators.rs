//! Validators that a schema attaches to its arguments.

use vstd::prelude::*;
use vstd::string::*;
use crate::registry::bounds::{bounds_test, check_bounds, lemma_bounds_test_of_lengths, LengthTestResult};
use crate::registry::value::GraphqlValue;
use crate::text::{decimal, to_decimal};

verus! {

/// Bounds on the length of a list or of a text. A bound that is absent
/// does not bind.
#[derive(Debug, Clone, Copy)]
pub struct LengthValidator {
    pub min: Option<usize>,
    pub max: Option<usize>,
}

/// The validators of arguments.
#[derive(Clone, Copy)]
pub enum DynValidator {
    Length(LengthValidator),
}

/// The length that the validator measures: the number of items of a list,
/// the number of characters of a text, and nothing of any other value.
pub open spec fn measured_length(value: GraphqlValue) -> Option<nat> {
    match value {
        GraphqlValue::List(items) => Some(items@.len()),
        GraphqlValue::String(text) => Some(text@.len()),
        _ => None,
    }
}

/// The message for an argument whose value is too long.
pub open spec fn too_long_message(name: Seq<char>, count: nat, max: nat) -> Seq<char> {
    "Invalid value for argument \""@ + name + "\", length "@ + decimal(count) + " is too long, must be less than "@
        + decimal(max)
}

/// The message for an argument whose value is too short.
pub open spec fn too_short_message(name: Seq<char>, count: nat, min: nat) -> Seq<char> {
    "Invalid value for argument \""@ + name + "\", length "@ + decimal(count) + " is too short, must be more than "@
        + decimal(min)
}

impl LengthValidator {
    /// A validator with these bounds.
    pub fn new(min: Option<usize>, max: Option<usize>) -> (validator: LengthValidator)
        ensures
            validator.min == min,
            validator.max == max,
    {
        LengthValidator { min, max }
    }

    /// What the validator reports for `value`, if anything.
    pub open spec fn report(self, name: Seq<char>, value: GraphqlValue) -> Option<Seq<char>> {
        match measured_length(value) {
            Some(count) => match bounds_test(count as usize, self.min, self.max) {
                LengthTestResult::InBounds => None,
                LengthTestResult::TooLong => Some(too_long_message(name, count, self.max->Some_0 as nat)),
                LengthTestResult::TooShort => Some(too_short_message(name, count, self.min->Some_0 as nat)),
            },
            None => None,
        }
    }

    /// Validates the value of the argument `name`. A variable is validated
    /// by the value that it is bound to, `variable`, if it is bound. Values
    /// that are neither lists nor texts pass. The result is the message of
    /// the error, if there is one.
    pub fn validate(&self, name: &str, value: &GraphqlValue, variable: Option<&GraphqlValue>) -> (error: Option<String>)
        ensures
            match (*value, variable) {
                (GraphqlValue::Variable(_), Some(bound)) => match self.report(name@, *bound) {
                    Some(message) => error matches Some(m) && m@ == message,
                    None => error is None,
                },
                _ => match self.report(name@, *value) {
                    Some(message) => error matches Some(m) && m@ == message,
                    None => error is None,
                },
            },
    {
        let subject = match (value, variable) {
            (GraphqlValue::Variable(_), Some(bound)) => bound,
            _ => value,
        };
        let count = match subject {
            GraphqlValue::List(items) => items.len(),
            GraphqlValue::String(text) => text.as_str().unicode_len(),
            _ => {
                return None;
            },
        };
        proof {
            lemma_bounds_test_of_lengths(count, self.min, self.max);
        }
        match check_bounds(count, self.min, self.max) {
            LengthTestResult::InBounds => None,
            LengthTestResult::TooLong => {
                let max = match self.max {
                    Some(max) => max,
                    None => 0,
                };
                let mut message = String::from_str("Invalid value for argument \"");
                message.append(name);
                message.append("\", length ");
                message.append(to_decimal(count as u64).as_str());
                message.append(" is too long, must be less than ");
                message.append(to_decimal(max as u64).as_str());
                Some(message)
            },
            LengthTestResult::TooShort => {
                let min = match self.min {
                    Some(min) => min,
                    None => 0,
                };
                let mut message = String::from_str("Invalid value for argument \"");
                message.append(name);
                message.append("\", length ");
                message.append(to_decimal(count as u64).as_str());
                message.append(" is too short, must be more than ");
                message.append(to_decimal(min as u64).as_str());
                Some(message)
            },
        }
    }
}

impl DynValidator {
    /// A validator of lengths with these bounds.
    pub fn length(min: Option<usize>, max: Option<usize>) -> (validator: DynValidator)
        ensures
            validator == DynValidator::Length(LengthValidator { min, max }),
    {
        DynValidator::Length(LengthValidator::new(min, max))
    }

    /// The validator inside.
    pub fn inner(&self) -> (validator: &LengthValidator)
        ensures
            DynValidator::Length(*validator) == *self,
    {
        match self {
            DynValidator::Length(v) => v,
        }
    }

    /// Validates the value of the argument `name`; see
    /// [`LengthValidator::validate`].
    pub fn validate(&self, name: &str, value: &GraphqlValue, variable: Option<&GraphqlValue>) -> (error: Option<String>)
        ensures
            match (*value, variable) {
                (GraphqlValue::Variable(_), Some(bound)) => match self.inner_spec().report(name@, *bound) {
                    Some(message) => error matches Some(m) && m@ == message,
                    None => error is None,
                },
                _ => match self.inner_spec().report(name@, *value) {
                    Some(message) => error matches Some(m) && m@ == message,
                    None => error is None,
                },
            },
    {
        self.inner().validate(name, value, variable)
    }

    /// The validator inside.
    pub open spec fn inner_spec(self) -> LengthValidator {
        match self {
            DynValidator::Length(v) => v,
        }
    }
}

} // verus!
