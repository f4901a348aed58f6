//! Testing a value against optional bounds.

use core::cmp::Ordering;
use vstd::prelude::*;
use vstd::std_specs::cmp::PartialOrdSpec;

verus! {

/// How an item relates to its bounds.
#[derive(Debug, Clone, Copy, PartialEq, Eq, Structural)]
pub enum LengthTestResult {
    TooShort,
    TooLong,
    InBounds,
}

/// How `item` compares to `bound`, if there is a bound and the two can be
/// compared.
pub open spec fn compared<T: PartialOrd>(item: T, bound: Option<T>) -> Option<Ordering> {
    match bound {
        Some(bound) => item.partial_cmp_spec(&bound),
        None => None,
    }
}

/// How `item` relates to the bounds: less than the lower bound it is too
/// short, else greater than the upper bound too long, else in bounds. A
/// bound that is absent or cannot be compared with the item does not bind.
pub open spec fn bounds_test<T: PartialOrd>(item: T, lower: Option<T>, upper: Option<T>) -> LengthTestResult {
    if compared(item, lower) == Some(Ordering::Less) {
        LengthTestResult::TooShort
    } else if compared(item, upper) == Some(Ordering::Greater) {
        LengthTestResult::TooLong
    } else {
        LengthTestResult::InBounds
    }
}

/// Tests `item` against its bounds.
pub fn check_bounds<T: PartialOrd>(item: T, lower: Option<T>, upper: Option<T>) -> (result: LengthTestResult)
    ensures
        T::obeys_partial_cmp_spec() ==> result == bounds_test(item, lower, upper),
{
    let below = match &lower {
        Some(lower) => item.partial_cmp(lower),
        None => None,
    };
    let above = match &upper {
        Some(upper) => item.partial_cmp(upper),
        None => None,
    };
    match (below, above) {
        (Some(Ordering::Less), _) => LengthTestResult::TooShort,
        (_, Some(Ordering::Greater)) => LengthTestResult::TooLong,
        _ => LengthTestResult::InBounds,
    }
}

/// For lengths the test reads: below the lower bound too short, else above
/// the upper bound too long, else in bounds.
pub proof fn lemma_bounds_test_of_lengths(item: usize, lower: Option<usize>, upper: Option<usize>)
    ensures
        usize::obeys_partial_cmp_spec(),
        bounds_test(item, lower, upper) == if lower matches Some(l) && item < l {
            LengthTestResult::TooShort
        } else if upper matches Some(u) && item > u {
            LengthTestResult::TooLong
        } else {
            LengthTestResult::InBounds
        },
{
}

} // verus!
