use vstd::prelude::*;

use crate::capability::{BasicHasTwoValues, StoresValueDifference};
use crate::dispatch::{ImprovedHtv, ManuallyImplementedFlag, StoresValueDifferenceTag};

verus! {

/// Two values and nothing more: uses the generic strategy.
pub struct TwoValueHolder {
    value_one: i8,
    value_two: i8,
}

impl TwoValueHolder {
    pub fn new(value_one: i8, value_two: i8) -> (r: Self)
        ensures
            r.value_one() == value_one,
            r.value_two() == value_two,
    {
        TwoValueHolder { value_one, value_two }
    }
}

impl BasicHasTwoValues for TwoValueHolder {
    closed spec fn value_one(&self) -> i8 {
        self.value_one
    }

    closed spec fn value_two(&self) -> i8 {
        self.value_two
    }

    fn get_value_one(&self) -> (r: i8) {
        self.value_one
    }

    fn get_value_two(&self) -> (r: i8) {
        self.value_two
    }
}

impl ImprovedHtv for TwoValueHolder {
    type OptimizationDetails = ();
}

/// Two values with their difference stored beside them: uses the
/// stored-difference strategy. The three fields are independent; the caller
/// that builds one is responsible for the difference matching the values.
pub struct TwoValueAndDifferenceHolder {
    value_one: i8,
    value_two: i8,
    difference: i8,
}

impl TwoValueAndDifferenceHolder {
    pub fn new(value_one: i8, value_two: i8, difference: i8) -> (r: Self)
        ensures
            r.value_one() == value_one,
            r.value_two() == value_two,
            r.value_difference() == difference,
    {
        TwoValueAndDifferenceHolder { value_one, value_two, difference }
    }
}

impl BasicHasTwoValues for TwoValueAndDifferenceHolder {
    closed spec fn value_one(&self) -> i8 {
        self.value_one
    }

    closed spec fn value_two(&self) -> i8 {
        self.value_two
    }

    fn get_value_one(&self) -> (r: i8) {
        self.value_one
    }

    fn get_value_two(&self) -> (r: i8) {
        self.value_two
    }
}

impl StoresValueDifference for TwoValueAndDifferenceHolder {
    closed spec fn value_difference(&self) -> i8 {
        self.difference
    }

    fn get_value_difference(&self) -> (r: i8) {
        self.difference
    }
}

impl ImprovedHtv for TwoValueAndDifferenceHolder {
    type OptimizationDetails = StoresValueDifferenceTag;
}

/// A base value and an offset: the second value is `base_value + offset`,
/// and the offset is the stored difference. Supplies its own body for the
/// operation, which reads the sign of the offset.
pub struct ValueAndOffsetHolder {
    base_value: i8,
    offset: i8,
}

impl ValueAndOffsetHolder {
    /// The second value fits in an `i8`.
    #[verifier::type_invariant]
    spec fn second_value_fits(self) -> bool {
        i8::MIN <= self.base_value + self.offset <= i8::MAX
    }

    /// Builds the holder, or `None` where `base_value + offset` does not fit in an `i8`.
    pub fn new(base_value: i8, offset: i8) -> (r: Option<Self>)
        ensures
            r is Some <==> i8::MIN <= base_value + offset <= i8::MAX,
            r matches Some(h) ==> {
                &&& h.value_one() == base_value
                &&& h.value_two() == base_value + offset
                &&& h.value_difference() == offset
            },
    {
        let sum: i16 = base_value as i16 + offset as i16;
        if sum < i8::MIN as i16 || sum > i8::MAX as i16 {
            None
        } else {
            Some(ValueAndOffsetHolder { base_value, offset })
        }
    }
}

impl BasicHasTwoValues for ValueAndOffsetHolder {
    closed spec fn value_one(&self) -> i8 {
        self.base_value
    }

    closed spec fn value_two(&self) -> i8 {
        (self.base_value + self.offset) as i8
    }

    fn get_value_one(&self) -> (r: i8) {
        self.base_value
    }

    fn get_value_two(&self) -> (r: i8) {
        proof {
            use_type_invariant(self);
        }
        self.base_value + self.offset
    }
}

impl StoresValueDifference for ValueAndOffsetHolder {
    closed spec fn value_difference(&self) -> i8 {
        self.offset
    }

    fn get_value_difference(&self) -> (r: i8) {
        self.offset
    }
}

impl ImprovedHtv for ValueAndOffsetHolder {
    type OptimizationDetails = ManuallyImplementedFlag;

    fn first_value_smaller_q(&self) -> (r: bool)
        ensures
            r == (self.value_difference() < 0),
    {
        self.offset < 0
    }
}

} // verus!
