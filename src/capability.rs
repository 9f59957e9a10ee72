use vstd::prelude::*;

verus! {

/// A type that exposes two orderable scalar values.
pub trait BasicHasTwoValues {
    /// The first value, as a mathematical model of the getter.
    spec fn value_one(&self) -> i8;

    /// The second value, as a mathematical model of the getter.
    spec fn value_two(&self) -> i8;

    fn get_value_one(&self) -> (r: i8)
        ensures
            r == self.value_one(),
    ;

    fn get_value_two(&self) -> (r: i8)
        ensures
            r == self.value_two(),
    ;
}

/// A refinement of [`BasicHasTwoValues`] for types that already store the
/// difference `value_two - value_one`.
///
/// The implementer is responsible for keeping the stored difference equal to
/// that quantity; nothing here checks it. Where it does not hold, strategies
/// built on the stored difference answer from the stored value alone.
pub trait StoresValueDifference: BasicHasTwoValues {
    /// The stored difference, as a mathematical model of the getter.
    spec fn value_difference(&self) -> i8;

    fn get_value_difference(&self) -> (r: i8)
        ensures
            r == self.value_difference(),
    ;
}

/// The stored difference equals `value_two - value_one`, computed over the integers.
pub open spec fn difference_consistent<T: StoresValueDifference>(x: &T) -> bool {
    x.value_difference() as int == x.value_two() as int - x.value_one() as int
}

} // verus!
