use vstd::prelude::*;

use crate::capability::{BasicHasTwoValues, StoresValueDifference, difference_consistent};

verus! {

/// Tag: the consumer has a precomputed difference; use it.
pub struct StoresValueDifferenceTag {}

/// Tag: the consumer supplies its own body for the operation.
/// The family entry for this tag must never be relied on.
pub struct ManuallyImplementedFlag {}

// The unit type `()` is the tag for "no optimization".

/// The default implementation family, indexed by an optimization tag `T`.
pub trait ParametrizedHtv<T>: BasicHasTwoValues {
    /// The entry for this tag may be invoked on `self`.
    spec fn entry_available(&self) -> bool;

    /// What the entry for this tag returns on `self`.
    spec fn entry_result(&self) -> bool;

    fn default_first_value_smaller_q(&self) -> (r: bool)
        requires
            self.entry_available(),
        ensures
            r == self.entry_result(),
    ;
}

/// The generic strategy: compares both values.
impl<T: BasicHasTwoValues> ParametrizedHtv<()> for T {
    open spec fn entry_available(&self) -> bool {
        true
    }

    open spec fn entry_result(&self) -> bool {
        self.value_one() < self.value_two()
    }

    fn default_first_value_smaller_q(&self) -> (r: bool) {
        match self.get_value_one().cmp(&self.get_value_two()) {
            core::cmp::Ordering::Less => true,
            _ => false,
        }
    }
}

/// The stored-difference strategy: reads the sign of the stored difference.
impl<T: StoresValueDifference> ParametrizedHtv<StoresValueDifferenceTag> for T {
    open spec fn entry_available(&self) -> bool {
        true
    }

    open spec fn entry_result(&self) -> bool {
        self.value_difference() < 0
    }

    fn default_first_value_smaller_q(&self) -> (r: bool) {
        self.get_value_difference() < 0
    }
}

/// The manual-override entry: there is no usable default. Its precondition
/// never holds, so verified code cannot reach it; an unverified caller that
/// reaches it gets a panic.
impl<T: BasicHasTwoValues> ParametrizedHtv<ManuallyImplementedFlag> for T {
    open spec fn entry_available(&self) -> bool {
        false
    }

    open spec fn entry_result(&self) -> bool {
        false
    }

    fn default_first_value_smaller_q(&self) -> (r: bool) {
        vstd::pervasive::unreached()
    }
}

/// The public dispatch interface. A consumer names one optimization tag as
/// `OptimizationDetails` and inherits the family entry for that tag, or
/// supplies its own body for `first_value_smaller_q`.
///
/// The operation's precondition is that of the declared tag's family entry,
/// since the inherited body calls that entry: it always holds for `()` and
/// for [`StoresValueDifferenceTag`], and never for [`ManuallyImplementedFlag`].
/// A consumer with the manual-override tag is therefore called only from
/// unverified code, which reaches its own body, or the panicking entry where
/// it kept the inherited one.
pub trait ImprovedHtv: BasicHasTwoValues {
    type OptimizationDetails;

    fn first_value_smaller_q(&self) -> (r: bool)
        where Self: ParametrizedHtv<Self::OptimizationDetails>
        requires
            <Self as ParametrizedHtv<Self::OptimizationDetails>>::entry_available(self),
        default_ensures
            r == <Self as ParametrizedHtv<Self::OptimizationDetails>>::entry_result(self),
    {
        <Self as ParametrizedHtv<Self::OptimizationDetails>>::default_first_value_smaller_q(self)
    }
}

/// The generic strategy is always available, and it answers `true` exactly
/// when the first value is strictly below the second: equal values give
/// `false`, and so does any pair whose first value is the larger.
pub proof fn lemma_no_optimization_compares_values<T: BasicHasTwoValues>(x: &T)
    ensures
        <T as ParametrizedHtv<()>>::entry_available(x),
        <T as ParametrizedHtv<()>>::entry_result(x) <==> x.value_one() < x.value_two(),
        x.value_one() == x.value_two() ==> !<T as ParametrizedHtv<()>>::entry_result(x),
{
}

/// The stored-difference strategy is always available and answers `true`
/// exactly when the stored difference is negative. Where the stored difference
/// equals `value_two - value_one`, a negative difference means the second value
/// is the smaller one, so the strategy answers as the generic strategy does
/// only on equal values (both answer `false` there).
pub proof fn lemma_stored_difference_agrees<T: StoresValueDifference>(x: &T)
    ensures
        <T as ParametrizedHtv<StoresValueDifferenceTag>>::entry_available(x),
        <T as ParametrizedHtv<StoresValueDifferenceTag>>::entry_result(x)
            <==> x.value_difference() < 0,
        difference_consistent(x) ==> (
            <T as ParametrizedHtv<StoresValueDifferenceTag>>::entry_result(x)
                <==> x.value_two() < x.value_one()),
        difference_consistent(x) && x.value_one() == x.value_two() ==> (
            <T as ParametrizedHtv<StoresValueDifferenceTag>>::entry_result(x)
                == <T as ParametrizedHtv<()>>::entry_result(x)),
{
}

/// Two consumers that hold the same pair of equal values, one answering with
/// the generic strategy and one with the stored-difference strategy whose
/// stored difference is consistent, give the same answer.
pub proof fn lemma_cross_strategy_equivalence<A: BasicHasTwoValues, B: StoresValueDifference>(
    a: &A,
    b: &B,
)
    requires
        a.value_one() == b.value_one(),
        a.value_two() == b.value_two(),
        difference_consistent(b),
        a.value_one() == a.value_two(),
    ensures
        <A as ParametrizedHtv<()>>::entry_result(a)
            == <B as ParametrizedHtv<StoresValueDifferenceTag>>::entry_result(b),
{
}

/// The family entry for the manual-override tag is never available: no
/// verified caller can invoke it on any value, so a consumer with that tag
/// that keeps the inherited body cannot have its operation called from
/// verified code, and an unverified call reaches a panic.
pub proof fn lemma_manual_entry_unavailable<T: BasicHasTwoValues>(x: &T)
    ensures
        !<T as ParametrizedHtv<ManuallyImplementedFlag>>::entry_available(x),
{
}

} // verus!
