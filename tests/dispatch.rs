use tagged_dispatch::capability::{BasicHasTwoValues, StoresValueDifference};
use tagged_dispatch::dispatch::{ImprovedHtv, ParametrizedHtv, StoresValueDifferenceTag};
use tagged_dispatch::holders::{TwoValueAndDifferenceHolder, TwoValueHolder, ValueAndOffsetHolder};

#[test]
fn no_optimization_first_smaller() {
    assert!(TwoValueHolder::new(3, 7).first_value_smaller_q());
}

#[test]
fn no_optimization_first_larger() {
    assert!(!TwoValueHolder::new(7, 3).first_value_smaller_q());
}

#[test]
fn no_optimization_equal_values() {
    assert!(!TwoValueHolder::new(5, 5).first_value_smaller_q());
}

#[test]
fn no_optimization_extremal_values() {
    assert!(TwoValueHolder::new(i8::MIN, i8::MAX).first_value_smaller_q());
    assert!(!TwoValueHolder::new(i8::MAX, i8::MIN).first_value_smaller_q());
    assert!(!TwoValueHolder::new(i8::MIN, i8::MIN).first_value_smaller_q());
    assert!(!TwoValueHolder::new(i8::MAX, i8::MAX).first_value_smaller_q());
}

#[test]
fn no_optimization_all_pairs() {
    for a in i8::MIN..=i8::MAX {
        for b in i8::MIN..=i8::MAX {
            assert_eq!(TwoValueHolder::new(a, b).first_value_smaller_q(), a < b);
        }
    }
}

#[test]
fn stored_difference_negative() {
    assert!(TwoValueAndDifferenceHolder::new(7, 3, -4).first_value_smaller_q());
}

#[test]
fn stored_difference_zero() {
    assert!(!TwoValueAndDifferenceHolder::new(5, 5, 0).first_value_smaller_q());
}

#[test]
fn stored_difference_reads_only_the_difference() {
    // The values say the first is smaller; the stored difference decides.
    assert!(TwoValueAndDifferenceHolder::new(1, 2, -1).first_value_smaller_q());
    assert!(!TwoValueAndDifferenceHolder::new(2, 1, 1).first_value_smaller_q());
}

#[test]
fn stored_difference_matches_sign_for_consistent_values() {
    for a in -60i8..=60 {
        for b in -60i8..=60 {
            let d = TwoValueAndDifferenceHolder::new(a, b, b - a);
            assert_eq!(d.first_value_smaller_q(), b < a);
        }
    }
}

#[test]
fn cross_strategy_equal_values_agree() {
    for a in i8::MIN..=i8::MAX {
        let plain = TwoValueHolder::new(a, a);
        let stored = TwoValueAndDifferenceHolder::new(a, a, 0);
        assert_eq!(plain.first_value_smaller_q(), stored.first_value_smaller_q());
    }
}

#[test]
fn family_entries_on_one_value() {
    let d = TwoValueAndDifferenceHolder::new(3, 7, 4);
    assert!(<TwoValueAndDifferenceHolder as ParametrizedHtv<()>>::default_first_value_smaller_q(&d));
    assert!(!<TwoValueAndDifferenceHolder as ParametrizedHtv<StoresValueDifferenceTag>>::default_first_value_smaller_q(&d));
}

#[test]
fn manual_override_body_is_used() {
    // Generic strategy would answer false here (3 is not below 1).
    let h = ValueAndOffsetHolder::new(3, -2).unwrap();
    assert!(h.first_value_smaller_q());
    assert!(!<ValueAndOffsetHolder as ParametrizedHtv<()>>::default_first_value_smaller_q(&h));
    let k = ValueAndOffsetHolder::new(3, 4).unwrap();
    assert!(!k.first_value_smaller_q());
    let z = ValueAndOffsetHolder::new(3, 0).unwrap();
    assert!(!z.first_value_smaller_q());
}

#[test]
fn getters_return_fields() {
    let h = TwoValueHolder::new(-9, 12);
    assert_eq!(h.get_value_one(), -9);
    assert_eq!(h.get_value_two(), 12);
    let d = TwoValueAndDifferenceHolder::new(1, 2, 99);
    assert_eq!(d.get_value_one(), 1);
    assert_eq!(d.get_value_two(), 2);
    assert_eq!(d.get_value_difference(), 99);
}

#[test]
fn offset_holder_values() {
    let h = ValueAndOffsetHolder::new(10, -25).unwrap();
    assert_eq!(h.get_value_one(), 10);
    assert_eq!(h.get_value_two(), -15);
    assert_eq!(h.get_value_difference(), -25);
    let edge = ValueAndOffsetHolder::new(-100, -28).unwrap();
    assert_eq!(edge.get_value_two(), i8::MIN);
}

#[test]
fn offset_holder_rejects_overflow() {
    assert!(ValueAndOffsetHolder::new(100, 100).is_none());
    assert!(ValueAndOffsetHolder::new(-100, -29).is_none());
    assert!(ValueAndOffsetHolder::new(i8::MAX, 0).is_some());
    assert!(ValueAndOffsetHolder::new(i8::MAX, 1).is_none());
}
