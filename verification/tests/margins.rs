//! The margin-collapsing value type: adjoining merges by extremes.

use layout_2020::fragments::CollapsedMargin;

#[test]
fn adjoin_of_positive_and_negative_solves_to_their_sum() {
    let a = CollapsedMargin::new(10);
    let b = CollapsedMargin::new(-4);
    assert_eq!(a.adjoin(&b).solve(), 6);
}

#[test]
fn adjoin_of_same_sign_keeps_the_larger_magnitude() {
    let a = CollapsedMargin::new(5);
    let b = CollapsedMargin::new(8);
    assert_eq!(a.adjoin(&b).solve(), 8);
}

#[test]
fn adjoin_is_commutative_on_values() {
    let a = CollapsedMargin::new(7);
    let b = CollapsedMargin::new(-3);
    assert_eq!(a.adjoin(&b), b.adjoin(&a));
}

#[test]
fn adjoin_is_associative_on_values() {
    let a = CollapsedMargin::new(7);
    let b = CollapsedMargin::new(-3);
    let c = CollapsedMargin::new(12);
    assert_eq!(a.adjoin(&b).adjoin(&c), a.adjoin(&b.adjoin(&c)));
}

#[test]
fn adjoining_zero_is_the_identity() {
    let a = CollapsedMargin::new(-9);
    assert_eq!(CollapsedMargin::zero().adjoin(&a), a);
    assert_eq!(a.adjoin(&CollapsedMargin::zero()), a);
}

#[test]
fn new_splits_sign_into_the_two_extremes() {
    let pos = CollapsedMargin::new(10);
    assert_eq!(pos.max_positive, 10);
    assert_eq!(pos.min_negative, 0);
    let neg = CollapsedMargin::new(-4);
    assert_eq!(neg.max_positive, 0);
    assert_eq!(neg.min_negative, -4);
}
