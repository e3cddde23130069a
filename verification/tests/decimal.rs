use l2book::decimal::MAX_MANTISSA;
use l2book::{Decimal, Reason, Side};

fn dec(mantissa: i128, scale: u32) -> Decimal {
    Decimal::new(mantissa, scale).expect("in range")
}

#[test]
fn new_keeps_mantissa_and_scale() {
    let d = dec(-12345, 3);
    assert_eq!(d.mantissa(), -12345);
    assert_eq!(d.scale(), 3);
}

#[test]
fn new_turns_down_what_is_out_of_range() {
    assert!(Decimal::new(1, 28).is_some());
    assert!(Decimal::new(1, 29).is_none());
    assert!(Decimal::new(MAX_MANTISSA, 0).is_some());
    assert!(Decimal::new(-MAX_MANTISSA, 0).is_some());
    assert!(Decimal::new(MAX_MANTISSA + 1, 0).is_none());
    assert!(Decimal::new(-MAX_MANTISSA - 1, 0).is_none());
}

#[test]
fn from_int_is_at_scale_zero() {
    let d = Decimal::from_int(-7);
    assert_eq!(d.mantissa(), -7);
    assert_eq!(d.scale(), 0);
    assert_eq!(Decimal::from_int(0).mantissa(), 0);
}

#[test]
fn key_splits_whole_and_rest() {
    let unit: u128 = 10_000_000_000_000_000_000_000_000_000;
    assert_eq!(dec(15, 1).key(), (1, unit / 2));
    assert_eq!(dec(-5, 1).key(), (-1, unit / 2));
    assert_eq!(dec(-20, 1).key(), (-2, 0));
    assert_eq!(dec(0, 5).key(), (0, 0));
    assert_eq!(dec(1, 28).key(), (0, 1));
    assert_eq!(dec(-1, 28).key(), (-1, unit - 1));
    assert_eq!(dec(MAX_MANTISSA, 0).key(), (MAX_MANTISSA, 0));
}

#[test]
fn equality_is_by_value() {
    assert_eq!(dec(10, 1), dec(100, 2));
    assert_eq!(dec(1, 0), dec(10, 1));
    assert_ne!(dec(10, 1), dec(101, 2));
    assert_eq!(dec(0, 0), dec(0, 7));
}

#[test]
fn order_is_by_value() {
    assert!(dec(5, 1) < dec(75, 2));
    assert!(dec(-5, 1) < dec(-1, 2));
    assert!(dec(-1, 28) < dec(0, 0));
    assert!(dec(2, 0) > dec(19, 1));
    assert!(dec(2, 0) >= dec(20, 1));
    assert!(dec(2, 0) <= dec(20, 1));
    assert!(!(dec(2, 0) < dec(20, 1)));
}

#[test]
fn checked_add_gives_the_exact_sum() {
    let sum = dec(15, 1).checked_add(dec(25, 2)).expect("exact");
    assert_eq!(sum, dec(175, 2));
    assert_eq!(sum.mantissa(), 175);
    assert_eq!(sum.scale(), 2);
    assert_eq!(dec(-3, 0).checked_add(dec(3, 0)).expect("exact"), Decimal::from_int(0));
}

#[test]
fn checked_sub_gives_the_exact_difference() {
    let difference = dec(10, 0).checked_sub(dec(25, 1)).expect("exact");
    assert_eq!(difference, dec(75, 1));
    assert_eq!(dec(1, 0).checked_sub(dec(3, 0)).expect("exact"), dec(-2, 0));
}

#[test]
fn checked_add_turns_down_an_overflow() {
    assert!(dec(MAX_MANTISSA, 0).checked_add(dec(1, 0)).is_none());
    assert!(dec(-MAX_MANTISSA, 0).checked_sub(dec(1, 0)).is_none());
}

#[test]
fn checked_add_turns_down_a_rounded_sum() {
    assert!(dec(MAX_MANTISSA, 0).checked_add(dec(1, 1)).is_none());
    assert!(dec(MAX_MANTISSA, 0).checked_sub(dec(1, 1)).is_none());
}

#[test]
fn accept_sum_judges_the_answer() {
    let a = dec(15, 1);
    let b = dec(25, 2);
    assert_eq!(a.accept_sum(b, Some((175, 2))), Some(dec(175, 2)));
    assert_eq!(a.accept_sum(b, Some((1750, 3))).map(|d| d.scale()), Some(3));
    assert!(a.accept_sum(b, Some((18, 1))).is_none());
    assert!(a.accept_sum(b, Some((175, 29))).is_none());
    assert!(a.accept_sum(b, Some((MAX_MANTISSA + 1, 2))).is_none());
    assert!(a.accept_sum(b, None).is_none());
}

#[test]
fn accept_difference_judges_the_answer() {
    let a = dec(15, 1);
    let b = dec(25, 2);
    assert_eq!(a.accept_difference(b, Some((125, 2))), Some(dec(125, 2)));
    assert!(a.accept_difference(b, Some((175, 2))).is_none());
    assert!(b.accept_difference(a, Some((125, 2))).is_none());
    assert_eq!(b.accept_difference(a, Some((-125, 2))), Some(dec(-125, 2)));
    assert!(a.accept_difference(b, None).is_none());
}

#[test]
fn text_is_written_with_the_scale() {
    assert_eq!(dec(150, 2).text(), "1.50");
    assert_eq!(dec(-5, 1).text(), "-0.5");
    assert_eq!(Decimal::from_int(70).text(), "70");
}

#[test]
fn labels_name_sides_and_reasons() {
    assert_eq!(Side::Buy.label(), "Buy");
    assert_eq!(Side::Sell.label(), "Sell");
    assert_eq!(Reason::LevelNotFound.label(), "no price level found");
    assert_eq!(Reason::InsufficientDepth.label(), "insufficient depth");
    assert_eq!(Reason::ArithmeticOverflow.label(), "arithmetic overflow");
}
