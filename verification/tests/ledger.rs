use l2book::decimal::MAX_MANTISSA;
use l2book::{Decimal, Level, OrderBook, OrderBookErr, Reason, Side};

fn dec(mantissa: i128, scale: u32) -> Decimal {
    Decimal::new(mantissa, scale).expect("in range")
}

fn whole(value: i64) -> Decimal {
    Decimal::from_int(value)
}

#[test]
fn a_new_book_has_no_levels() {
    let ob = OrderBook::new();
    assert!(ob.get_bids().is_empty());
    assert!(ob.get_asks().is_empty());
    assert!(ob.find(whole(1), Side::Buy).is_none());
}

#[test]
fn adds_at_one_price_accumulate() {
    let mut ob = OrderBook::new();
    ob.add(whole(100), whole(10), Side::Buy).unwrap();
    ob.add(whole(100), whole(5), Side::Buy).unwrap();
    ob.add(whole(100), dec(25, 1), Side::Buy).unwrap();
    assert_eq!(ob.get_amount(whole(100), Side::Buy).unwrap(), dec(175, 1));
    assert_eq!(ob.get_bids().len(), 1);
}

#[test]
fn adds_accumulate_in_any_order() {
    let mut one = OrderBook::new();
    one.add(whole(7), dec(125, 2), Side::Sell).unwrap();
    one.add(whole(7), whole(3), Side::Sell).unwrap();
    let mut other = OrderBook::new();
    other.add(whole(7), whole(3), Side::Sell).unwrap();
    other.add(whole(7), dec(125, 2), Side::Sell).unwrap();
    assert_eq!(
        one.get_amount(whole(7), Side::Sell).unwrap(),
        other.get_amount(whole(7), Side::Sell).unwrap()
    );
    assert_eq!(one.get_amount(whole(7), Side::Sell).unwrap(), dec(425, 2));
}

#[test]
fn sides_are_kept_apart() {
    let mut ob = OrderBook::new();
    ob.add(whole(50), whole(1), Side::Buy).unwrap();
    ob.add(whole(50), whole(2), Side::Sell).unwrap();
    assert_eq!(ob.get_amount(whole(50), Side::Buy).unwrap(), whole(1));
    assert_eq!(ob.get_amount(whole(50), Side::Sell).unwrap(), whole(2));
}

#[test]
fn amount_of_a_price_never_added_is_level_not_found() {
    let mut ob = OrderBook::new();
    ob.add(whole(50), whole(1), Side::Buy).unwrap();
    let err = ob.get_amount(whole(51), Side::Buy).unwrap_err();
    assert_eq!(err.reason, Reason::LevelNotFound);
    assert_eq!(err.price, Some(whole(51)));
    assert!(err.amount.is_none());
    assert_eq!(err.side, Side::Buy);
    let err = ob.get_amount(whole(50), Side::Sell).unwrap_err();
    assert_eq!(err.reason, Reason::LevelNotFound);
    assert_eq!(err.side, Side::Sell);
}

#[test]
fn removing_more_than_rests_is_insufficient_depth() {
    let mut ob = OrderBook::new();
    ob.add(whole(50), whole(10), Side::Sell).unwrap();
    let err = ob.remove(whole(50), dec(1001, 2), Side::Sell).unwrap_err();
    assert_eq!(err.reason, Reason::InsufficientDepth);
    assert_eq!(err.price, Some(whole(50)));
    assert_eq!(err.amount, Some(dec(1001, 2)));
    assert_eq!(err.side, Side::Sell);
    assert_eq!(ob.get_amount(whole(50), Side::Sell).unwrap(), whole(10));
    assert_eq!(ob.get_asks().len(), 1);
}

#[test]
fn removing_all_that_rests_is_accepted() {
    let mut ob = OrderBook::new();
    ob.add(whole(50), whole(10), Side::Sell).unwrap();
    ob.remove(whole(50), whole(10), Side::Sell).unwrap();
    assert_eq!(ob.get_amount(whole(50), Side::Sell).unwrap(), whole(10));
}

#[test]
fn a_level_at_zero_stays_in_the_book() {
    let mut ob = OrderBook::new();
    ob.add(whole(50), whole(10), Side::Buy).unwrap();
    ob.remove(whole(50), Decimal::from_int(0), Side::Buy).unwrap();
    assert_eq!(ob.get_amount(whole(50), Side::Buy).unwrap(), Decimal::from_int(0));
    let bids = ob.get_bids();
    assert_eq!(bids.len(), 1);
    assert_eq!(bids[0], (whole(50), Decimal::from_int(0)));
}

#[test]
fn a_removal_within_the_level_succeeds_without_an_exact_difference() {
    let mut ob = OrderBook::new();
    let most = dec(MAX_MANTISSA, 0);
    ob.add(whole(1), most, Side::Buy).unwrap();
    ob.remove(whole(1), dec(1, 1), Side::Buy).unwrap();
    assert_eq!(ob.get_amount(whole(1), Side::Buy).unwrap(), dec(1, 1));
    let mut ob = OrderBook::new();
    ob.add(whole(1), whole(10), Side::Sell).unwrap();
    ob.remove(whole(1), dec(1, 28), Side::Sell).unwrap();
    assert_eq!(ob.get_amount(whole(1), Side::Sell).unwrap(), dec(1, 28));
    assert_eq!(ob.get_asks().len(), 1);
}

#[test]
fn a_sum_out_of_range_is_arithmetic_overflow() {
    let mut ob = OrderBook::new();
    let most = dec(MAX_MANTISSA, 0);
    ob.add(whole(1), most, Side::Buy).unwrap();
    let err = ob.add(whole(1), whole(1), Side::Buy).unwrap_err();
    assert_eq!(err.reason, Reason::ArithmeticOverflow);
    assert_eq!(err.price, Some(whole(1)));
    assert_eq!(err.amount, Some(whole(1)));
    assert_eq!(err.side, Side::Buy);
    assert_eq!(ob.get_amount(whole(1), Side::Buy).unwrap(), most);
    let err = ob.add(whole(1), dec(1, 1), Side::Buy).unwrap_err();
    assert_eq!(err.reason, Reason::ArithmeticOverflow);
}

#[test]
fn bids_come_by_ascending_price() {
    let mut ob = OrderBook::new();
    for value in [3, 1, 4, 15, 9, 2, 6] {
        ob.add(whole(value), whole(value * 10), Side::Buy).unwrap();
    }
    ob.add(dec(-5, 1), whole(7), Side::Buy).unwrap();
    let bids = ob.get_bids();
    let prices: Vec<Decimal> = bids.iter().map(|entry| entry.0).collect();
    assert_eq!(
        prices,
        vec![dec(-5, 1), whole(1), whole(2), whole(3), whole(4), whole(6), whole(9), whole(15)]
    );
    assert_eq!(bids[0].1, whole(7));
    assert_eq!(bids[7].1, whole(150));
}

#[test]
fn bids_read_in_reverse_come_best_first() {
    let mut ob = OrderBook::new();
    for value in [3, 1, 4, 15, 9, 2, 6] {
        ob.add(whole(value), whole(value * 10), Side::Buy).unwrap();
    }
    let bids = ob.get_bids();
    let prices: Vec<Decimal> = bids.iter().rev().map(|entry| entry.0).collect();
    assert_eq!(prices, vec![whole(15), whole(9), whole(6), whole(4), whole(3), whole(2), whole(1)]);
    for pair in prices.windows(2) {
        assert!(pair[0] > pair[1]);
    }
}

#[test]
fn asks_come_by_ascending_price() {
    let mut ob = OrderBook::new();
    for value in [3, 1, 4, 15, 9, 2, 6] {
        ob.add(whole(value), whole(value * 10), Side::Sell).unwrap();
    }
    ob.add(dec(25, 1), whole(7), Side::Sell).unwrap();
    let asks = ob.get_asks();
    let prices: Vec<Decimal> = asks.iter().map(|entry| entry.0).collect();
    assert_eq!(
        prices,
        vec![whole(1), whole(2), dec(25, 1), whole(3), whole(4), whole(6), whole(9), whole(15)]
    );
    assert_eq!(asks[2].1, whole(7));
}

#[test]
fn equal_prices_name_one_level() {
    let mut ob = OrderBook::new();
    ob.add(dec(10, 1), whole(4), Side::Sell).unwrap();
    ob.add(dec(100, 2), whole(6), Side::Sell).unwrap();
    let asks = ob.get_asks();
    assert_eq!(asks.len(), 1);
    assert_eq!(asks[0].0.scale(), 1);
    assert_eq!(asks[0].1, whole(10));
    assert_eq!(ob.get_amount(whole(1), Side::Sell).unwrap(), whole(10));
}

#[test]
fn credited_decides_on_the_sum() {
    let level = Level { price: dec(10, 1), amount: whole(4) };
    let made = Level::credited(None, whole(1), whole(6), Side::Buy, None).unwrap();
    assert_eq!(made.price.scale(), 0);
    assert_eq!(made.amount, whole(6));
    let made = Level::credited(Some(level), whole(1), whole(6), Side::Buy, Some(whole(10))).unwrap();
    assert_eq!(made.price.scale(), 1);
    assert_eq!(made.amount, whole(10));
    let err = Level::credited(Some(level), whole(1), whole(6), Side::Buy, None).unwrap_err();
    assert_eq!(err.reason, Reason::ArithmeticOverflow);
    assert_eq!(err.amount, Some(whole(6)));
}

#[test]
fn debited_decides_on_the_depth() {
    let level = Level { price: dec(10, 1), amount: whole(10) };
    let side = Side::Sell;
    let err = Level::debited(None, whole(1), whole(3), side, Some(whole(3)));
    let err = err.unwrap_err();
    assert_eq!(err.reason, Reason::LevelNotFound);
    assert_eq!(err.amount, Some(whole(3)));
    let err = Level::debited(Some(level), whole(1), whole(11), side, Some(whole(11)));
    assert_eq!(err.unwrap_err().reason, Reason::InsufficientDepth);
    let err = Level::debited(Some(level), whole(1), dec(1001, 2), side, None);
    assert_eq!(err.unwrap_err().reason, Reason::InsufficientDepth);
    let made = Level::debited(Some(level), whole(1), whole(3), side, Some(dec(30, 1))).unwrap();
    assert_eq!(made.price.scale(), 1);
    assert_eq!(made.amount, whole(3));
    assert_eq!(made.amount.scale(), 1);
    let made = Level::debited(Some(level), whole(1), whole(3), side, None).unwrap();
    assert_eq!(made.price.scale(), 1);
    assert_eq!(made.amount, whole(3));
    assert_eq!(made.amount.scale(), 0);
    let made = Level::debited(Some(level), whole(1), whole(10), side, None).unwrap();
    assert_eq!(made.amount, whole(10));
}

#[test]
fn an_error_reads_as_one_line() {
    let mut ob = OrderBook::new();
    let err = ob.remove(whole(70), whole(5), Side::Sell).unwrap_err();
    assert_eq!(
        err.message(),
        "order book error; reason: no price level found; price: Some(70); amount: Some(5); side: Sell"
    );
    let err = ob.get_amount(dec(150, 2), Side::Buy).unwrap_err();
    assert_eq!(
        err.message(),
        "order book error; reason: no price level found; price: Some(1.50); amount: None; side: Buy"
    );
}

#[test]
fn compose_writes_what_it_is_given() {
    let text = OrderBookErr::compose(
        Reason::InsufficientDepth,
        Some(String::from("a")),
        None,
        Side::Buy,
    );
    assert_eq!(
        text,
        "order book error; reason: insufficient depth; price: Some(a); amount: None; side: Buy"
    );
}

#[test]
fn adds_accumulate_among_other_requests() {
    let mut ob = OrderBook::new();
    ob.add(whole(5), whole(1), Side::Buy).unwrap();
    ob.add(whole(6), whole(100), Side::Buy).unwrap();
    ob.add(whole(5), whole(2), Side::Buy).unwrap();
    ob.add(whole(5), whole(1000), Side::Sell).unwrap();
    ob.remove(whole(6), whole(40), Side::Buy).unwrap();
    ob.add(whole(5), dec(5, 1), Side::Buy).unwrap();
    assert_eq!(ob.get_amount(whole(5), Side::Buy).unwrap(), dec(35, 1));
    assert_eq!(ob.get_amount(whole(6), Side::Buy).unwrap(), whole(40));
    assert_eq!(ob.get_amount(whole(5), Side::Sell).unwrap(), whole(1000));
}
