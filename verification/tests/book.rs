use l2book::{Amount, Decimal, OrderBook, Price, Reason, Side};

fn price(value: i64) -> Price {
    Decimal::from_int(value)
}

fn amt(value: i64) -> Amount {
    Decimal::from_int(value)
}

#[test]
fn simple_operations_asks() {
    let mut ob = OrderBook::new();
    let mut at: i64 = 0;
    let amount = amt(10);
    for _ in 0..100 {
        at += 1;
        assert!(ob.add(price(at), amount, Side::Buy).is_ok());
    }
    at += 5;
    for _ in 0..100 {
        at += 1;
        assert!(ob.add(price(at), amount, Side::Sell).is_ok());
    }
    assert_eq!(ob.get_asks().len(), 100);
    assert_eq!(ob.get_bids().len(), 100);
    assert!(ob.remove(price(150), amt(5), Side::Sell).is_ok());
    assert!(ob.get_amount(price(150), Side::Sell).is_ok());
    assert_eq!(ob.get_amount(price(150), Side::Sell).expect("checked"), amt(5));
    assert!(ob.remove(price(70), amt(5), Side::Sell).is_err());
}

#[test]
fn tst() {
    assert!(amt(1) > amt(0))
}

#[test]
fn remove_of_a_price_never_added_is_level_not_found() {
    let mut ob = OrderBook::new();
    ob.add(price(150), amt(10), Side::Sell).unwrap();
    let err = ob.remove(price(70), amt(5), Side::Sell).unwrap_err();
    assert_eq!(err.reason, Reason::LevelNotFound);
    assert_eq!(err.price, Some(price(70)));
    assert_eq!(err.amount, Some(amt(5)));
    assert_eq!(err.side, Side::Sell);
    let err = ob.remove(price(150), amt(5), Side::Buy).unwrap_err();
    assert_eq!(err.reason, Reason::LevelNotFound);
    assert_eq!(err.side, Side::Buy);
}

#[test]
fn removal_leaves_the_amount_asked_for() {
    let mut ob = OrderBook::new();
    ob.add(price(42), amt(10), Side::Sell).unwrap();
    ob.remove(price(42), amt(3), Side::Sell).unwrap();
    assert_eq!(ob.get_amount(price(42), Side::Sell).unwrap(), amt(3));
}
