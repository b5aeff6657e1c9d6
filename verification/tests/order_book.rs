use boldtrace::order_book::{BookSide, BookState, LevelUpdate};

fn level(price: &str, quantity: &str) -> LevelUpdate {
    LevelUpdate { price: price.into(), quantity: quantity.into(), zero: quantity.parse::<f64>().ok() == Some(0.0) }
}

fn sorted(side: &BookSide) -> Vec<(String, String)> {
    let mut levels = side.levels();
    levels.sort();
    levels
}

#[test]
fn zero_quantity_removes_level() {
    let mut book = BookSide::new();
    book.apply("100", "2", false);
    book.apply("100", "0", true);
    assert!(book.levels().is_empty());
}

#[test]
fn deltas_set_and_snapshots_replace() {
    let mut book = BookState::new();
    book.apply_message(true, &vec![level("100", "2"), level("99", "1")], &vec![level("101", "3")]);
    book.apply_message(false, &vec![level("100", "5"), level("98", "0")], &vec![level("101", "0.000")]);
    assert_eq!(sorted(&book.bids), vec![("100".to_string(), "5".to_string()), ("99".to_string(), "1".to_string())]);
    assert!(book.asks.levels().is_empty());
    book.apply_message(true, &vec![level("97", "1")], &vec![]);
    assert_eq!(sorted(&book.bids), vec![("97".to_string(), "1".to_string())]);
    assert!(book.asks.levels().is_empty());
}

#[test]
fn each_price_is_listed_once() {
    let mut side = BookSide::new();
    for q in ["1", "2", "3"] {
        side.apply("50", q, false);
    }
    assert_eq!(side.levels(), vec![("50".to_string(), "3".to_string())]);
}
