use arbitrage::book::{BookEntry, OrderBook, OrderBookMessage};
use arbitrage::decimal::Decimal;

fn entry(price: i64, amount: i64) -> BookEntry {
    BookEntry { price: Decimal::new(price, 0), amount: Decimal::new(amount, 0) }
}

fn prices(side: &Vec<BookEntry>) -> Vec<i128> {
    side.iter().map(|e| e.price.mantissa()).collect()
}

fn amounts(side: &Vec<BookEntry>) -> Vec<i128> {
    side.iter().map(|e| e.amount.mantissa()).collect()
}

#[test]
fn new_book_is_empty_and_has_no_best() {
    let book = OrderBook::new();
    assert!(book.bids.is_empty());
    assert!(book.asks.is_empty());
    assert!(book.best_bid().is_none());
    assert!(book.best_ask().is_none());
}

#[test]
fn bids_are_kept_descending() {
    let mut book = OrderBook::new();
    for p in [100, 102, 101, 99, 105] {
        book.update(OrderBookMessage::BidUpdate(entry(p, 1)));
    }
    assert_eq!(prices(&book.bids), vec![105, 102, 101, 100, 99]);
    assert_eq!(book.best_bid().unwrap().price, Decimal::new(105, 0));
    assert!(book.asks.is_empty());
}

#[test]
fn asks_are_kept_ascending() {
    let mut book = OrderBook::new();
    for p in [100, 102, 101, 99, 105] {
        book.update(OrderBookMessage::AskUpdate(entry(p, 1)));
    }
    assert_eq!(prices(&book.asks), vec![99, 100, 101, 102, 105]);
    assert_eq!(book.best_ask().unwrap().price, Decimal::new(99, 0));
    assert!(book.bids.is_empty());
}

#[test]
fn update_at_existing_price_replaces_only_the_amount() {
    let mut book = OrderBook::new();
    book.update(OrderBookMessage::AskUpdate(entry(100, 1)));
    book.update(OrderBookMessage::AskUpdate(entry(101, 2)));
    book.update(OrderBookMessage::AskUpdate(entry(102, 3)));
    book.update(OrderBookMessage::AskUpdate(entry(101, 7)));
    assert_eq!(prices(&book.asks), vec![100, 101, 102]);
    assert_eq!(amounts(&book.asks), vec![1, 7, 3]);
}

#[test]
fn a_price_is_found_whatever_its_scale() {
    let mut book = OrderBook::new();
    book.update(OrderBookMessage::BidUpdate(entry(100, 1)));
    let same_price = BookEntry { price: Decimal::new(1000, 1), amount: Decimal::new(9, 0) };
    book.update(OrderBookMessage::BidUpdate(same_price));
    assert_eq!(book.bids.len(), 1);
    assert_eq!(book.bids[0].price.scale(), 0);
    assert_eq!(book.bids[0].amount, Decimal::new(9, 0));
}

#[test]
fn amount_zero_removes_the_level() {
    let mut book = OrderBook::new();
    for p in [100, 101, 102] {
        book.update(OrderBookMessage::BidUpdate(entry(p, 1)));
    }
    book.update(OrderBookMessage::BidUpdate(entry(101, 0)));
    assert_eq!(prices(&book.bids), vec![102, 100]);
}

#[test]
fn amount_zero_at_absent_price_changes_nothing() {
    let mut book = OrderBook::new();
    for p in [100, 101, 102] {
        book.update(OrderBookMessage::BidUpdate(entry(p, 4)));
        book.update(OrderBookMessage::AskUpdate(entry(p + 10, 5)));
    }
    book.update(OrderBookMessage::BidUpdate(entry(150, 0)));
    book.update(OrderBookMessage::AskUpdate(entry(50, 0)));
    assert_eq!(prices(&book.bids), vec![102, 101, 100]);
    assert_eq!(amounts(&book.bids), vec![4, 4, 4]);
    assert_eq!(prices(&book.asks), vec![110, 111, 112]);
    assert_eq!(amounts(&book.asks), vec![5, 5, 5]);
}

#[test]
fn removing_the_last_level_leaves_no_best() {
    let mut book = OrderBook::new();
    book.update(OrderBookMessage::AskUpdate(entry(100, 1)));
    book.update(OrderBookMessage::BidUpdate(entry(99, 1)));
    book.update(OrderBookMessage::AskUpdate(entry(100, 0)));
    assert!(book.best_ask().is_none());
    assert_eq!(book.best_bid().unwrap().price, Decimal::new(99, 0));
    book.update(OrderBookMessage::BidUpdate(entry(99, 0)));
    assert!(book.best_bid().is_none());
}

#[test]
fn snapshot_replaces_both_sides() {
    let mut book = OrderBook::new();
    book.update(OrderBookMessage::BidUpdate(entry(10, 1)));
    book.update(OrderBookMessage::AskUpdate(entry(20, 1)));
    book.update(OrderBookMessage::Snapshot {
        bids: vec![entry(99, 2), entry(98, 3)],
        asks: vec![entry(100, 4), entry(101, 5), entry(102, 6)],
    });
    assert_eq!(prices(&book.bids), vec![99, 98]);
    assert_eq!(prices(&book.asks), vec![100, 101, 102]);
    assert_eq!(book.best_bid().unwrap().amount, Decimal::new(2, 0));
    assert_eq!(book.best_ask().unwrap().amount, Decimal::new(4, 0));
}

#[test]
fn empty_snapshot_empties_the_book() {
    let mut book = OrderBook::new();
    book.update(OrderBookMessage::BidUpdate(entry(10, 1)));
    book.update(OrderBookMessage::Snapshot { bids: vec![], asks: vec![] });
    assert!(book.best_bid().is_none());
    assert!(book.best_ask().is_none());
}

#[test]
fn best_is_the_first_entry_even_of_an_unsorted_snapshot() {
    let mut book = OrderBook::new();
    book.update(OrderBookMessage::Snapshot {
        bids: vec![entry(1, 1), entry(3, 1)],
        asks: vec![entry(9, 1), entry(7, 1)],
    });
    assert_eq!(book.best_bid().unwrap().price, Decimal::new(1, 0));
    assert_eq!(book.best_ask().unwrap().price, Decimal::new(9, 0));
}

#[test]
fn a_new_price_sorts_an_unsorted_side() {
    let mut book = OrderBook::new();
    book.update(OrderBookMessage::Snapshot {
        bids: vec![entry(1, 1), entry(3, 1), entry(2, 1)],
        asks: vec![entry(9, 1), entry(7, 1), entry(8, 1)],
    });
    book.update(OrderBookMessage::BidUpdate(entry(5, 1)));
    book.update(OrderBookMessage::AskUpdate(entry(6, 1)));
    assert_eq!(prices(&book.bids), vec![5, 3, 2, 1]);
    assert_eq!(prices(&book.asks), vec![6, 7, 8, 9]);
}

#[test]
fn sorting_keeps_equal_prices_in_their_order() {
    let mut book = OrderBook::new();
    book.update(OrderBookMessage::Snapshot {
        bids: vec![entry(2, 10), entry(4, 20), entry(2, 30), entry(4, 40)],
        asks: vec![entry(4, 10), entry(2, 20), entry(4, 30), entry(2, 40)],
    });
    book.update(OrderBookMessage::BidUpdate(entry(3, 50)));
    book.update(OrderBookMessage::AskUpdate(entry(3, 50)));
    assert_eq!(prices(&book.bids), vec![4, 4, 3, 2, 2]);
    assert_eq!(amounts(&book.bids), vec![20, 40, 50, 10, 30]);
    assert_eq!(prices(&book.asks), vec![2, 2, 3, 4, 4]);
    assert_eq!(amounts(&book.asks), vec![20, 40, 50, 10, 30]);
}

#[test]
fn removal_and_replacement_touch_the_first_entry_at_a_price() {
    let mut book = OrderBook::new();
    book.update(OrderBookMessage::Snapshot {
        bids: vec![entry(5, 1), entry(5, 2), entry(4, 3)],
        asks: vec![],
    });
    book.update(OrderBookMessage::BidUpdate(entry(5, 9)));
    assert_eq!(amounts(&book.bids), vec![9, 2, 3]);
    book.update(OrderBookMessage::BidUpdate(entry(5, 0)));
    assert_eq!(amounts(&book.bids), vec![2, 3]);
}

#[test]
fn no_price_occurs_twice_after_many_updates() {
    let mut book = OrderBook::new();
    let feed = [
        (100, 1), (101, 2), (100, 3), (99, 4), (101, 0), (102, 5), (99, 6), (98, 0), (100, 0),
        (103, 7), (102, 8), (97, 9),
    ];
    for (p, a) in feed {
        book.update(OrderBookMessage::BidUpdate(entry(p, a)));
        book.update(OrderBookMessage::AskUpdate(entry(p, a)));
        for w in book.bids.windows(2) {
            assert!(w[0].price.gt(&w[1].price));
        }
        for w in book.asks.windows(2) {
            assert!(w[0].price.lt(&w[1].price));
        }
    }
    assert_eq!(prices(&book.bids), vec![103, 102, 99, 97]);
    assert_eq!(amounts(&book.bids), vec![7, 8, 6, 9]);
    assert_eq!(prices(&book.asks), vec![97, 99, 102, 103]);
}

#[test]
fn fractional_prices_sort_by_number() {
    let mut book = OrderBook::new();
    let level = |num: i64, scale: u32| BookEntry {
        price: Decimal::new(num, scale),
        amount: Decimal::new(1, 0),
    };
    book.update(OrderBookMessage::AskUpdate(level(1005, 1)));
    book.update(OrderBookMessage::AskUpdate(level(10049, 2)));
    book.update(OrderBookMessage::AskUpdate(level(101, 0)));
    book.update(OrderBookMessage::AskUpdate(level(1, 3)));
    let got: Vec<(i128, u32)> = book.asks.iter().map(|e| (e.price.mantissa(), e.price.scale())).collect();
    assert_eq!(got, vec![(1, 3), (10049, 2), (1005, 1), (101, 0)]);
}
