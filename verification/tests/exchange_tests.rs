use arbitrage::book::{BookEntry, OrderBookMessage};
use arbitrage::decimal::{ArithmeticError, Decimal, MAX_MANTISSA};
use arbitrage::exchange::aevo::{self, Aevo};
use arbitrage::exchange::dydx::{self, DyDx};
use arbitrage::exchange::{
    depleted_level, fee_rate, persistent_feedback, Exchange, FeedError, Symbol,
};
use arbitrage::strategy::TradeReport;
use std::str::FromStr;

fn dec(num: i64, scale: u32) -> Decimal {
    Decimal::new(num, scale)
}

fn level(price: i64, amount: i64) -> BookEntry {
    BookEntry { price: dec(price, 0), amount: dec(amount, 0) }
}

fn aevo_message(msg_type: &str, bids: Vec<BookEntry>, asks: Vec<BookEntry>) -> aevo::BookRawMessage {
    aevo::BookRawMessage { msg_type: msg_type.to_string(), bids, asks }
}

fn pair(p: (Option<BookEntry>, Option<BookEntry>)) -> (Option<(i128, i128)>, Option<(i128, i128)>) {
    (
        p.0.map(|e| (e.price.mantissa(), e.amount.mantissa())),
        p.1.map(|e| (e.price.mantissa(), e.amount.mantissa())),
    )
}

#[test]
fn fee_rate_is_a_hundredth_of_the_percentage() {
    assert_eq!(fee_rate(dec(5, 2)), Ok(dec(5, 4)));
    assert_eq!(fee_rate(dec(1, 0)), Ok(dec(1, 2)));
    assert_eq!(fee_rate(dec(0, 0)), Ok(dec(0, 0)));
}

#[test]
fn symbol_keeps_its_name() {
    assert_eq!(Symbol::new("ETH-PERP").as_str(), "ETH-PERP");
    assert_eq!(Symbol::from_str("ETH-USD").unwrap().as_str(), "ETH-USD");
    assert_eq!(Symbol::new("").as_str(), "");
}

#[test]
fn aevo_subscription_names_the_orderbook_channel() {
    let venue = Aevo::new(false, dec(0, 0));
    let text = venue.order_book_subscribe(&Symbol::new("ETH-PERP"));
    assert_eq!(text, "{\"data\":[\"orderbook:ETH-PERP\"],\"op\":\"subscribe\"}");
    let value: serde_json::Value = serde_json::from_str(&text).unwrap();
    assert_eq!(value["op"], "subscribe");
    assert_eq!(value["data"][0], "orderbook:ETH-PERP");
}

#[test]
fn dydx_subscription_names_the_symbol() {
    let venue = DyDx::new(false, dec(0, 0));
    let text = venue.order_book_subscribe(&Symbol::new("ETH-USD"));
    assert_eq!(text, "{\"channel\":\"v4_orderbook\",\"id\":\"ETH-USD\",\"type\":\"subscribe\"}");
    let value: serde_json::Value = serde_json::from_str(&text).unwrap();
    assert_eq!(value["type"], "subscribe");
    assert_eq!(value["channel"], "v4_orderbook");
    assert_eq!(value["id"], "ETH-USD");
}

#[test]
fn subscription_escapes_the_symbol() {
    let odd = "a\"b\\c\n";
    let text = DyDx::new(false, dec(0, 0)).order_book_subscribe(&Symbol::new(odd));
    let value: serde_json::Value = serde_json::from_str(&text).unwrap();
    assert_eq!(value["id"], odd);
    let text = Aevo::new(false, dec(0, 0)).order_book_subscribe(&Symbol::new(odd));
    let value: serde_json::Value = serde_json::from_str(&text).unwrap();
    assert_eq!(value["data"][0], format!("orderbook:{}", odd));
}

#[test]
fn adapters_start_with_an_empty_book() {
    let a = Aevo::new(true, dec(5, 4));
    assert!(a.order_book.best_bid().is_none() && a.order_book.best_ask().is_none());
    assert!(a.persistent_trades);
    assert_eq!(a.fee(), dec(5, 4));
    let d = DyDx::new(false, dec(2, 4));
    assert!(d.order_book.best_bid().is_none() && d.order_book.best_ask().is_none());
    assert!(!d.persistent_trades);
    assert_eq!(d.fee(), dec(2, 4));
}

#[test]
fn aevo_snapshot_is_a_snapshot() {
    let m = aevo_message("snapshot", vec![level(99, 1)], vec![level(100, 2), level(101, 3)]);
    match aevo::interpret(m).unwrap().unwrap() {
        OrderBookMessage::Snapshot { bids, asks } => {
            assert_eq!(bids.len(), 1);
            assert_eq!(asks.len(), 2);
            assert_eq!(asks[1].price, dec(101, 0));
        }
        other => panic!("not a snapshot: {:?}", other),
    }
}

#[test]
fn aevo_update_of_one_side_changes_its_first_level() {
    let asks = aevo_message("update", vec![], vec![level(100, 2), level(101, 3)]);
    match aevo::interpret(asks).unwrap().unwrap() {
        OrderBookMessage::AskUpdate(e) => {
            assert_eq!(e.price, dec(100, 0));
            assert_eq!(e.amount, dec(2, 0));
        }
        other => panic!("not an ask update: {:?}", other),
    }
    let bids = aevo_message("update", vec![level(99, 1), level(98, 1)], vec![]);
    match aevo::interpret(bids).unwrap().unwrap() {
        OrderBookMessage::BidUpdate(e) => assert_eq!(e.price, dec(99, 0)),
        other => panic!("not a bid update: {:?}", other),
    }
}

#[test]
fn aevo_update_of_both_sides_is_not_guessed_at() {
    let both = aevo_message("update", vec![level(99, 1)], vec![level(100, 2), level(101, 3)]);
    assert_eq!(aevo::interpret(both).map(|m| m.is_some()), Err(FeedError::UnrecognizedShape));
    let mut venue = Aevo::new(false, dec(0, 0));
    venue.on_message(aevo_message("snapshot", vec![level(90, 1)], vec![level(110, 3)])).unwrap();
    let r = venue.on_message(aevo_message("update", vec![level(99, 1)], vec![level(100, 2)]));
    assert_eq!(r.map(|p| p.0.is_some()), Err(FeedError::UnrecognizedShape));
    assert_eq!(venue.order_book.bids.len(), 1);
    assert_eq!(venue.order_book.asks.len(), 1);
    assert_eq!(venue.order_book.best_bid().unwrap().price, dec(90, 0));
    assert_eq!(venue.order_book.best_ask().unwrap().price, dec(110, 0));
}

#[test]
fn aevo_update_without_levels_asks_nothing() {
    assert!(aevo::interpret(aevo_message("update", vec![], vec![])).unwrap().is_none());
}

#[test]
fn aevo_unknown_type_is_an_error() {
    let r = aevo::interpret(aevo_message("trades", vec![level(1, 1)], vec![level(2, 1)]));
    assert_eq!(r.map(|m| m.is_some()), Err(FeedError::UnknownMessageType));
    let r = aevo::interpret(aevo_message("", vec![], vec![]));
    assert_eq!(r.map(|m| m.is_some()), Err(FeedError::UnknownMessageType));
    let r = aevo::interpret(aevo_message("Snapshot", vec![], vec![]));
    assert_eq!(r.map(|m| m.is_some()), Err(FeedError::UnknownMessageType));
}

#[test]
fn aevo_emits_best_bid_and_ask_after_each_message() {
    let mut venue = Aevo::new(false, dec(0, 0));
    let first = venue
        .on_message(aevo_message("snapshot", vec![level(99, 1), level(98, 2)], vec![level(100, 3)]))
        .unwrap();
    assert_eq!(pair(first), (Some((99, 1)), Some((100, 3))));
    let second = venue.on_message(aevo_message("update", vec![], vec![level(100, 0)])).unwrap();
    assert_eq!(pair(second), (Some((99, 1)), None));
    let third = venue.on_message(aevo_message("update", vec![level(995, 4)], vec![])).unwrap();
    assert_eq!(pair(third), (Some((995, 4)), None));
    let fourth = venue.on_message(aevo_message("update", vec![], vec![])).unwrap();
    assert_eq!(pair(fourth), (Some((995, 4)), None));
}

#[test]
fn aevo_unknown_message_leaves_the_book() {
    let mut venue = Aevo::new(false, dec(0, 0));
    venue.on_message(aevo_message("snapshot", vec![level(99, 1)], vec![level(100, 3)])).unwrap();
    let r = venue.on_message(aevo_message("ping", vec![level(1, 1)], vec![level(2, 2)]));
    assert_eq!(r.map(|p| p.0.is_some()), Err(FeedError::UnknownMessageType));
    assert_eq!(venue.order_book.bids.len(), 1);
    assert_eq!(venue.order_book.best_ask().unwrap().price, dec(100, 0));
}

#[test]
fn dydx_message_with_both_sides_is_a_snapshot() {
    let m = dydx::BookRawMessage { asks: Some(vec![level(100, 2)]), bids: Some(vec![]) };
    match dydx::interpret(m).unwrap() {
        OrderBookMessage::Snapshot { bids, asks } => {
            assert!(bids.is_empty());
            assert_eq!(asks.len(), 1);
        }
        other => panic!("not a snapshot: {:?}", other),
    }
}

#[test]
fn dydx_message_with_one_side_is_a_level_update() {
    let asks = dydx::BookRawMessage { asks: Some(vec![level(100, 2), level(101, 1)]), bids: None };
    match dydx::interpret(asks).unwrap() {
        OrderBookMessage::AskUpdate(e) => assert_eq!(e.price, dec(100, 0)),
        other => panic!("not an ask update: {:?}", other),
    }
    let bids = dydx::BookRawMessage { asks: None, bids: Some(vec![level(99, 2)]) };
    match dydx::interpret(bids).unwrap() {
        OrderBookMessage::BidUpdate(e) => assert_eq!(e.price, dec(99, 0)),
        other => panic!("not a bid update: {:?}", other),
    }
}

#[test]
fn dydx_message_without_levels_asks_nothing() {
    assert!(dydx::interpret(dydx::BookRawMessage { asks: None, bids: None }).is_none());
    assert!(dydx::interpret(dydx::BookRawMessage { asks: Some(vec![]), bids: None }).is_none());
    assert!(dydx::interpret(dydx::BookRawMessage { asks: None, bids: Some(vec![]) }).is_none());
}

#[test]
fn dydx_emits_bid_then_ask() {
    let mut venue = DyDx::new(false, dec(0, 0));
    let first = venue.on_message(dydx::BookRawMessage {
        asks: Some(vec![level(100, 3), level(101, 1)]),
        bids: Some(vec![level(99, 1)]),
    });
    assert_eq!(pair(first), (Some((99, 1)), Some((100, 3))));
    let second = venue.on_message(dydx::BookRawMessage { asks: None, bids: None });
    assert_eq!(pair(second), (Some((99, 1)), Some((100, 3))));
    let third = venue.on_message(dydx::BookRawMessage { asks: None, bids: Some(vec![level(99, 0)]) });
    assert_eq!(pair(third), (None, Some((100, 3))));
    let fourth = venue.on_message(dydx::BookRawMessage { asks: Some(vec![level(995, 1)]), bids: None });
    assert_eq!(pair(fourth), (None, Some((100, 3))));
    assert_eq!(venue.order_book.asks.len(), 3);
}

#[test]
fn depleted_level_is_the_best_level_less_the_amount() {
    let best = level(100, 5);
    let left = depleted_level(true, Some(&best), dec(2, 0)).unwrap().unwrap();
    assert_eq!(left.price, dec(100, 0));
    assert_eq!(left.amount, dec(3, 0));
    let none_left = depleted_level(true, Some(&best), dec(5, 0)).unwrap().unwrap();
    assert_eq!(none_left.price, dec(100, 0));
    assert!(none_left.amount.is_zero());
    assert!(depleted_level(false, Some(&best), dec(2, 0)).unwrap().is_none());
    assert!(depleted_level(true, None, dec(2, 0)).unwrap().is_none());
    let top = Decimal::try_from_i128_with_scale(-MAX_MANTISSA, 0).unwrap();
    assert_eq!(
        depleted_level(true, Some(&best), top).map(|l| l.is_some()),
        Err(ArithmeticError::Overflow)
    );
}

#[test]
fn aevo_feedback_is_at_the_best_price_whatever_the_trade_price() {
    let mut venue = Aevo::new(true, dec(0, 0));
    venue
        .on_message(aevo_message("snapshot", vec![level(99, 4), level(98, 1)], vec![level(100, 5), level(101, 9)]))
        .unwrap();
    // the engine bought at a quote of 101 that the book no longer shows
    let buy = venue.handle_persistent_buy(dec(2, 0), dec(101, 0)).unwrap().unwrap();
    assert_eq!(buy.asks.len(), 1);
    assert_eq!(buy.asks[0].price, dec(100, 0));
    assert_eq!(buy.asks[0].amount, dec(3, 0));
    let after = venue.on_message(buy).unwrap();
    assert_eq!(pair(after), (Some((99, 4)), Some((100, 3))));
    assert_eq!(venue.order_book.asks.len(), 2);
    assert_eq!(venue.order_book.asks[1].amount, dec(9, 0));
    let sell = venue.handle_persistent_sell(dec(4, 0), dec(98, 0)).unwrap().unwrap();
    assert_eq!(sell.bids.len(), 1);
    assert_eq!(sell.bids[0].price, dec(99, 0));
    assert!(sell.bids[0].amount.is_zero());
    let after = venue.on_message(sell).unwrap();
    assert_eq!(pair(after), (Some((98, 1)), Some((100, 3))));
}

#[test]
fn dydx_feedback_is_at_the_best_price_whatever_the_trade_price() {
    let mut venue = DyDx::new(true, dec(0, 0));
    venue.on_message(dydx::BookRawMessage {
        asks: Some(vec![level(100, 5), level(101, 9)]),
        bids: Some(vec![level(99, 4), level(98, 1)]),
    });
    let buy = venue.handle_persistent_buy(dec(2, 0), dec(101, 0)).unwrap().unwrap();
    assert!(buy.bids.is_none());
    assert_eq!(buy.asks.as_ref().unwrap().len(), 1);
    assert_eq!(buy.asks.as_ref().unwrap()[0].price, dec(100, 0));
    assert_eq!(buy.asks.as_ref().unwrap()[0].amount, dec(3, 0));
    assert_eq!(pair(venue.on_message(buy)), (Some((99, 4)), Some((100, 3))));
    assert_eq!(venue.order_book.asks.len(), 2);
    let sell = venue.handle_persistent_sell(dec(1, 0), dec(97, 0)).unwrap().unwrap();
    assert!(sell.asks.is_none());
    assert_eq!(sell.bids.as_ref().unwrap()[0].price, dec(99, 0));
    assert_eq!(sell.bids.as_ref().unwrap()[0].amount, dec(3, 0));
    assert_eq!(pair(venue.on_message(sell)), (Some((99, 3)), Some((100, 3))));
    assert_eq!(venue.order_book.bids.len(), 2);
}

#[test]
fn feedback_for_a_trade_goes_to_both_venues() {
    let mut buyer = Aevo::new(true, dec(0, 0));
    buyer.on_message(aevo_message("snapshot", vec![level(97, 4)], vec![level(98, 5)])).unwrap();
    let mut seller = DyDx::new(true, dec(0, 0));
    seller.on_message(dydx::BookRawMessage {
        asks: Some(vec![level(100, 5)]),
        bids: Some(vec![level(99, 4)]),
    });
    let trade = TradeReport {
        amount: dec(2, 0),
        buy_price: dec(98, 0),
        sell_price: dec(99, 0),
        total: dec(0, 0),
        pl: dec(0, 0),
    };
    let (to_buyer, to_seller) = persistent_feedback(&buyer, &seller, &trade).unwrap();
    let to_buyer = to_buyer.unwrap();
    assert_eq!(to_buyer.msg_type, "update");
    assert!(to_buyer.bids.is_empty());
    assert_eq!(to_buyer.asks[0].price, dec(98, 0));
    assert_eq!(to_buyer.asks[0].amount, dec(3, 0));
    let to_seller = to_seller.unwrap();
    assert!(to_seller.asks.is_none());
    assert_eq!(to_seller.bids.as_ref().unwrap()[0].price, dec(99, 0));
    assert_eq!(to_seller.bids.as_ref().unwrap()[0].amount, dec(2, 0));
    let quiet = Aevo::new(false, dec(0, 0));
    let (a, b) = persistent_feedback(&quiet, &seller, &trade).unwrap();
    assert!(a.is_none());
    assert!(b.is_some());
}

#[test]
fn persistent_hooks_do_nothing_when_disabled() {
    let mut a = Aevo::new(false, dec(0, 0));
    a.on_message(aevo_message("snapshot", vec![level(99, 1)], vec![level(100, 3)])).unwrap();
    assert!(a.handle_persistent_buy(dec(1, 0), dec(100, 0)).unwrap().is_none());
    assert!(a.handle_persistent_sell(dec(1, 0), dec(99, 0)).unwrap().is_none());
    let mut d = DyDx::new(false, dec(0, 0));
    d.on_message(dydx::BookRawMessage { asks: Some(vec![level(100, 3)]), bids: Some(vec![level(99, 1)]) });
    assert!(d.handle_persistent_buy(dec(1, 0), dec(100, 0)).unwrap().is_none());
    assert!(d.handle_persistent_sell(dec(1, 0), dec(99, 0)).unwrap().is_none());
}

#[test]
fn persistent_hooks_do_nothing_on_an_empty_side() {
    let a = Aevo::new(true, dec(0, 0));
    assert!(a.handle_persistent_buy(dec(1, 0), dec(100, 0)).unwrap().is_none());
    assert!(a.handle_persistent_sell(dec(1, 0), dec(99, 0)).unwrap().is_none());
    let d = DyDx::new(true, dec(0, 0));
    assert!(d.handle_persistent_buy(dec(1, 0), dec(100, 0)).unwrap().is_none());
    assert!(d.handle_persistent_sell(dec(1, 0), dec(99, 0)).unwrap().is_none());
}

#[test]
fn aevo_persistent_buy_depletes_the_best_ask() {
    let mut venue = Aevo::new(true, dec(0, 0));
    venue
        .on_message(aevo_message("snapshot", vec![level(99, 4)], vec![level(100, 3), level(101, 9)]))
        .unwrap();
    let update = venue.handle_persistent_buy(dec(1, 0), dec(100, 0)).unwrap().unwrap();
    assert_eq!(update.msg_type, "update");
    assert!(update.bids.is_empty());
    assert_eq!(update.asks.len(), 1);
    assert_eq!(update.asks[0].price, dec(100, 0));
    assert_eq!(update.asks[0].amount, dec(2, 0));
    let after = venue.on_message(update).unwrap();
    assert_eq!(pair(after), (Some((99, 4)), Some((100, 2))));
    let rest = venue.handle_persistent_buy(dec(2, 0), dec(100, 0)).unwrap().unwrap();
    let after = venue.on_message(rest).unwrap();
    assert_eq!(pair(after), (Some((99, 4)), Some((101, 9))));
}

#[test]
fn aevo_persistent_sell_depletes_the_best_bid() {
    let mut venue = Aevo::new(true, dec(0, 0));
    venue.on_message(aevo_message("snapshot", vec![level(99, 4), level(98, 1)], vec![level(100, 3)])).unwrap();
    let update = venue.handle_persistent_sell(dec(3, 0), dec(99, 0)).unwrap().unwrap();
    assert_eq!(update.msg_type, "update");
    assert!(update.asks.is_empty());
    assert_eq!(update.bids.len(), 1);
    assert_eq!(update.bids[0].amount, dec(1, 0));
    let after = venue.on_message(update).unwrap();
    assert_eq!(pair(after), (Some((99, 1)), Some((100, 3))));
}

#[test]
fn dydx_persistent_hooks_deplete_the_book() {
    let mut venue = DyDx::new(true, dec(0, 0));
    venue.on_message(dydx::BookRawMessage {
        asks: Some(vec![level(100, 3)]),
        bids: Some(vec![level(99, 4), level(98, 1)]),
    });
    let buy = venue.handle_persistent_buy(dec(1, 0), dec(100, 0)).unwrap().unwrap();
    assert!(buy.bids.is_none());
    assert_eq!(buy.asks.as_ref().unwrap().len(), 1);
    assert_eq!(buy.asks.as_ref().unwrap()[0].amount, dec(2, 0));
    assert_eq!(pair(venue.on_message(buy)), (Some((99, 4)), Some((100, 2))));
    let sell = venue.handle_persistent_sell(dec(4, 0), dec(99, 0)).unwrap().unwrap();
    assert!(sell.asks.is_none());
    assert_eq!(sell.bids.as_ref().unwrap()[0].price, dec(99, 0));
    assert!(sell.bids.as_ref().unwrap()[0].amount.is_zero());
    assert_eq!(pair(venue.on_message(sell)), (Some((98, 1)), Some((100, 2))));
}
