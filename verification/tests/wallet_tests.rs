use arbitrage::decimal::{ArithmeticError, Decimal, MAX_MANTISSA};
use arbitrage::wallet::Wallet;

fn dec(num: i64, scale: u32) -> Decimal {
    Decimal::new(num, scale)
}

#[test]
fn new_wallet_holds_only_quote() {
    let wallet = Wallet::new(dec(1000, 0));
    assert_eq!(wallet.base, dec(0, 0));
    assert_eq!(wallet.base.scale(), 0);
    assert_eq!(wallet.quote, dec(1000, 0));
}

#[test]
fn rebalance_splits_quote_and_buys_base() {
    let mut wallet = Wallet::new(dec(1000, 0));
    assert_eq!(wallet.rebalance(dec(10, 0)), Ok(()));
    assert_eq!(wallet.base, dec(50, 0));
    assert_eq!(wallet.quote, dec(500, 0));
}

#[test]
fn rebalance_at_a_fractional_price() {
    let mut wallet = Wallet::new(dec(100, 0));
    assert_eq!(wallet.rebalance(dec(25, 1)), Ok(()));
    assert_eq!(wallet.base, dec(20, 0));
    assert_eq!(wallet.quote, dec(50, 0));
}

#[test]
fn rebalance_at_price_zero_fails_and_keeps_the_wallet() {
    let mut wallet = Wallet { base: dec(3, 0), quote: dec(1000, 0) };
    assert_eq!(wallet.rebalance(dec(0, 0)), Err(ArithmeticError::DivisionByZero));
    assert_eq!(wallet.base, dec(3, 0));
    assert_eq!(wallet.quote, dec(1000, 0));
}

#[test]
fn rebalance_overflow_fails_and_keeps_the_wallet() {
    let top = Decimal::try_from_i128_with_scale(MAX_MANTISSA, 0).unwrap();
    let mut wallet = Wallet { base: dec(3, 0), quote: top };
    assert_eq!(wallet.rebalance(dec(1, 28)), Err(ArithmeticError::Overflow));
    assert_eq!(wallet.base, dec(3, 0));
    assert_eq!(wallet.quote, top);
}

#[test]
fn buy_takes_notional_and_fee_from_quote() {
    let wallet = Wallet::new(dec(100, 0));
    let after = wallet.buy(dec(10, 0), dec(5, 0), dec(1, 2)).unwrap();
    assert_eq!(after.base, dec(10, 0));
    assert_eq!(after.quote, dec(495, 1));
    assert_eq!(wallet.quote, dec(100, 0));
}

#[test]
fn buy_holds_the_quote_at_zero() {
    let wallet = Wallet { base: dec(1, 0), quote: dec(50, 0) };
    let after = wallet.buy(dec(10, 0), dec(5, 0), dec(1, 2)).unwrap();
    assert_eq!(after.base, dec(11, 0));
    assert_eq!(after.quote, dec(0, 0));
    assert!(after.quote.is_zero());
}

#[test]
fn buy_without_fee() {
    let wallet = Wallet { base: dec(0, 0), quote: dec(50, 0) };
    let after = wallet.buy(dec(10, 0), dec(5, 0), dec(0, 0)).unwrap();
    assert_eq!(after.quote, dec(0, 0));
    assert_eq!(after.base, dec(10, 0));
}

#[test]
fn sell_adds_notional_less_fee_to_quote() {
    let wallet = Wallet { base: dec(10, 0), quote: dec(100, 0) };
    let after = wallet.sell(dec(4, 0), dec(5, 0), dec(1, 2)).unwrap();
    assert_eq!(after.base, dec(6, 0));
    assert_eq!(after.quote, dec(1198, 1));
}

#[test]
fn sell_may_take_the_base_below_zero() {
    let wallet = Wallet { base: dec(1, 0), quote: dec(0, 0) };
    let after = wallet.sell(dec(4, 0), dec(5, 0), dec(0, 0)).unwrap();
    assert_eq!(after.base, dec(-3, 0));
    assert_eq!(after.quote, dec(20, 0));
}

#[test]
fn buy_and_sell_overflow_is_an_error() {
    let top = Decimal::try_from_i128_with_scale(MAX_MANTISSA, 0).unwrap();
    let wallet = Wallet { base: dec(1, 0), quote: dec(1, 0) };
    assert_eq!(wallet.buy(top, dec(2, 0), dec(0, 0)).map(|w| w.base), Err(ArithmeticError::Overflow));
    assert_eq!(wallet.sell(top, dec(2, 0), dec(0, 0)).map(|w| w.base), Err(ArithmeticError::Overflow));
    let full = Wallet { base: top, quote: dec(1, 0) };
    assert_eq!(full.buy(dec(1, 0), dec(1, 0), dec(0, 0)).map(|w| w.base), Err(ArithmeticError::Overflow));
}

#[test]
fn round_trip_moves_base_and_costs_the_fees() {
    let buyer = Wallet { base: dec(50, 0), quote: dec(500, 0) };
    let seller = Wallet { base: dec(50, 0), quote: dec(500, 0) };
    let bought = buyer.buy(dec(3, 0), dec(100, 0), dec(1, 3)).unwrap();
    let sold = seller.sell(dec(3, 0), dec(100, 0), dec(2, 3)).unwrap();
    assert_eq!(bought.base.checked_add(sold.base), Some(dec(100, 0)));
    // fees: 300 * 0.001 + 300 * 0.002 = 0.9
    assert_eq!(bought.quote.checked_add(sold.quote), Some(dec(9991, 1)));
}

#[test]
fn round_trip_at_two_prices() {
    let buyer = Wallet { base: dec(50, 0), quote: dec(500, 0) };
    let seller = Wallet { base: dec(50, 0), quote: dec(500, 0) };
    let bought = buyer.buy(dec(3, 0), dec(100, 0), dec(1, 3)).unwrap();
    let sold = seller.sell(dec(3, 0), dec(101, 0), dec(1, 3)).unwrap();
    assert_eq!(bought.base, dec(53, 0));
    assert_eq!(sold.base, dec(47, 0));
    assert_eq!(bought.quote, dec(1997, 1));
    assert_eq!(sold.quote, dec(802697, 3));
}
