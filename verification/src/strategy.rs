//! One paired trade: how large it can be, whether it pays after fees, and
//! what it does to the two wallets.

use crate::book::BookEntry;
use crate::decimal::{opt_add, opt_mul, opt_sub, ArithmeticError, Decimal};
use crate::wallet::{spec_buy, spec_sell, Wallet};
use vstd::prelude::*;

verus! {

/// What a trade did: its size, its two prices, and the worth of the two
/// wallets after it.
#[derive(Clone, Copy, Debug)]
pub struct TradeReport {
    /// The amount of base bought on one venue and sold on the other.
    pub amount: Decimal,
    /// The price paid per unit.
    pub buy_price: Decimal,
    /// The price received per unit.
    pub sell_price: Decimal,
    /// Both wallets' quote, and their base valued at the reference price.
    pub total: Decimal,
    /// `total` relative to the two starting values, less one.
    pub pl: Decimal,
}

/// The two wallets after a pass of the strategy, and the trade if one was
/// made.
#[derive(Clone, Copy, Debug)]
pub struct StrategyResult {
    pub buy_wallet: Wallet,
    pub sell_wallet: Wallet,
    pub trade: Option<TradeReport>,
}

/// The difference between a bid and an ask, relative to their midpoint.
pub open spec fn spec_spread(ask: Decimal, bid: Decimal) -> Result<Decimal, ArithmeticError> {
    match (bid.spec_checked_sub(ask), bid.spec_checked_add(ask)) {
        (Some(difference), Some(sum)) => match sum.spec_div(Decimal::spec_new(2, 0)) {
            Ok(middle) => difference.spec_div(middle),
            Err(e) => Err(e),
        },
        _ => Err(ArithmeticError::Overflow),
    }
}

/// Both wallets' quote, and their base valued at `price`.
pub open spec fn spec_total(price: Decimal, wallet1: Wallet, wallet2: Wallet) -> Option<Decimal> {
    opt_add(
        opt_add(wallet1.quote.spec_checked_add(wallet2.quote), wallet1.base.spec_checked_mul(price)),
        wallet2.base.spec_checked_mul(price),
    )
}

/// The profit-and-loss figure and the total it is taken from: the total
/// divided by twice the starting value, less one.
pub open spec fn spec_pl(
    starting_value: Decimal,
    price: Decimal,
    wallet1: Wallet,
    wallet2: Wallet,
) -> Result<(Decimal, Decimal), ArithmeticError> {
    match (
        starting_value.spec_checked_mul(Decimal::spec_new(2, 0)),
        spec_total(price, wallet1, wallet2),
    ) {
        (Some(start), Some(total)) => match total.spec_div(start) {
            Ok(ratio) => match ratio.spec_checked_sub(Decimal::spec_new(1, 0)) {
                Some(pl) => Ok((pl, total)),
                None => Err(ArithmeticError::Overflow),
            },
            Err(e) => Err(e),
        },
        _ => Err(ArithmeticError::Overflow),
    }
}

/// What selling `amount` brings in.
pub open spec fn spec_proceeds(amount: Decimal, sell_price: Decimal) -> Option<Decimal> {
    amount.spec_checked_mul(sell_price)
}

/// What buying `amount` costs.
pub open spec fn spec_cost(amount: Decimal, buy_price: Decimal) -> Option<Decimal> {
    amount.spec_checked_mul(buy_price)
}

/// What is left of the proceeds after the cost and both fees.
pub open spec fn spec_profit(
    amount: Decimal,
    sell_price: Decimal,
    buy_price: Decimal,
    sell_fee: Decimal,
    buy_fee: Decimal,
) -> Option<Decimal> {
    let sell = spec_proceeds(amount, sell_price);
    let buy = spec_cost(amount, buy_price);
    opt_sub(opt_sub(opt_sub(sell, buy), opt_mul(sell, Some(sell_fee))), opt_mul(buy, Some(buy_fee)))
}

/// Whether something is left of the proceeds after the cost and both fees.
pub open spec fn spec_is_profitable(
    amount: Decimal,
    sell_price: Decimal,
    buy_price: Decimal,
    sell_fee: Decimal,
    buy_fee: Decimal,
) -> Result<bool, ArithmeticError> {
    match spec_profit(amount, sell_price, buy_price, sell_fee, buy_fee) {
        Some(profit) => Ok(profit.units() > 0),
        None => Err(ArithmeticError::Overflow),
    }
}

/// The amount to trade: the least of the ask's size, the bid's size and the
/// base that the selling wallet holds, cut down to what the buying wallet's
/// quote pays for at the ask's price.
pub open spec fn spec_trade_amount(
    ask: BookEntry,
    bid: BookEntry,
    buy_wallet: Wallet,
    sell_wallet: Wallet,
) -> Result<Decimal, ArithmeticError> {
    let available = ask.amount.spec_min(bid.amount.spec_min(sell_wallet.base));
    match available.spec_checked_mul(ask.price) {
        Some(cost) => buy_wallet.quote.spec_min(cost).spec_div(ask.price),
        None => Err(ArithmeticError::Overflow),
    }
}

/// The wallets after the buy at the ask and the sell at the bid, with the
/// report on the trade.
pub open spec fn spec_execute(
    amount: Decimal,
    buy_fee: Decimal,
    sell_fee: Decimal,
    ask: BookEntry,
    bid: BookEntry,
    buy_wallet: Wallet,
    sell_wallet: Wallet,
    starting_value: Decimal,
    reference_price: Decimal,
) -> Result<StrategyResult, ArithmeticError> {
    match (
        spec_buy(buy_wallet, amount, ask.price, buy_fee),
        spec_sell(sell_wallet, amount, bid.price, sell_fee),
    ) {
        (Some(bought), Some(sold)) => match spec_pl(starting_value, reference_price, bought, sold) {
            Ok((pl, total)) => Ok(
                StrategyResult {
                    buy_wallet: bought,
                    sell_wallet: sold,
                    trade: Some(
                        TradeReport {
                            amount,
                            buy_price: ask.price,
                            sell_price: bid.price,
                            total,
                            pl,
                        },
                    ),
                },
            ),
            Err(e) => Err(e),
        },
        _ => Err(ArithmeticError::Overflow),
    }
}

/// One pass of the strategy: no trade, and the wallets as they were, where
/// the amount to trade is zero or nothing is left after fees; else the trade.
pub open spec fn spec_run_strategy(
    buy_fee: Decimal,
    sell_fee: Decimal,
    ask: BookEntry,
    bid: BookEntry,
    buy_wallet: Wallet,
    sell_wallet: Wallet,
    starting_value: Decimal,
    reference_price: Decimal,
) -> Result<StrategyResult, ArithmeticError> {
    let skipped = StrategyResult { buy_wallet, sell_wallet, trade: None };
    match spec_trade_amount(ask, bid, buy_wallet, sell_wallet) {
        Ok(amount) => if amount.units() == 0 {
            Ok(skipped)
        } else {
            match spec_is_profitable(amount, bid.price, ask.price, sell_fee, buy_fee) {
                Ok(true) => spec_execute(
                    amount,
                    buy_fee,
                    sell_fee,
                    ask,
                    bid,
                    buy_wallet,
                    sell_wallet,
                    starting_value,
                    reference_price,
                ),
                Ok(false) => Ok(skipped),
                Err(e) => Err(e),
            }
        },
        Err(e) => Err(e),
    }
}

/// The difference between `bid` and `ask`, relative to their midpoint:
/// `(bid - ask) / ((bid + ask) / 2)`.
pub fn calculate_spread(ask: Decimal, bid: Decimal) -> (r: Result<Decimal, ArithmeticError>)
    ensures
        r == spec_spread(ask, bid),
{
    let difference = bid.checked_sub(ask);
    let sum = bid.checked_add(ask);
    match (difference, sum) {
        (Some(difference), Some(sum)) => match sum.div(Decimal::new(2, 0)) {
            Ok(middle) => difference.div(middle),
            Err(e) => Err(e),
        },
        _ => Err(ArithmeticError::Overflow),
    }
}

/// `spec_total`, step by step.
fn total_checked(price: Decimal, wallet1: &Wallet, wallet2: &Wallet) -> (r: Option<Decimal>)
    ensures
        r == spec_total(price, *wallet1, *wallet2),
{
    let quotes = wallet1.quote.checked_add(wallet2.quote)?;
    let first = wallet1.base.checked_mul(price)?;
    let second = wallet2.base.checked_mul(price)?;
    quotes.checked_add(first)?.checked_add(second)
}

/// The profit-and-loss figure of two wallets and the total it is taken
/// from: `total / (2 * starting_value) - 1`, where the total is both
/// wallets' quote and their base valued at `curr_price`.
pub fn calculate_pl(
    starting_value: Decimal,
    curr_price: Decimal,
    wallet1: &Wallet,
    wallet2: &Wallet,
) -> (r: Result<(Decimal, Decimal), ArithmeticError>)
    ensures
        r == spec_pl(starting_value, curr_price, *wallet1, *wallet2),
{
    let start = starting_value.checked_mul(Decimal::new(2, 0));
    let total = total_checked(curr_price, wallet1, wallet2);
    match (start, total) {
        (Some(start), Some(total)) => match total.div(start) {
            Ok(ratio) => match ratio.checked_sub(Decimal::new(1, 0)) {
                Some(pl) => Ok((pl, total)),
                None => Err(ArithmeticError::Overflow),
            },
            Err(e) => Err(e),
        },
        _ => Err(ArithmeticError::Overflow),
    }
}

/// `spec_profit`, step by step.
fn profit_checked(
    amount: Decimal,
    sell_price: Decimal,
    buy_price: Decimal,
    sell_fee: Decimal,
    buy_fee: Decimal,
) -> (r: Option<Decimal>)
    ensures
        r == spec_profit(amount, sell_price, buy_price, sell_fee, buy_fee),
{
    let sell = amount.checked_mul(sell_price)?;
    let buy = amount.checked_mul(buy_price)?;
    let gross = sell.checked_sub(buy)?;
    let sell_cut = sell.checked_mul(sell_fee)?;
    let buy_cut = buy.checked_mul(buy_fee)?;
    gross.checked_sub(sell_cut)?.checked_sub(buy_cut)
}

/// Whether selling `amount` at `sell_price` and buying it at `buy_price`
/// leaves something after both fees:
/// `sell - buy - sell * sell_fee - buy * buy_fee > 0`.
pub fn is_profitable(
    amount: Decimal,
    sell_price: Decimal,
    buy_price: Decimal,
    sell_fee: Decimal,
    buy_fee: Decimal,
) -> (r: Result<bool, ArithmeticError>)
    ensures
        r == spec_is_profitable(amount, sell_price, buy_price, sell_fee, buy_fee),
{
    match profit_checked(amount, sell_price, buy_price, sell_fee, buy_fee) {
        Some(profit) => Ok(profit.gt(&Decimal::zero())),
        None => Err(ArithmeticError::Overflow),
    }
}

/// The amount to trade between an ask and a bid, given what the two wallets
/// hold.
pub fn trade_amount(ask: &BookEntry, bid: &BookEntry, buy_wallet: &Wallet, sell_wallet: &Wallet) -> (r:
    Result<Decimal, ArithmeticError>)
    ensures
        r == spec_trade_amount(*ask, *bid, *buy_wallet, *sell_wallet),
{
    let available = ask.amount.min(bid.amount.min(sell_wallet.base));
    match available.checked_mul(ask.price) {
        Some(cost) => buy_wallet.quote.min(cost).div(ask.price),
        None => Err(ArithmeticError::Overflow),
    }
}

/// Applies a trade of `amount`: the buy at the ask to one wallet, the sell at
/// the bid to the other, and the report on both.
pub fn execute(
    amount: Decimal,
    buy_fee: Decimal,
    sell_fee: Decimal,
    ask: &BookEntry,
    bid: &BookEntry,
    buy_wallet: &Wallet,
    sell_wallet: &Wallet,
    starting_value: Decimal,
    reference_price: Decimal,
) -> (r: Result<StrategyResult, ArithmeticError>)
    ensures
        r == spec_execute(
            amount,
            buy_fee,
            sell_fee,
            *ask,
            *bid,
            *buy_wallet,
            *sell_wallet,
            starting_value,
            reference_price,
        ),
{
    let bought = buy_wallet.buy(amount, ask.price, buy_fee);
    let sold = sell_wallet.sell(amount, bid.price, sell_fee);
    match (bought, sold) {
        (Ok(bought), Ok(sold)) => match calculate_pl(
            starting_value,
            reference_price,
            &bought,
            &sold,
        ) {
            Ok((pl, total)) => Ok(
                StrategyResult {
                    buy_wallet: bought,
                    sell_wallet: sold,
                    trade: Some(
                        TradeReport {
                            amount,
                            buy_price: ask.price,
                            sell_price: bid.price,
                            total,
                            pl,
                        },
                    ),
                },
            ),
            Err(e) => Err(e),
        },
        _ => Err(ArithmeticError::Overflow),
    }
}

/// One pass of the strategy: buys at `ask` with `buy_wallet` and sells at
/// `bid` with `sell_wallet`, as much as liquidity and balances allow, where
/// that leaves a profit after fees. Else the wallets come back as they were.
pub fn run_strategy(
    buy_fee: Decimal,
    sell_fee: Decimal,
    ask: &BookEntry,
    bid: &BookEntry,
    buy_wallet: Wallet,
    sell_wallet: Wallet,
    starting_value: Decimal,
    reference_price: Decimal,
) -> (r: Result<StrategyResult, ArithmeticError>)
    ensures
        r == spec_run_strategy(
            buy_fee,
            sell_fee,
            *ask,
            *bid,
            buy_wallet,
            sell_wallet,
            starting_value,
            reference_price,
        ),
{
    let amount = match trade_amount(ask, bid, &buy_wallet, &sell_wallet) {
        Ok(amount) => amount,
        Err(e) => { return Err(e); },
    };
    if amount.is_zero() {
        return Ok(StrategyResult { buy_wallet, sell_wallet, trade: None });
    }
    match is_profitable(amount, bid.price, ask.price, sell_fee, buy_fee) {
        Ok(true) => execute(
            amount,
            buy_fee,
            sell_fee,
            ask,
            bid,
            &buy_wallet,
            &sell_wallet,
            starting_value,
            reference_price,
        ),
        Ok(false) => Ok(StrategyResult { buy_wallet, sell_wallet, trade: None }),
        Err(e) => Err(e),
    }
}

} // verus!
