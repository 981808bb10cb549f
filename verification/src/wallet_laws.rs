//! What a paired buy and sell does to the two wallets together.

use crate::decimal::{lemma_zero_units, Decimal};
use crate::wallet::{spec_buy, spec_fee, spec_notional, spec_sell, Wallet};
use vstd::prelude::*;

verus! {

/// Whether a buy is computed without rounding and leaves the quote balance
/// at or above zero, so that it is not held there.
pub open spec fn buy_is_exact(wallet: Wallet, amount: Decimal, price: Decimal, fee_rate: Decimal) -> bool {
    match (
        spec_notional(amount, price),
        spec_fee(amount, price, fee_rate),
        wallet.base.spec_checked_add(amount),
    ) {
        (Some(notional), Some(fee), Some(base)) => match wallet.quote.spec_checked_sub(notional) {
            Some(rest) => match rest.spec_checked_sub(fee) {
                Some(quote) => {
                    &&& base.is_exact_sum(wallet.base, amount)
                    &&& rest.is_exact_difference(wallet.quote, notional)
                    &&& quote.is_exact_difference(rest, fee)
                    &&& quote.units() >= 0
                },
                None => false,
            },
            None => false,
        },
        _ => false,
    }
}

/// Whether a sell is computed without rounding.
pub open spec fn sell_is_exact(wallet: Wallet, amount: Decimal, price: Decimal, fee_rate: Decimal) -> bool {
    match (
        spec_notional(amount, price),
        spec_fee(amount, price, fee_rate),
        wallet.base.spec_checked_sub(amount),
    ) {
        (Some(notional), Some(fee), Some(base)) => match wallet.quote.spec_checked_add(notional) {
            Some(gross) => match gross.spec_checked_sub(fee) {
                Some(quote) => {
                    &&& base.is_exact_difference(wallet.base, amount)
                    &&& gross.is_exact_sum(wallet.quote, notional)
                    &&& quote.is_exact_difference(gross, fee)
                },
                None => false,
            },
            None => false,
        },
        _ => false,
    }
}

/// Buying an amount with one wallet and selling the same amount with
/// another, both computed without rounding and without holding the quote at
/// zero, moves the base from one wallet to the other: together they hold as
/// much base as before. Together their quote changes by the notional
/// received, less the notional paid, less both fees.
pub proof fn law_round_trip(
    buyer: Wallet,
    seller: Wallet,
    amount: Decimal,
    buy_price: Decimal,
    sell_price: Decimal,
    buy_fee: Decimal,
    sell_fee: Decimal,
)
    requires
        buy_is_exact(buyer, amount, buy_price, buy_fee),
        sell_is_exact(seller, amount, sell_price, sell_fee),
    ensures
        spec_buy(buyer, amount, buy_price, buy_fee) is Some,
        spec_sell(seller, amount, sell_price, sell_fee) is Some,
        ({
            let bought = spec_buy(buyer, amount, buy_price, buy_fee)->0;
            let sold = spec_sell(seller, amount, sell_price, sell_fee)->0;
            let paid = spec_notional(amount, buy_price)->0;
            let received = spec_notional(amount, sell_price)->0;
            let fees = spec_fee(amount, buy_price, buy_fee)->0.units() + spec_fee(
                amount,
                sell_price,
                sell_fee,
            )->0.units();
            &&& bought.base.units() + sold.base.units() == buyer.base.units() + seller.base.units()
            &&& bought.quote.units() + sold.quote.units() == buyer.quote.units()
                + seller.quote.units() + received.units() - paid.units() - fees
        }),
{
    lemma_zero_units();
}

/// Where, besides, the notional received is the notional paid, the quote of
/// the two wallets together goes down by exactly the two fees.
pub proof fn law_round_trip_costs_the_fees(
    buyer: Wallet,
    seller: Wallet,
    amount: Decimal,
    buy_price: Decimal,
    sell_price: Decimal,
    buy_fee: Decimal,
    sell_fee: Decimal,
)
    requires
        buy_is_exact(buyer, amount, buy_price, buy_fee),
        sell_is_exact(seller, amount, sell_price, sell_fee),
        spec_notional(amount, sell_price)->0.units() == spec_notional(amount, buy_price)->0.units(),
    ensures
        ({
            let bought = spec_buy(buyer, amount, buy_price, buy_fee)->0;
            let sold = spec_sell(seller, amount, sell_price, sell_fee)->0;
            let fees = spec_fee(amount, buy_price, buy_fee)->0.units() + spec_fee(
                amount,
                sell_price,
                sell_fee,
            )->0.units();
            bought.quote.units() + sold.quote.units() == buyer.quote.units() + seller.quote.units()
                - fees
        }),
{
    law_round_trip(buyer, seller, amount, buy_price, sell_price, buy_fee, sell_fee);
}

} // verus!
