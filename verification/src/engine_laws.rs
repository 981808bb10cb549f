//! What holds of every pass of the strategy and of the engine.

use crate::book::BookEntry;
use crate::decimal::{opt_mul, opt_sub, ArithmeticError, Decimal};
use crate::engine::{
    all_quoted, ask_units, bid_units, highest_bid, lemma_highest_bid, lemma_lowest_ask,
    lowest_ask, quote_of, spec_decide, spec_on_update, spec_record, BotState, Trade, VenueQuote,
};
use crate::strategy::{
    spec_cost, spec_is_profitable, spec_proceeds, spec_run_strategy, spec_trade_amount,
    StrategyResult,
};
use crate::wallet::Wallet;
use vstd::prelude::*;

verus! {

/// Whether the fees on a paired trade are at least what the sale brings in
/// above the cost, and what is left after them is computed without
/// rounding.
pub open spec fn fees_consume_spread(
    amount: Decimal,
    sell_price: Decimal,
    buy_price: Decimal,
    sell_fee: Decimal,
    buy_fee: Decimal,
) -> bool {
    let sell = spec_proceeds(amount, sell_price);
    let buy = spec_cost(amount, buy_price);
    let sell_cut = opt_mul(sell, Some(sell_fee));
    let buy_cut = opt_mul(buy, Some(buy_fee));
    let gross = opt_sub(sell, buy);
    let after_sell_cut = opt_sub(gross, sell_cut);
    let net = opt_sub(after_sell_cut, buy_cut);
    &&& net is Some
    &&& gross->0.is_exact_difference(sell->0, buy->0)
    &&& after_sell_cut->0.is_exact_difference(gross->0, sell_cut->0)
    &&& net->0.is_exact_difference(after_sell_cut->0, buy_cut->0)
    &&& sell_cut->0.units() + buy_cut->0.units() >= sell->0.units() - buy->0.units()
}

/// A trade whose fees are at least what the sale brings in above the cost
/// is not profitable.
pub proof fn law_fees_consuming_spread_is_unprofitable(
    amount: Decimal,
    sell_price: Decimal,
    buy_price: Decimal,
    sell_fee: Decimal,
    buy_fee: Decimal,
)
    requires
        fees_consume_spread(amount, sell_price, buy_price, sell_fee, buy_fee),
    ensures
        spec_is_profitable(amount, sell_price, buy_price, sell_fee, buy_fee) == Ok::<
            bool,
            ArithmeticError,
        >(false),
{
}

/// A pass of the strategy whose trade is not profitable makes no trade and
/// gives the wallets back as they were.
pub proof fn law_unprofitable_trade_is_skipped(
    buy_fee: Decimal,
    sell_fee: Decimal,
    ask: BookEntry,
    bid: BookEntry,
    buy_wallet: Wallet,
    sell_wallet: Wallet,
    starting_value: Decimal,
    reference_price: Decimal,
)
    requires
        spec_trade_amount(ask, bid, buy_wallet, sell_wallet) matches Ok(amount)
            && spec_is_profitable(amount, bid.price, ask.price, sell_fee, buy_fee) == Ok::<
            bool,
            ArithmeticError,
        >(false),
    ensures
        spec_run_strategy(
            buy_fee,
            sell_fee,
            ask,
            bid,
            buy_wallet,
            sell_wallet,
            starting_value,
            reference_price,
        ) == Ok::<StrategyResult, ArithmeticError>(
            StrategyResult { buy_wallet, sell_wallet, trade: None },
        ),
{
}

/// A pass of the strategy that makes no trade gives the wallets back as
/// they were.
pub proof fn law_no_trade_keeps_wallets(
    buy_fee: Decimal,
    sell_fee: Decimal,
    ask: BookEntry,
    bid: BookEntry,
    buy_wallet: Wallet,
    sell_wallet: Wallet,
    starting_value: Decimal,
    reference_price: Decimal,
)
    ensures
        match spec_run_strategy(
            buy_fee,
            sell_fee,
            ask,
            bid,
            buy_wallet,
            sell_wallet,
            starting_value,
            reference_price,
        ) {
            Ok(result) => result.trade is None ==> result.buy_wallet == buy_wallet
                && result.sell_wallet == sell_wallet,
            Err(_) => true,
        },
{
}

/// A decision that makes no trade, or fails, leaves the engine's state as
/// it was.
pub proof fn law_decision_without_trade_changes_nothing(state: BotState)
    requires
        state.venues.len() > 0,
    ensures
        !(spec_decide(state).1 matches Ok(Some(_))) ==> spec_decide(state).0 == state,
{
    lemma_lowest_ask(state.venues);
    lemma_highest_bid(state.venues);
    let buy = lowest_ask(state.venues);
    let sell = highest_bid(state.venues);
    if !(spec_decide(state).1 matches Ok(Some(_))) {
        assert(spec_decide(state).0.venues =~= state.venues);
    }
}

/// Where one venue has both the lowest ask and the highest bid, a decision
/// makes no trade and changes nothing.
pub proof fn law_same_venue_makes_no_trade(state: BotState)
    requires
        lowest_ask(state.venues) == highest_bid(state.venues),
    ensures
        spec_decide(state) == (state, Ok::<Option<Trade>, ArithmeticError>(None)),
{
}

/// Once the wallets have been rebalanced, an update after which one venue
/// has both the lowest ask and the highest bid leaves every wallet as it
/// was.
pub proof fn law_same_venue_keeps_wallets(
    state: BotState,
    venue: int,
    bid: BookEntry,
    ask: BookEntry,
)
    requires
        0 <= venue < state.venues.len(),
        state.wallets_initialized,
        all_quoted(spec_record(state, venue, VenueQuote { bid, ask }).venues),
        lowest_ask(spec_record(state, venue, VenueQuote { bid, ask }).venues) == highest_bid(
            spec_record(state, venue, VenueQuote { bid, ask }).venues,
        ),
    ensures
        spec_on_update(state, venue, (Some(bid), Some(ask))).1 == Ok::<
            Option<Trade>,
            ArithmeticError,
        >(None),
        spec_on_update(state, venue, (Some(bid), Some(ask))).0.venues.len() == state.venues.len(),
        forall|i: int|
            0 <= i < state.venues.len() ==> (#[trigger] spec_on_update(
                state,
                venue,
                (Some(bid), Some(ask)),
            ).0.venues[i]).wallet == state.venues[i].wallet,
{
}

/// An update never changes a wallet unless it rebalances them or reports a
/// trade.
pub proof fn law_update_without_trade_keeps_wallets(
    state: BotState,
    venue: int,
    update: (Option<BookEntry>, Option<BookEntry>),
)
    requires
        0 <= venue < state.venues.len(),
        state.wallets_initialized,
    ensures
        !(spec_on_update(state, venue, update).1 matches Ok(Some(_))) ==> {
            &&& spec_on_update(state, venue, update).0.venues.len() == state.venues.len()
            &&& forall|i: int|
                0 <= i < state.venues.len() ==> (#[trigger] spec_on_update(
                    state,
                    venue,
                    update,
                ).0.venues[i]).wallet == state.venues[i].wallet
        },
{
    match update {
        (Some(bid), Some(ask)) => {
            let recorded = spec_record(state, venue, VenueQuote { bid, ask });
            if all_quoted(recorded.venues) {
                law_decision_without_trade_changes_nothing(recorded);
            }
        },
        _ => {},
    }
}

/// A decision trades only between two different venues: it buys where the
/// ask is lowest, at that ask, and sells where the bid is highest, at that
/// bid, an amount other than zero. No venue asks less than the one it buys
/// on and none bids more than the one it sells on.
pub proof fn law_trade_is_between_best_venues(state: BotState)
    requires
        0 < state.venues.len() <= usize::MAX,
    ensures
        match spec_decide(state).1 {
            Ok(Some(trade)) => {
                &&& trade.buy_venue == lowest_ask(state.venues)
                &&& trade.sell_venue == highest_bid(state.venues)
                &&& trade.buy_venue != trade.sell_venue
                &&& trade.report.buy_price == quote_of(state.venues[trade.buy_venue as int]).ask.price
                &&& trade.report.sell_price == quote_of(
                    state.venues[trade.sell_venue as int],
                ).bid.price
                &&& trade.report.amount.units() != 0
                &&& forall|j: int|
                    0 <= j < state.venues.len() ==> ask_units(state.venues[trade.buy_venue as int])
                        <= ask_units(#[trigger] state.venues[j])
                &&& forall|j: int|
                    0 <= j < state.venues.len() ==> bid_units(state.venues[trade.sell_venue as int])
                        >= bid_units(#[trigger] state.venues[j])
            },
            _ => true,
        },
{
    lemma_lowest_ask(state.venues);
    lemma_highest_bid(state.venues);
}

/// Wallets are rebalanced once: an engine whose wallets have been
/// rebalanced stays so, and an update changes its wallets only by a trade.
pub proof fn law_rebalanced_once(
    state: BotState,
    venue: int,
    update: (Option<BookEntry>, Option<BookEntry>),
)
    requires
        0 <= venue < state.venues.len(),
        state.wallets_initialized,
    ensures
        spec_on_update(state, venue, update).0.wallets_initialized,
        match update {
            (Some(bid), Some(ask)) => all_quoted(spec_record(state, venue, VenueQuote { bid, ask }).venues)
                ==> spec_on_update(state, venue, update) == spec_decide(
                spec_record(state, venue, VenueQuote { bid, ask }),
            ),
            _ => spec_on_update(state, venue, update).0 == state,
        },
{
}

} // verus!
