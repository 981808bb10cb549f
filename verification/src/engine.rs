//! The decision engine: it keeps the latest quote and the wallet of every
//! venue and, on each update, looks for a trade between the venue that asks
//! least and the venue that bids most.

use crate::book::BookEntry;
use crate::decimal::{ArithmeticError, Decimal};
use crate::strategy::{
    calculate_spread, run_strategy, spec_run_strategy, spec_spread, StrategyResult, TradeReport,
};
use crate::wallet::{spec_rebalance, Wallet};
use vstd::prelude::*;

verus! {

/// The best bid and the best ask of one venue.
#[derive(Clone, Copy, Debug)]
pub struct VenueQuote {
    pub bid: BookEntry,
    pub ask: BookEntry,
}

/// What the engine holds for one venue: its fee rate, its wallet and its
/// latest complete quote, if it has sent one.
#[derive(Clone, Copy, Debug)]
pub struct VenueAccount {
    pub fee: Decimal,
    pub wallet: Wallet,
    pub quote: Option<VenueQuote>,
}

/// A trade that the engine made: where it bought, where it sold, and the
/// report on it.
#[derive(Clone, Copy, Debug)]
pub struct Trade {
    pub buy_venue: usize,
    pub sell_venue: usize,
    pub report: TradeReport,
}

/// The engine's state.
#[derive(Debug)]
pub struct Bot {
    /// The venues, in the order that breaks ties.
    pub venues: Vec<VenueAccount>,
    /// What each wallet started with.
    pub starting_value: Decimal,
    /// Whether the wallets have been rebalanced.
    pub wallets_initialized: bool,
}

/// The engine's state, with the venues as a sequence.
pub struct BotState {
    pub venues: Seq<VenueAccount>,
    pub starting_value: Decimal,
    pub wallets_initialized: bool,
}

impl View for Bot {
    type V = BotState;

    open spec fn view(&self) -> BotState {
        BotState {
            venues: self.venues@,
            starting_value: self.starting_value,
            wallets_initialized: self.wallets_initialized,
        }
    }
}

/// Whether every venue has a quote.
pub open spec fn all_quoted(venues: Seq<VenueAccount>) -> bool {
    forall|i: int| 0 <= i < venues.len() ==> (#[trigger] venues[i]).quote is Some
}

/// The venue's quote.
pub open spec fn quote_of(venue: VenueAccount) -> VenueQuote
    recommends
        venue.quote is Some,
{
    venue.quote->0
}

/// The number that the venue's best ask price stands for.
pub open spec fn ask_units(venue: VenueAccount) -> int {
    quote_of(venue).ask.price.units()
}

/// The number that the venue's best bid price stands for.
pub open spec fn bid_units(venue: VenueAccount) -> int {
    quote_of(venue).bid.price.units()
}

/// The venue with the lowest best ask, the earliest of them where several
/// ask the same.
pub open spec fn lowest_ask(venues: Seq<VenueAccount>) -> int
    decreases venues.len(),
{
    if venues.len() <= 1 {
        0
    } else {
        let best = lowest_ask(venues.drop_last());
        if ask_units(venues.last()) < ask_units(venues[best]) {
            venues.len() - 1
        } else {
            best
        }
    }
}

/// The venue with the highest best bid, the earliest of them where several
/// bid the same.
pub open spec fn highest_bid(venues: Seq<VenueAccount>) -> int
    decreases venues.len(),
{
    if venues.len() <= 1 {
        0
    } else {
        let best = highest_bid(venues.drop_last());
        if bid_units(venues.last()) > bid_units(venues[best]) {
            venues.len() - 1
        } else {
            best
        }
    }
}

/// The venue with its wallet replaced.
pub open spec fn with_wallet(venue: VenueAccount, wallet: Wallet) -> VenueAccount {
    VenueAccount { fee: venue.fee, wallet, quote: venue.quote }
}

/// The venue with its quote replaced.
pub open spec fn with_quote(venue: VenueAccount, quote: VenueQuote) -> VenueAccount {
    VenueAccount { fee: venue.fee, wallet: venue.wallet, quote: Some(quote) }
}

/// The venues with every wallet rebalanced at `price`, or the first error in
/// doing so.
pub open spec fn spec_rebalance_all(venues: Seq<VenueAccount>, price: Decimal) -> Result<
    Seq<VenueAccount>,
    ArithmeticError,
>
    decreases venues.len(),
{
    if venues.len() == 0 {
        Ok(venues)
    } else {
        match spec_rebalance_all(venues.drop_last(), price) {
            Ok(head) => match spec_rebalance(venues.last().wallet, price) {
                Ok(wallet) => Ok(head.push(with_wallet(venues.last(), wallet))),
                Err(e) => Err(e),
            },
            Err(e) => Err(e),
        }
    }
}

/// The state with the wallets rebalanced, at the first venue's best bid,
/// unless they have been before.
pub open spec fn spec_initialize(state: BotState) -> Result<BotState, ArithmeticError> {
    if state.wallets_initialized {
        Ok(state)
    } else {
        match spec_rebalance_all(state.venues, quote_of(state.venues[0]).bid.price) {
            Ok(venues) => Ok(
                BotState {
                    venues,
                    starting_value: state.starting_value,
                    wallets_initialized: true,
                },
            ),
            Err(e) => Err(e),
        }
    }
}

/// The state after a pass of the strategy between two venues.
pub open spec fn spec_settle(state: BotState, buy: int, sell: int, result: StrategyResult) -> BotState {
    BotState {
        venues: state.venues.update(buy, with_wallet(state.venues[buy], result.buy_wallet)).update(
            sell,
            with_wallet(state.venues[sell], result.sell_wallet),
        ),
        starting_value: state.starting_value,
        wallets_initialized: state.wallets_initialized,
    }
}

/// The trade that a pass of the strategy made, if any.
pub open spec fn spec_trade(buy: int, sell: int, result: StrategyResult) -> Option<Trade> {
    match result.trade {
        Some(report) => Some(Trade { buy_venue: buy as usize, sell_venue: sell as usize, report }),
        None => None,
    }
}

/// One decision on complete quotes: between the venue that asks least and
/// the venue that bids most, where they differ and the spread between them
/// is above zero, one pass of the strategy. The reference price is the
/// buying venue's best bid.
pub open spec fn spec_decide(state: BotState) -> (BotState, Result<Option<Trade>, ArithmeticError>) {
    let buy = lowest_ask(state.venues);
    let sell = highest_bid(state.venues);
    let ask = quote_of(state.venues[buy]).ask;
    let bid = quote_of(state.venues[sell]).bid;
    if buy == sell {
        (state, Ok(None))
    } else {
        match spec_spread(ask.price, bid.price) {
            Ok(spread) => if spread.units() > 0 {
                match spec_run_strategy(
                    state.venues[buy].fee,
                    state.venues[sell].fee,
                    ask,
                    bid,
                    state.venues[buy].wallet,
                    state.venues[sell].wallet,
                    state.starting_value,
                    quote_of(state.venues[buy]).bid.price,
                ) {
                    Ok(result) => (
                        spec_settle(state, buy, sell, result),
                        Ok(spec_trade(buy, sell, result)),
                    ),
                    Err(e) => (state, Err(e)),
                }
            } else {
                (state, Ok(None))
            },
            Err(e) => (state, Err(e)),
        }
    }
}

/// The state with a venue's quote recorded.
pub open spec fn spec_record(state: BotState, venue: int, quote: VenueQuote) -> BotState {
    BotState {
        venues: state.venues.update(venue, with_quote(state.venues[venue], quote)),
        starting_value: state.starting_value,
        wallets_initialized: state.wallets_initialized,
    }
}

/// What one update from a venue does. An update that lacks a side changes
/// nothing. A two-sided one is recorded as the venue's quote; once every
/// venue has a quote the wallets are rebalanced, the first time, and a
/// decision is made. Where the rebalancing cannot be computed only the
/// quote is recorded.
pub open spec fn spec_on_update(
    state: BotState,
    venue: int,
    update: (Option<BookEntry>, Option<BookEntry>),
) -> (BotState, Result<Option<Trade>, ArithmeticError>) {
    match update {
        (Some(bid), Some(ask)) => {
            let recorded = spec_record(state, venue, VenueQuote { bid, ask });
            if all_quoted(recorded.venues) {
                match spec_initialize(recorded) {
                    Ok(ready) => spec_decide(ready),
                    Err(e) => (recorded, Err(e)),
                }
            } else {
                (recorded, Ok(None))
            }
        },
        _ => (state, Ok(None)),
    }
}

/// The venue that `lowest_ask` picks asks no more than any other, and less
/// than every venue before it.
pub proof fn lemma_lowest_ask(venues: Seq<VenueAccount>)
    requires
        venues.len() > 0,
    ensures
        0 <= lowest_ask(venues) < venues.len(),
        forall|j: int|
            0 <= j < venues.len() ==> ask_units(venues[lowest_ask(venues)]) <= ask_units(
                #[trigger] venues[j],
            ),
        forall|j: int|
            0 <= j < lowest_ask(venues) ==> ask_units(venues[lowest_ask(venues)]) < ask_units(
                #[trigger] venues[j],
            ),
    decreases venues.len(),
{
    if venues.len() > 1 {
        let head = venues.drop_last();
        lemma_lowest_ask(head);
        let best = lowest_ask(head);
        assert(head[best] == venues[best]);
        assert forall|j: int| 0 <= j < venues.len() implies ask_units(
            venues[lowest_ask(venues)],
        ) <= ask_units(#[trigger] venues[j]) by {
            if j < head.len() {
                assert(head[j] == venues[j]);
            }
        }
        assert forall|j: int| 0 <= j < lowest_ask(venues) implies ask_units(
            venues[lowest_ask(venues)],
        ) < ask_units(#[trigger] venues[j]) by {
            assert(head[j] == venues[j]);
        }
    }
}

/// The venue that `highest_bid` picks bids no less than any other, and more
/// than every venue before it.
pub proof fn lemma_highest_bid(venues: Seq<VenueAccount>)
    requires
        venues.len() > 0,
    ensures
        0 <= highest_bid(venues) < venues.len(),
        forall|j: int|
            0 <= j < venues.len() ==> bid_units(venues[highest_bid(venues)]) >= bid_units(
                #[trigger] venues[j],
            ),
        forall|j: int|
            0 <= j < highest_bid(venues) ==> bid_units(venues[highest_bid(venues)]) > bid_units(
                #[trigger] venues[j],
            ),
    decreases venues.len(),
{
    if venues.len() > 1 {
        let head = venues.drop_last();
        lemma_highest_bid(head);
        let best = highest_bid(head);
        assert(head[best] == venues[best]);
        assert forall|j: int| 0 <= j < venues.len() implies bid_units(
            venues[highest_bid(venues)],
        ) >= bid_units(#[trigger] venues[j]) by {
            if j < head.len() {
                assert(head[j] == venues[j]);
            }
        }
        assert forall|j: int| 0 <= j < highest_bid(venues) implies bid_units(
            venues[highest_bid(venues)],
        ) > bid_units(#[trigger] venues[j]) by {
            assert(head[j] == venues[j]);
        }
    }
}

/// Rebalancing changes wallets only: as many venues, each with its fee and
/// its quote.
pub proof fn lemma_rebalance_all_keeps_quotes(venues: Seq<VenueAccount>, price: Decimal)
    ensures
        spec_rebalance_all(venues, price) matches Ok(after) ==> {
            &&& after.len() == venues.len()
            &&& forall|i: int|
                0 <= i < venues.len() ==> (#[trigger] after[i]).quote == venues[i].quote
                    && after[i].fee == venues[i].fee
                    && spec_rebalance(venues[i].wallet, price) == Ok::<Wallet, ArithmeticError>(
                    after[i].wallet,
                )
        },
    decreases venues.len(),
{
    if venues.len() > 0 {
        lemma_rebalance_all_keeps_quotes(venues.drop_last(), price);
    }
}

/// Whether every venue has a quote.
pub fn all_venues_quoted(venues: &Vec<VenueAccount>) -> (r: bool)
    ensures
        r == all_quoted(venues@),
{
    let mut i: usize = 0;
    while i < venues.len()
        invariant
            i <= venues@.len(),
            forall|j: int| 0 <= j < i ==> (#[trigger] venues@[j]).quote is Some,
        decreases venues@.len() - i,
    {
        if venues[i].quote.is_none() {
            return false;
        }
        i += 1;
    }
    true
}

/// The venue with the lowest best ask, the earliest of them where several
/// ask the same.
pub fn find_lowest_ask(venues: &Vec<VenueAccount>) -> (r: usize)
    requires
        venues@.len() > 0,
        all_quoted(venues@),
    ensures
        r == lowest_ask(venues@),
        r < venues@.len(),
{
    let mut best: usize = 0;
    let mut i: usize = 1;
    proof {
        assert(venues@.take(1).len() == 1);
    }
    while i < venues.len()
        invariant
            1 <= i <= venues@.len(),
            all_quoted(venues@),
            best < i,
            best == lowest_ask(venues@.take(i as int)),
        decreases venues@.len() - i,
    {
        proof {
            let next = venues@.take(i + 1);
            assert(next.drop_last() == venues@.take(i as int));
            assert(next.last() == venues@[i as int]);
            assert(next[best as int] == venues@[best as int]);
        }
        let candidate = venues[i].quote.unwrap().ask.price;
        let current = venues[best].quote.unwrap().ask.price;
        if candidate.lt(&current) {
            best = i;
        }
        i += 1;
    }
    proof {
        assert(venues@.take(i as int) == venues@);
    }
    best
}

/// The venue with the highest best bid, the earliest of them where several
/// bid the same.
pub fn find_highest_bid(venues: &Vec<VenueAccount>) -> (r: usize)
    requires
        venues@.len() > 0,
        all_quoted(venues@),
    ensures
        r == highest_bid(venues@),
        r < venues@.len(),
{
    let mut best: usize = 0;
    let mut i: usize = 1;
    proof {
        assert(venues@.take(1).len() == 1);
    }
    while i < venues.len()
        invariant
            1 <= i <= venues@.len(),
            all_quoted(venues@),
            best < i,
            best == highest_bid(venues@.take(i as int)),
        decreases venues@.len() - i,
    {
        proof {
            let next = venues@.take(i + 1);
            assert(next.drop_last() == venues@.take(i as int));
            assert(next.last() == venues@[i as int]);
            assert(next[best as int] == venues@[best as int]);
        }
        let candidate = venues[i].quote.unwrap().bid.price;
        let current = venues[best].quote.unwrap().bid.price;
        if candidate.gt(&current) {
            best = i;
        }
        i += 1;
    }
    proof {
        assert(venues@.take(i as int) == venues@);
    }
    best
}

/// The venues with every wallet rebalanced at `price`.
pub fn rebalance_all(venues: &Vec<VenueAccount>, price: Decimal) -> (r: Result<
    Vec<VenueAccount>,
    ArithmeticError,
>)
    ensures
        match spec_rebalance_all(venues@, price) {
            Ok(after) => r matches Ok(v) && v@ == after,
            Err(e) => r matches Err(f) && f == e,
        },
{
    let mut out: Vec<VenueAccount> = Vec::new();
    let mut i: usize = 0;
    proof {
        assert(venues@.take(0) =~= out@);
    }
    while i < venues.len()
        invariant
            i <= venues@.len(),
            spec_rebalance_all(venues@.take(i as int), price) == Ok::<
                Seq<VenueAccount>,
                ArithmeticError,
            >(out@),
        decreases venues@.len() - i,
    {
        proof {
            let next = venues@.take(i + 1);
            assert(next.drop_last() == venues@.take(i as int));
            assert(next.last() == venues@[i as int]);
        }
        let venue = venues[i];
        let mut wallet = venue.wallet;
        match wallet.rebalance(price) {
            Ok(()) => {
                out.push(VenueAccount { fee: venue.fee, wallet, quote: venue.quote });
            },
            Err(e) => {
                proof {
                    lemma_rebalance_all_error(venues@, price, i + 1, e);
                }
                return Err(e);
            },
        }
        i += 1;
    }
    proof {
        assert(venues@.take(i as int) == venues@);
    }
    Ok(out)
}

/// An error in rebalancing the first `n` venues is the error in rebalancing
/// all of them.
proof fn lemma_rebalance_all_error(
    venues: Seq<VenueAccount>,
    price: Decimal,
    n: int,
    e: ArithmeticError,
)
    requires
        0 <= n <= venues.len(),
        spec_rebalance_all(venues.take(n), price) == Err::<Seq<VenueAccount>, ArithmeticError>(e),
    ensures
        spec_rebalance_all(venues, price) == Err::<Seq<VenueAccount>, ArithmeticError>(e),
    decreases venues.len() - n,
{
    if n < venues.len() {
        let next = venues.take(n + 1);
        assert(next.drop_last() == venues.take(n));
        lemma_rebalance_all_error(venues, price, n + 1, e);
    } else {
        assert(venues.take(n) == venues);
    }
}

impl Bot {
    /// An engine for venues with the given fee rates, each with a wallet of
    /// `starting_value` in quote and no quote yet.
    pub fn new(fees: &Vec<Decimal>, starting_value: Decimal) -> (r: Bot)
        ensures
            r@.venues.len() == fees@.len(),
            forall|i: int|
                0 <= i < fees@.len() ==> #[trigger] r@.venues[i] == (VenueAccount {
                    fee: fees@[i],
                    wallet: Wallet { base: Decimal::spec_new(0, 0), quote: starting_value },
                    quote: None,
                }),
            r@.starting_value == starting_value,
            !r@.wallets_initialized,
    {
        let mut venues: Vec<VenueAccount> = Vec::new();
        let mut i: usize = 0;
        while i < fees.len()
            invariant
                i <= fees@.len(),
                venues@.len() == i,
                forall|j: int|
                    0 <= j < i ==> #[trigger] venues@[j] == (VenueAccount {
                        fee: fees@[j],
                        wallet: Wallet { base: Decimal::spec_new(0, 0), quote: starting_value },
                        quote: None,
                    }),
            decreases fees@.len() - i,
        {
            venues.push(VenueAccount { fee: fees[i], wallet: Wallet::new(starting_value), quote: None });
            i += 1;
        }
        Bot { venues, starting_value, wallets_initialized: false }
    }

    /// Takes one update from a venue: its best bid and its best ask.
    pub fn on_update(&mut self, venue: usize, update: (Option<BookEntry>, Option<BookEntry>)) -> (r:
        Result<Option<Trade>, ArithmeticError>)
        requires
            venue < old(self)@.venues.len(),
        ensures
            (final(self)@, r) == spec_on_update(old(self)@, venue as int, update),
    {
        let quote = match update {
            (Some(bid), Some(ask)) => VenueQuote { bid, ask },
            _ => { return Ok(None); },
        };
        let account = self.venues[venue];
        self.venues.set(
            venue,
            VenueAccount { fee: account.fee, wallet: account.wallet, quote: Some(quote) },
        );
        if !all_venues_quoted(&self.venues) {
            return Ok(None);
        }
        if !self.wallets_initialized {
            let price = self.venues[0].quote.unwrap().bid.price;
            match rebalance_all(&self.venues, price) {
                Ok(venues) => {
                    proof {
                        lemma_rebalance_all_keeps_quotes(self.venues@, price);
                    }
                    self.venues = venues;
                    self.wallets_initialized = true;
                },
                Err(e) => { return Err(e); },
            }
        }
        self.decide()
    }

    /// Looks for a trade on the quotes as they stand.
    pub fn decide(&mut self) -> (r: Result<Option<Trade>, ArithmeticError>)
        requires
            old(self)@.venues.len() > 0,
            all_quoted(old(self)@.venues),
        ensures
            (final(self)@, r) == spec_decide(old(self)@),
    {
        let buy = find_lowest_ask(&self.venues);
        let sell = find_highest_bid(&self.venues);
        if buy == sell {
            return Ok(None);
        }
        let buyer = self.venues[buy];
        let seller = self.venues[sell];
        let ask = buyer.quote.unwrap().ask;
        let bid = seller.quote.unwrap().bid;
        let spread = match calculate_spread(ask.price, bid.price) {
            Ok(spread) => spread,
            Err(e) => { return Err(e); },
        };
        if !spread.gt(&Decimal::zero()) {
            return Ok(None);
        }
        let reference_price = buyer.quote.unwrap().bid.price;
        match run_strategy(
            buyer.fee,
            seller.fee,
            &ask,
            &bid,
            buyer.wallet,
            seller.wallet,
            self.starting_value,
            reference_price,
        ) {
            Ok(result) => {
                self.venues.set(
                    buy,
                    VenueAccount { fee: buyer.fee, wallet: result.buy_wallet, quote: buyer.quote },
                );
                self.venues.set(
                    sell,
                    VenueAccount { fee: seller.fee, wallet: result.sell_wallet, quote: seller.quote },
                );
                match result.trade {
                    Some(report) => Ok(Some(Trade { buy_venue: buy, sell_venue: sell, report })),
                    None => Ok(None),
                }
            },
            Err(e) => Err(e),
        }
    }
}

} // verus!
