//! The dYdX venue: how its book messages read and how its book is kept.

use crate::book::{apply_message, BookEntry, BookState, BookUpdate, OrderBook, OrderBookMessage};
use crate::decimal::{ArithmeticError, Decimal};
use crate::exchange::{
    best_pair, depleted_level, json_string, law_depleted_level_replaces_best,
    outside_json_string, spec_depleted_level, Exchange, Symbol,
};
use vstd::prelude::*;

verus! {

/// What the adapter reads of a dYdX book message: the levels under `asks`
/// and those under `bids` in its contents, each where the message has them.
#[derive(Debug)]
pub struct BookRawMessage {
    pub asks: Option<Vec<BookEntry>>,
    pub bids: Option<Vec<BookEntry>>,
}

/// A book message with its levels as sequences.
pub struct RawMessage {
    pub asks: Option<Seq<BookEntry>>,
    pub bids: Option<Seq<BookEntry>>,
}

impl View for BookRawMessage {
    type V = RawMessage;

    open spec fn view(&self) -> RawMessage {
        RawMessage {
            asks: match self.asks {
                Some(levels) => Some(levels@),
                None => None,
            },
            bids: match self.bids {
                Some(levels) => Some(levels@),
                None => None,
            },
        }
    }
}

/// The dYdX adapter: its book, whether simulated trades are fed back into
/// it, and its fee rate.
#[derive(Debug)]
pub struct DyDx {
    pub order_book: OrderBook,
    pub persistent_trades: bool,
    pub fee: Decimal,
}

/// What a message asks of the book. One with both sides is a snapshot. One
/// with a single side changes the first level of that side; where it names
/// no level, or has neither side, it asks nothing.
pub open spec fn spec_interpret(message: RawMessage) -> Option<BookUpdate> {
    match (message.asks, message.bids) {
        (Some(asks), Some(bids)) => Some(BookUpdate::Snapshot { bids, asks }),
        (None, Some(bids)) => if bids.len() > 0 {
            Some(BookUpdate::BidUpdate(bids[0]))
        } else {
            None
        },
        (Some(asks), None) => if asks.len() > 0 {
            Some(BookUpdate::AskUpdate(asks[0]))
        } else {
            None
        },
        (None, None) => None,
    }
}

/// The book after a message.
pub open spec fn spec_on_message(book: BookState, message: RawMessage) -> BookState {
    match spec_interpret(message) {
        Some(update) => apply_message(book, update),
        None => book,
    }
}

/// What a message asks of the book.
pub fn interpret(message: BookRawMessage) -> (r: Option<OrderBookMessage>)
    ensures
        match spec_interpret(message@) {
            Some(update) => r matches Some(m) && m@ == update,
            None => r is None,
        },
{
    match (message.asks, message.bids) {
        (Some(asks), Some(bids)) => Some(OrderBookMessage::Snapshot { bids, asks }),
        (None, Some(bids)) => if bids.len() > 0 {
            Some(OrderBookMessage::BidUpdate(bids[0]))
        } else {
            None
        },
        (Some(asks), None) => if asks.len() > 0 {
            Some(OrderBookMessage::AskUpdate(asks[0]))
        } else {
            None
        },
        (None, None) => None,
    }
}

impl DyDx {
    /// An adapter with an empty book.
    pub fn new(persistent_trades: bool, fee: Decimal) -> (r: DyDx)
        ensures
            r.order_book@.bids.len() == 0,
            r.order_book@.asks.len() == 0,
            r.persistent_trades == persistent_trades,
            r.fee == fee,
    {
        DyDx { order_book: OrderBook::new(), persistent_trades, fee }
    }

    /// Applies a message to the book and gives the best bid and the best ask
    /// after it.
    pub fn on_message(&mut self, message: BookRawMessage) -> (r: (
        Option<BookEntry>,
        Option<BookEntry>,
    ))
        ensures
            final(self).order_book@ == spec_on_message(old(self).order_book@, message@),
            r == best_pair(final(self).order_book@),
            final(self).persistent_trades == old(self).persistent_trades,
            final(self).fee == old(self).fee,
    {
        match interpret(message) {
            Some(update) => {
                self.order_book.update(update);
            },
            None => {},
        }
        let bid = match self.order_book.best_bid() {
            Some(entry) => Some(*entry),
            None => None,
        };
        let ask = match self.order_book.best_ask() {
            Some(entry) => Some(*entry),
            None => None,
        };
        (bid, ask)
    }
}

impl Exchange for DyDx {
    type Message = BookRawMessage;

    open spec fn spec_fee(&self) -> Decimal {
        self.fee
    }

    open spec fn spec_persistent_trades(&self) -> bool {
        self.persistent_trades
    }

    open spec fn spec_book(&self) -> BookState {
        self.order_book@
    }

    open spec fn is_ask_update(message: BookRawMessage, entry: BookEntry) -> bool {
        message@ == (RawMessage { asks: Some(seq![entry]), bids: None })
    }

    open spec fn is_bid_update(message: BookRawMessage, entry: BookEntry) -> bool {
        message@ == (RawMessage { asks: None, bids: Some(seq![entry]) })
    }

    open spec fn spec_subscription(symbol: Seq<char>) -> Seq<char> {
        "{\"channel\":\"v4_orderbook\",\"id\":"@ + json_string(symbol)
            + ",\"type\":\"subscribe\"}"@
    }

    fn order_book_subscribe(&self, symbol: &Symbol) -> (r: String) {
        let quoted = outside_json_string(symbol.as_str());
        "{\"channel\":\"v4_orderbook\",\"id\":".to_owned().concat(quoted.as_str()).concat(
            ",\"type\":\"subscribe\"}",
        )
    }

    fn fee(&self) -> (r: Decimal) {
        self.fee
    }

    fn handle_persistent_buy(&self, amount: Decimal, _price: Decimal) -> (r: Result<
        Option<BookRawMessage>,
        ArithmeticError,
    >) {
        match depleted_level(self.persistent_trades, self.order_book.best_ask(), amount) {
            Ok(Some(entry)) => {
                let mut asks: Vec<BookEntry> = Vec::new();
                asks.push(entry);
                assert(asks@ =~= seq![entry]);
                Ok(Some(BookRawMessage { asks: Some(asks), bids: None }))
            },
            Ok(None) => Ok(None),
            Err(e) => Err(e),
        }
    }

    fn handle_persistent_sell(&self, amount: Decimal, _price: Decimal) -> (r: Result<
        Option<BookRawMessage>,
        ArithmeticError,
    >) {
        match depleted_level(self.persistent_trades, self.order_book.best_bid(), amount) {
            Ok(Some(entry)) => {
                let mut bids: Vec<BookEntry> = Vec::new();
                bids.push(entry);
                assert(bids@ =~= seq![entry]);
                Ok(Some(BookRawMessage { asks: None, bids: Some(bids) }))
            },
            Ok(None) => Ok(None),
            Err(e) => Err(e),
        }
    }
}

/// The message that `handle_persistent_buy` gives for a simulated buy, once
/// the adapter takes it, reduces the amount at the best ask by the amount
/// bought: the best ask keeps its place and its price with what is left or,
/// where nothing is left, is removed. The bids stay.
pub proof fn law_persistent_buy_depletes_best_ask(
    book: BookState,
    amount: Decimal,
    entry: BookEntry,
    message: BookRawMessage,
)
    requires
        book.asks.len() > 0,
        spec_depleted_level(true, Some(book.asks[0]), amount) == Ok::<
            Option<BookEntry>,
            ArithmeticError,
        >(Some(entry)),
        DyDx::is_ask_update(message, entry),
    ensures
        spec_on_message(book, message@).bids == book.bids,
        entry.amount.units() == 0 ==> spec_on_message(book, message@).asks == book.asks.remove(0),
        entry.amount.units() != 0 ==> spec_on_message(book, message@).asks == book.asks.update(
            0,
            BookEntry { price: book.asks[0].price, amount: entry.amount },
        ),
{
    law_depleted_level_replaces_best(book.asks, amount, false, entry);
    assert(message@.asks->0[0] == entry);
}

/// The message that `handle_persistent_sell` gives for a simulated sell,
/// once the adapter takes it, reduces the amount at the best bid by the
/// amount sold: the best bid keeps its place and its price with what is left
/// or, where nothing is left, is removed. The asks stay.
pub proof fn law_persistent_sell_depletes_best_bid(
    book: BookState,
    amount: Decimal,
    entry: BookEntry,
    message: BookRawMessage,
)
    requires
        book.bids.len() > 0,
        spec_depleted_level(true, Some(book.bids[0]), amount) == Ok::<
            Option<BookEntry>,
            ArithmeticError,
        >(Some(entry)),
        DyDx::is_bid_update(message, entry),
    ensures
        spec_on_message(book, message@).asks == book.asks,
        entry.amount.units() == 0 ==> spec_on_message(book, message@).bids == book.bids.remove(0),
        entry.amount.units() != 0 ==> spec_on_message(book, message@).bids == book.bids.update(
            0,
            BookEntry { price: book.bids[0].price, amount: entry.amount },
        ),
{
    law_depleted_level_replaces_best(book.bids, amount, true, entry);
    assert(message@.bids->0[0] == entry);
}

} // verus!
