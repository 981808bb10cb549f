//! The Aevo venue: how its book messages read and how its book is kept.

use crate::book::{apply_message, BookEntry, BookState, BookUpdate, OrderBook, OrderBookMessage};
use crate::decimal::{ArithmeticError, Decimal};
use crate::exchange::{
    best_pair, depleted_level, json_string, law_depleted_level_replaces_best,
    outside_json_string, spec_depleted_level, Exchange, FeedError, Symbol,
};
use vstd::prelude::*;

verus! {

/// What the adapter reads of an Aevo book message: its type, `snapshot` or
/// `update`, and the levels of both sides.
#[derive(Debug)]
pub struct BookRawMessage {
    pub msg_type: String,
    pub bids: Vec<BookEntry>,
    pub asks: Vec<BookEntry>,
}

/// A book message with its type and levels as sequences.
pub struct RawMessage {
    pub msg_type: Seq<char>,
    pub bids: Seq<BookEntry>,
    pub asks: Seq<BookEntry>,
}

impl View for BookRawMessage {
    type V = RawMessage;

    open spec fn view(&self) -> RawMessage {
        RawMessage { msg_type: self.msg_type@, bids: self.bids@, asks: self.asks@ }
    }
}

/// The Aevo adapter: its book, whether simulated trades are fed back into
/// it, and its fee rate.
#[derive(Debug)]
pub struct Aevo {
    pub order_book: OrderBook,
    pub persistent_trades: bool,
    pub fee: Decimal,
}

/// What a message asks of the book. A snapshot replaces both sides. An
/// update that names levels of one side only changes the first of them; one
/// that names none asks nothing; one that names levels of both sides is of
/// no shape that the adapter recognizes. Any other type is unknown.
pub open spec fn spec_interpret(message: RawMessage) -> Result<Option<BookUpdate>, FeedError> {
    if message.msg_type == "snapshot"@ {
        Ok(Some(BookUpdate::Snapshot { bids: message.bids, asks: message.asks }))
    } else if message.msg_type == "update"@ {
        if message.asks.len() > 0 && message.bids.len() > 0 {
            Err(FeedError::UnrecognizedShape)
        } else if message.asks.len() > 0 {
            Ok(Some(BookUpdate::AskUpdate(message.asks[0])))
        } else if message.bids.len() > 0 {
            Ok(Some(BookUpdate::BidUpdate(message.bids[0])))
        } else {
            Ok(None)
        }
    } else {
        Err(FeedError::UnknownMessageType)
    }
}

/// The book after a message, and what the adapter emits for it.
pub open spec fn spec_on_message(book: BookState, message: RawMessage) -> (
    BookState,
    Result<(Option<BookEntry>, Option<BookEntry>), FeedError>,
) {
    match spec_interpret(message) {
        Ok(Some(update)) => (
            apply_message(book, update),
            Ok(best_pair(apply_message(book, update))),
        ),
        Ok(None) => (book, Ok(best_pair(book))),
        Err(e) => (book, Err(e)),
    }
}

/// What a message asks of the book.
pub fn interpret(message: BookRawMessage) -> (r: Result<Option<OrderBookMessage>, FeedError>)
    ensures
        match spec_interpret(message@) {
            Ok(Some(update)) => r matches Ok(Some(m)) && m@ == update,
            Ok(None) => r matches Ok(None),
            Err(e) => r matches Err(f) && f == e,
        },
{
    let snapshot = "snapshot".to_owned();
    let update = "update".to_owned();
    if message.msg_type == snapshot {
        Ok(Some(OrderBookMessage::Snapshot { bids: message.bids, asks: message.asks }))
    } else if message.msg_type == update {
        if message.asks.len() > 0 && message.bids.len() > 0 {
            Err(FeedError::UnrecognizedShape)
        } else if message.asks.len() > 0 {
            Ok(Some(OrderBookMessage::AskUpdate(message.asks[0])))
        } else if message.bids.len() > 0 {
            Ok(Some(OrderBookMessage::BidUpdate(message.bids[0])))
        } else {
            Ok(None)
        }
    } else {
        Err(FeedError::UnknownMessageType)
    }
}

impl Aevo {
    /// An adapter with an empty book.
    pub fn new(persistent_trades: bool, fee: Decimal) -> (r: Aevo)
        ensures
            r.order_book@.bids.len() == 0,
            r.order_book@.asks.len() == 0,
            r.persistent_trades == persistent_trades,
            r.fee == fee,
    {
        Aevo { order_book: OrderBook::new(), persistent_trades, fee }
    }

    /// Applies a message to the book and gives the best bid and the best ask
    /// after it. A message of unknown type or of no recognized shape leaves
    /// the book as it was.
    pub fn on_message(&mut self, message: BookRawMessage) -> (r: Result<
        (Option<BookEntry>, Option<BookEntry>),
        FeedError,
    >)
        ensures
            (final(self).order_book@, r) == spec_on_message(old(self).order_book@, message@),
            final(self).persistent_trades == old(self).persistent_trades,
            final(self).fee == old(self).fee,
    {
        match interpret(message) {
            Ok(Some(update)) => {
                self.order_book.update(update);
            },
            Ok(None) => {},
            Err(e) => { return Err(e); },
        }
        let bid = match self.order_book.best_bid() {
            Some(entry) => Some(*entry),
            None => None,
        };
        let ask = match self.order_book.best_ask() {
            Some(entry) => Some(*entry),
            None => None,
        };
        Ok((bid, ask))
    }
}

impl Exchange for Aevo {
    type Message = BookRawMessage;

    open spec fn spec_fee(&self) -> Decimal {
        self.fee
    }

    open spec fn spec_persistent_trades(&self) -> bool {
        self.persistent_trades
    }

    open spec fn spec_book(&self) -> BookState {
        self.order_book@
    }

    open spec fn is_ask_update(message: BookRawMessage, entry: BookEntry) -> bool {
        message@ == (RawMessage { msg_type: "update"@, bids: Seq::empty(), asks: seq![entry] })
    }

    open spec fn is_bid_update(message: BookRawMessage, entry: BookEntry) -> bool {
        message@ == (RawMessage { msg_type: "update"@, bids: seq![entry], asks: Seq::empty() })
    }

    open spec fn spec_subscription(symbol: Seq<char>) -> Seq<char> {
        "{\"data\":["@ + json_string("orderbook:"@ + symbol) + "],\"op\":\"subscribe\"}"@
    }

    fn order_book_subscribe(&self, symbol: &Symbol) -> (r: String) {
        let channel = "orderbook:".to_owned().concat(symbol.as_str());
        let quoted = outside_json_string(channel.as_str());
        "{\"data\":[".to_owned().concat(quoted.as_str()).concat("],\"op\":\"subscribe\"}")
    }

    fn fee(&self) -> (r: Decimal) {
        self.fee
    }

    fn handle_persistent_buy(&self, amount: Decimal, _price: Decimal) -> (r: Result<
        Option<BookRawMessage>,
        ArithmeticError,
    >) {
        match depleted_level(self.persistent_trades, self.order_book.best_ask(), amount) {
            Ok(Some(entry)) => {
                let mut asks: Vec<BookEntry> = Vec::new();
                asks.push(entry);
                let update = BookRawMessage {
                    msg_type: "update".to_owned(),
                    bids: Vec::new(),
                    asks,
                };
                assert(update@.asks =~= seq![entry]);
                assert(update@.bids =~= Seq::empty());
                Ok(Some(update))
            },
            Ok(None) => Ok(None),
            Err(e) => Err(e),
        }
    }

    fn handle_persistent_sell(&self, amount: Decimal, _price: Decimal) -> (r: Result<
        Option<BookRawMessage>,
        ArithmeticError,
    >) {
        match depleted_level(self.persistent_trades, self.order_book.best_bid(), amount) {
            Ok(Some(entry)) => {
                let mut bids: Vec<BookEntry> = Vec::new();
                bids.push(entry);
                let update = BookRawMessage {
                    msg_type: "update".to_owned(),
                    bids,
                    asks: Vec::new(),
                };
                assert(update@.bids =~= seq![entry]);
                assert(update@.asks =~= Seq::empty());
                Ok(Some(update))
            },
            Ok(None) => Ok(None),
            Err(e) => Err(e),
        }
    }
}

/// The message that `handle_persistent_buy` gives for a simulated buy, once
/// the adapter takes it, reduces the amount at the best ask by the amount
/// bought: the best ask keeps its place and its price with what is left or,
/// where nothing is left, is removed. The bids stay.
pub proof fn law_persistent_buy_depletes_best_ask(
    book: BookState,
    amount: Decimal,
    entry: BookEntry,
    message: BookRawMessage,
)
    requires
        book.asks.len() > 0,
        spec_depleted_level(true, Some(book.asks[0]), amount) == Ok::<
            Option<BookEntry>,
            ArithmeticError,
        >(Some(entry)),
        Aevo::is_ask_update(message, entry),
    ensures
        spec_on_message(book, message@).0.bids == book.bids,
        entry.amount.units() == 0 ==> spec_on_message(book, message@).0.asks == book.asks.remove(0),
        entry.amount.units() != 0 ==> spec_on_message(book, message@).0.asks == book.asks.update(
            0,
            BookEntry { price: book.asks[0].price, amount: entry.amount },
        ),
{
    reveal_strlit("update");
    reveal_strlit("snapshot");
    assert("update"@.len() != "snapshot"@.len());
    law_depleted_level_replaces_best(book.asks, amount, false, entry);
    assert(message@.asks[0] == entry);
}

/// The message that `handle_persistent_sell` gives for a simulated sell,
/// once the adapter takes it, reduces the amount at the best bid by the
/// amount sold: the best bid keeps its place and its price with what is left
/// or, where nothing is left, is removed. The asks stay.
pub proof fn law_persistent_sell_depletes_best_bid(
    book: BookState,
    amount: Decimal,
    entry: BookEntry,
    message: BookRawMessage,
)
    requires
        book.bids.len() > 0,
        spec_depleted_level(true, Some(book.bids[0]), amount) == Ok::<
            Option<BookEntry>,
            ArithmeticError,
        >(Some(entry)),
        Aevo::is_bid_update(message, entry),
    ensures
        spec_on_message(book, message@).0.asks == book.asks,
        entry.amount.units() == 0 ==> spec_on_message(book, message@).0.bids == book.bids.remove(0),
        entry.amount.units() != 0 ==> spec_on_message(book, message@).0.bids == book.bids.update(
            0,
            BookEntry { price: book.bids[0].price, amount: entry.amount },
        ),
{
    reveal_strlit("update");
    reveal_strlit("snapshot");
    assert("update"@.len() != "snapshot"@.len());
    law_depleted_level_replaces_best(book.bids, amount, true, entry);
    assert(message@.bids[0] == entry);
}

} // verus!
