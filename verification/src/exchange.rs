//! What the venues have in common: the symbol they are asked for, the
//! capabilities the engine uses, and the feedback of simulated trades into a
//! venue's own book.

use crate::book::{apply_level, lemma_position_of_unique, BookEntry, BookState};
use crate::decimal::{ArithmeticError, Decimal};
use crate::strategy::TradeReport;
use vstd::prelude::*;

pub mod aevo;
pub mod dydx;

verus! {

/// The name of a trading pair at a venue.
#[derive(Clone, Debug)]
pub struct Symbol(pub String);

impl View for Symbol {
    type V = Seq<char>;

    open spec fn view(&self) -> Seq<char> {
        self.0@
    }
}

impl Symbol {
    /// The symbol with the given name.
    pub fn new(name: &str) -> (r: Symbol)
        ensures
            r@ == name@,
    {
        Symbol(name.to_owned())
    }

    /// The symbol's name.
    pub fn as_str(&self) -> (r: &str)
        ensures
            r@ == self@,
    {
        self.0.as_str()
    }
}

impl std::str::FromStr for Symbol {
    type Err = std::convert::Infallible;

    /// Any string names a symbol: the result is never an error, and the
    /// symbol has the string as its name.
    fn from_str(s: &str) -> (r: Result<Symbol, std::convert::Infallible>)
        ensures
            r matches Ok(symbol) && symbol@ == s@,
    {
        Ok(Symbol::new(s))
    }
}

/// The JSON text of a string, as `serde_json` writes it: quoted, with what
/// JSON asks to be escaped escaped.
pub uninterp spec fn json_string(s: Seq<char>) -> Seq<char>;

/// `to_string` of a `serde_json::Value` that holds a string. Not proved:
/// the text it returns is `json_string` of the string.
#[verifier::external_body]
fn outside_json_string(s: &str) -> (r: String)
    ensures
        r@ == json_string(s@),
{
    serde_json::Value::String(s.to_owned()).to_string()
}

/// Why a venue's message was not applied.
#[derive(Clone, Copy, Debug, PartialEq, Eq, Structural)]
pub enum FeedError {
    /// The message is of a type that the venue's adapter does not know.
    UnknownMessageType,
    /// The message is an update that names levels on both sides: neither a
    /// snapshot nor the update of one level.
    UnrecognizedShape,
}

/// The fee rate that a percentage stands for: the percentage over 100.
pub open spec fn spec_fee_rate(percent: Decimal) -> Result<Decimal, ArithmeticError> {
    percent.spec_div(Decimal::spec_new(100, 0))
}

/// The fee rate that a percentage stands for: the percentage over 100.
pub fn fee_rate(percent: Decimal) -> (r: Result<Decimal, ArithmeticError>)
    ensures
        r == spec_fee_rate(percent),
{
    percent.div(Decimal::new(100, 0))
}

/// The best bid and the best ask of a book: the first entry of each side.
pub open spec fn best_pair(book: BookState) -> (Option<BookEntry>, Option<BookEntry>) {
    (
        if book.bids.len() > 0 {
            Some(book.bids[0])
        } else {
            None
        },
        if book.asks.len() > 0 {
            Some(book.asks[0])
        } else {
            None
        },
    )
}

/// The level that a simulated trade of `amount` leaves behind, given the
/// best level of the side it took from: that level, at its own price, with
/// its amount less the traded amount. Nothing where simulated trades are not
/// fed back or the side is empty.
pub open spec fn spec_depleted_level(
    persistent_trades: bool,
    best: Option<BookEntry>,
    amount: Decimal,
) -> Result<Option<BookEntry>, ArithmeticError> {
    if !persistent_trades {
        Ok(None)
    } else {
        match best {
            Some(level) => match level.amount.spec_checked_sub(amount) {
                Some(rest) => Ok(Some(BookEntry { price: level.price, amount: rest })),
                None => Err(ArithmeticError::Overflow),
            },
            None => Ok(None),
        }
    }
}

/// The level that a simulated trade of `amount` leaves behind on the side it
/// took from: the best level of that side with its amount reduced.
pub fn depleted_level(persistent_trades: bool, best: Option<&BookEntry>, amount: Decimal) -> (r:
    Result<Option<BookEntry>, ArithmeticError>)
    ensures
        r == spec_depleted_level(
            persistent_trades,
            match best {
                Some(level) => Some(*level),
                None => None,
            },
            amount,
        ),
{
    if !persistent_trades {
        return Ok(None);
    }
    match best {
        Some(level) => match level.amount.checked_sub(amount) {
            Some(rest) => Ok(Some(BookEntry { price: level.price, amount: rest })),
            None => Err(ArithmeticError::Overflow),
        },
        None => Ok(None),
    }
}

/// Fed back into its side, the level that a simulated trade leaves behind
/// changes the best level and nothing else: it takes the best level's place
/// or, where nothing is left of it, removes it.
pub proof fn law_depleted_level_replaces_best(
    side: Seq<BookEntry>,
    amount: Decimal,
    descending: bool,
    entry: BookEntry,
)
    requires
        side.len() > 0,
        spec_depleted_level(true, Some(side[0]), amount) == Ok::<
            Option<BookEntry>,
            ArithmeticError,
        >(Some(entry)),
    ensures
        entry.price == side[0].price,
        entry.amount.units() == 0 ==> apply_level(side, entry, descending) == side.remove(0),
        entry.amount.units() != 0 ==> apply_level(side, entry, descending) == side.update(0, entry),
{
    lemma_position_of_unique(side, entry.price, 0);
}

/// What the engine can ask of a venue.
pub trait Exchange {
    /// The venue's own form of a book message.
    type Message;

    /// The venue's taker fee rate.
    spec fn spec_fee(&self) -> Decimal;

    /// Whether simulated trades are fed back into the venue's book.
    spec fn spec_persistent_trades(&self) -> bool;

    /// The venue's book.
    spec fn spec_book(&self) -> BookState;

    /// Whether `message` is the venue's update of the one ask level `entry`.
    spec fn is_ask_update(message: Self::Message, entry: BookEntry) -> bool;

    /// Whether `message` is the venue's update of the one bid level `entry`.
    spec fn is_bid_update(message: Self::Message, entry: BookEntry) -> bool;

    /// The text that subscribes to the venue's book of a symbol.
    spec fn spec_subscription(symbol: Seq<char>) -> Seq<char>;

    /// The text to send, once connected, to subscribe to the venue's book of
    /// `symbol`.
    fn order_book_subscribe(&self, symbol: &Symbol) -> (r: String)
        ensures
            r@ == Self::spec_subscription(symbol@),
    ;

    /// The venue's taker fee rate.
    fn fee(&self) -> (r: Decimal)
        ensures
            r == self.spec_fee(),
    ;

    /// The message that makes the venue's book show a simulated buy of
    /// `amount`: an update of the best ask, at the best ask's own price,
    /// that takes the amount from it. The price that was paid does not
    /// enter. None where simulated trades are not fed back or there is no
    /// ask.
    fn handle_persistent_buy(&self, amount: Decimal, price: Decimal) -> (r: Result<
        Option<Self::Message>,
        ArithmeticError,
    >)
        ensures
            match spec_depleted_level(
                self.spec_persistent_trades(),
                best_pair(self.spec_book()).1,
                amount,
            ) {
                Ok(Some(entry)) => r matches Ok(Some(m)) && Self::is_ask_update(m, entry),
                Ok(None) => r matches Ok(None),
                Err(e) => r matches Err(f) && f == e,
            },
    ;

    /// The message that makes the venue's book show a simulated sell of
    /// `amount`: an update of the best bid, at the best bid's own price,
    /// that takes the amount from it. The price that was received does not
    /// enter. None where simulated trades are not fed back or there is no
    /// bid.
    fn handle_persistent_sell(&self, amount: Decimal, price: Decimal) -> (r: Result<
        Option<Self::Message>,
        ArithmeticError,
    >)
        ensures
            match spec_depleted_level(
                self.spec_persistent_trades(),
                best_pair(self.spec_book()).0,
                amount,
            ) {
                Ok(Some(entry)) => r matches Ok(Some(m)) && Self::is_bid_update(m, entry),
                Ok(None) => r matches Ok(None),
                Err(e) => r matches Err(f) && f == e,
            },
    ;
}

/// Whether `message` is what `handle_persistent_buy` owes for the level
/// `entry`: the venue's update of that ask level, or no message for no level.
pub open spec fn is_ask_feedback<E: Exchange>(message: Option<E::Message>, entry: Option<BookEntry>) -> bool {
    match entry {
        Some(e) => message matches Some(m) && E::is_ask_update(m, e),
        None => message is None,
    }
}

/// Whether `message` is what `handle_persistent_sell` owes for the level
/// `entry`: the venue's update of that bid level, or no message for no level.
pub open spec fn is_bid_feedback<E: Exchange>(message: Option<E::Message>, entry: Option<BookEntry>) -> bool {
    match entry {
        Some(e) => message matches Some(m) && E::is_bid_update(m, e),
        None => message is None,
    }
}

/// The messages that make the two venues' books show a trade: for the venue
/// that sold to us an update of its best ask, for the venue that bought from
/// us an update of its best bid, each with the traded amount taken from it
/// and each where that venue feeds simulated trades back.
pub fn persistent_feedback<B: Exchange, S: Exchange>(buyer: &B, seller: &S, trade: &TradeReport) -> (r:
    Result<(Option<B::Message>, Option<S::Message>), ArithmeticError>)
    ensures
        match (
            spec_depleted_level(
                buyer.spec_persistent_trades(),
                best_pair(buyer.spec_book()).1,
                trade.amount,
            ),
            spec_depleted_level(
                seller.spec_persistent_trades(),
                best_pair(seller.spec_book()).0,
                trade.amount,
            ),
        ) {
            (Ok(ask), Ok(bid)) => r matches Ok(messages) && is_ask_feedback::<B>(messages.0, ask)
                && is_bid_feedback::<S>(messages.1, bid),
            (Err(e), _) => r matches Err(f) && f == e,
            (Ok(_), Err(e)) => r matches Err(f) && f == e,
        },
{
    let to_buyer = match buyer.handle_persistent_buy(trade.amount, trade.buy_price) {
        Ok(message) => message,
        Err(e) => { return Err(e); },
    };
    let to_seller = match seller.handle_persistent_sell(trade.amount, trade.sell_price) {
        Ok(message) => message,
        Err(e) => { return Err(e); },
    };
    Ok((to_buyer, to_seller))
}

} // verus!
