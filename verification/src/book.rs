//! The order book of one venue: two sides of price levels, kept by price.

use crate::decimal::Decimal;
use vstd::prelude::*;

verus! {

/// One price level: the amount resting at a price. In a level update an
/// amount of zero asks for the level's removal.
#[derive(Clone, Copy, Debug)]
pub struct BookEntry {
    pub price: Decimal,
    pub amount: Decimal,
}

/// A change to an order book.
#[derive(Clone, Debug)]
pub enum OrderBookMessage {
    /// Replaces both sides.
    Snapshot { bids: Vec<BookEntry>, asks: Vec<BookEntry> },
    /// Sets, adds or removes one level of the asks.
    AskUpdate(BookEntry),
    /// Sets, adds or removes one level of the bids.
    BidUpdate(BookEntry),
}

/// The bids, best (highest) first, and the asks, best (lowest) first.
#[derive(Debug)]
pub struct OrderBook {
    pub bids: Vec<BookEntry>,
    pub asks: Vec<BookEntry>,
}

/// A change to an order book, with the sides of a snapshot as sequences.
pub enum BookUpdate {
    /// Replaces both sides.
    Snapshot { bids: Seq<BookEntry>, asks: Seq<BookEntry> },
    /// Sets, adds or removes one level of the asks.
    AskUpdate(BookEntry),
    /// Sets, adds or removes one level of the bids.
    BidUpdate(BookEntry),
}

impl View for OrderBookMessage {
    type V = BookUpdate;

    open spec fn view(&self) -> BookUpdate {
        match *self {
            OrderBookMessage::Snapshot { bids, asks } => BookUpdate::Snapshot {
                bids: bids@,
                asks: asks@,
            },
            OrderBookMessage::AskUpdate(entry) => BookUpdate::AskUpdate(entry),
            OrderBookMessage::BidUpdate(entry) => BookUpdate::BidUpdate(entry),
        }
    }
}

/// The two sides of a book as sequences.
pub struct BookState {
    pub bids: Seq<BookEntry>,
    pub asks: Seq<BookEntry>,
}

/// Whether price `a` comes strictly before price `b` on a side: the higher
/// one first where the side is descending, the lower one first otherwise.
pub open spec fn precedes(a: Decimal, b: Decimal, descending: bool) -> bool {
    if descending {
        a.units() > b.units()
    } else {
        a.units() < b.units()
    }
}

/// Whether the entry stands at the given price, whatever the scales.
pub open spec fn at_price(e: BookEntry, price: Decimal) -> bool {
    e.price.units() == price.units()
}

/// Each entry's price comes strictly before the prices of all later entries,
/// so that no price occurs twice.
pub open spec fn strictly_sorted(s: Seq<BookEntry>, descending: bool) -> bool {
    forall|i: int, j: int|
        0 <= i < j < s.len() ==> precedes(#[trigger] s[i].price, #[trigger] s[j].price, descending)
}

/// No entry's price comes strictly before the price of an earlier entry.
pub open spec fn sorted(s: Seq<BookEntry>, descending: bool) -> bool {
    forall|i: int, j: int|
        0 <= i < j < s.len() ==> !precedes(#[trigger] s[j].price, #[trigger] s[i].price, descending)
}

/// Index of the first entry at `price`, or the length where there is none.
pub open spec fn position_of(s: Seq<BookEntry>, price: Decimal) -> int
    decreases s.len(),
{
    if s.len() == 0 {
        0
    } else if at_price(s[0], price) {
        0
    } else {
        1 + position_of(s.drop_first(), price)
    }
}

/// Index of the first entry that `price` comes strictly before, or the length
/// where there is none: where a new entry at `price` goes so that it follows
/// every entry it does not precede.
pub open spec fn insertion_point(s: Seq<BookEntry>, price: Decimal, descending: bool) -> int
    decreases s.len(),
{
    if s.len() == 0 {
        0
    } else if precedes(price, s[0].price, descending) {
        0
    } else {
        1 + insertion_point(s.drop_first(), price, descending)
    }
}

/// The entries in order of price, entries of equal price in the order in
/// which they stood.
pub open spec fn sort_by_price(s: Seq<BookEntry>, descending: bool) -> Seq<BookEntry>
    decreases s.len(),
{
    if s.len() == 0 {
        s
    } else {
        let head = sort_by_price(s.drop_last(), descending);
        head.insert(insertion_point(head, s.last().price, descending), s.last())
    }
}

/// One side after a level update: an amount of zero removes the first entry
/// at that price, if any; another amount replaces the amount of the first
/// entry at that price or, where there is none, adds the entry and sorts.
pub open spec fn apply_level(s: Seq<BookEntry>, entry: BookEntry, descending: bool) -> Seq<
    BookEntry,
> {
    let i = position_of(s, entry.price);
    if entry.amount.units() == 0 {
        if i < s.len() {
            s.remove(i)
        } else {
            s
        }
    } else if i < s.len() {
        s.update(i, BookEntry { price: s[i].price, amount: entry.amount })
    } else {
        sort_by_price(s.push(entry), descending)
    }
}

/// The book after one message.
pub open spec fn apply_message(book: BookState, message: BookUpdate) -> BookState {
    match message {
        BookUpdate::Snapshot { bids, asks } => BookState { bids, asks },
        BookUpdate::BidUpdate(entry) => BookState {
            bids: apply_level(book.bids, entry, true),
            asks: book.asks,
        },
        BookUpdate::AskUpdate(entry) => BookState {
            bids: book.bids,
            asks: apply_level(book.asks, entry, false),
        },
    }
}

impl BookState {
    /// Bids strictly descending and asks strictly ascending by price.
    pub open spec fn wf(self) -> bool {
        &&& strictly_sorted(self.bids, true)
        &&& strictly_sorted(self.asks, false)
    }
}

impl View for OrderBook {
    type V = BookState;

    open spec fn view(&self) -> BookState {
        BookState { bids: self.bids@, asks: self.asks@ }
    }
}

/// `position_of` is the one index below which no entry is at `price` and
/// which is the length or holds an entry at `price`.
pub proof fn lemma_position_of(s: Seq<BookEntry>, price: Decimal)
    ensures
        0 <= position_of(s, price) <= s.len(),
        position_of(s, price) < s.len() ==> at_price(s[position_of(s, price)], price),
        forall|j: int| 0 <= j < position_of(s, price) ==> !at_price(#[trigger] s[j], price),
    decreases s.len(),
{
    if s.len() > 0 && !at_price(s[0], price) {
        let t = s.drop_first();
        lemma_position_of(t, price);
        assert forall|j: int| 0 <= j < position_of(s, price) implies !at_price(
            #[trigger] s[j],
            price,
        ) by {
            if j > 0 {
                assert(s[j] == t[j - 1]);
            }
        }
    }
}

/// An index below which no entry is at `price`, and which is the length or
/// holds an entry at `price`, is `position_of`.
pub proof fn lemma_position_of_unique(s: Seq<BookEntry>, price: Decimal, k: int)
    requires
        0 <= k <= s.len(),
        k < s.len() ==> at_price(s[k], price),
        forall|j: int| 0 <= j < k ==> !at_price(#[trigger] s[j], price),
    ensures
        position_of(s, price) == k,
{
    lemma_position_of(s, price);
    let p = position_of(s, price);
    if p < k {
        assert(!at_price(s[p], price));
    } else if k < p {
        assert(!at_price(s[k], price));
    }
}

/// `insertion_point` is the one index below which `price` precedes no entry
/// and which is the length or holds an entry that `price` precedes.
pub proof fn lemma_insertion_point(s: Seq<BookEntry>, price: Decimal, descending: bool)
    ensures
        0 <= insertion_point(s, price, descending) <= s.len(),
        insertion_point(s, price, descending) < s.len() ==> precedes(
            price,
            s[insertion_point(s, price, descending)].price,
            descending,
        ),
        forall|j: int|
            0 <= j < insertion_point(s, price, descending) ==> !precedes(
                price,
                #[trigger] s[j].price,
                descending,
            ),
    decreases s.len(),
{
    if s.len() > 0 && !precedes(price, s[0].price, descending) {
        let t = s.drop_first();
        lemma_insertion_point(t, price, descending);
        assert forall|j: int| 0 <= j < insertion_point(s, price, descending) implies !precedes(
            price,
            #[trigger] s[j].price,
            descending,
        ) by {
            if j > 0 {
                assert(s[j] == t[j - 1]);
            }
        }
    }
}

/// An index below which `price` precedes no entry, and which is the length
/// or holds an entry that `price` precedes, is `insertion_point`.
pub proof fn lemma_insertion_point_unique(
    s: Seq<BookEntry>,
    price: Decimal,
    descending: bool,
    k: int,
)
    requires
        0 <= k <= s.len(),
        k < s.len() ==> precedes(price, s[k].price, descending),
        forall|j: int| 0 <= j < k ==> !precedes(price, #[trigger] s[j].price, descending),
    ensures
        insertion_point(s, price, descending) == k,
{
    lemma_insertion_point(s, price, descending);
    let p = insertion_point(s, price, descending);
    if p < k {
        assert(!precedes(price, s[p].price, descending));
    } else if k < p {
        assert(!precedes(price, s[k].price, descending));
    }
}

/// Whether `a` comes strictly before `b` on a side of the given direction.
fn comes_before(a: &Decimal, b: &Decimal, descending: bool) -> (r: bool)
    ensures
        r == precedes(*a, *b, descending),
{
    if descending {
        a.gt(b)
    } else {
        a.lt(b)
    }
}

/// Index of the first entry at `price`.
fn find_price(side: &Vec<BookEntry>, price: &Decimal) -> (r: Option<usize>)
    ensures
        match r {
            Some(i) => i == position_of(side@, *price) && i < side@.len(),
            None => position_of(side@, *price) == side@.len(),
        },
{
    let mut i: usize = 0;
    while i < side.len()
        invariant
            i <= side@.len(),
            forall|j: int| 0 <= j < i ==> !at_price(#[trigger] side@[j], *price),
        decreases side@.len() - i,
    {
        if side[i].price.eq(price) {
            proof {
                lemma_position_of_unique(side@, *price, i as int);
            }
            return Some(i);
        }
        i += 1;
    }
    proof {
        lemma_position_of_unique(side@, *price, i as int);
    }
    None
}

/// Index at which an entry at `price` is to be inserted.
fn find_insertion_point(side: &Vec<BookEntry>, price: &Decimal, descending: bool) -> (r: usize)
    ensures
        r == insertion_point(side@, *price, descending),
        r <= side@.len(),
{
    let mut i: usize = 0;
    while i < side.len()
        invariant
            i <= side@.len(),
            forall|j: int| 0 <= j < i ==> !precedes(*price, #[trigger] side@[j].price, descending),
        decreases side@.len() - i,
    {
        if comes_before(price, &side[i].price, descending) {
            proof {
                lemma_insertion_point_unique(side@, *price, descending, i as int);
            }
            return i;
        }
        i += 1;
    }
    proof {
        lemma_insertion_point_unique(side@, *price, descending, i as int);
    }
    i
}

/// Sorts a side by price, keeping entries of equal price in their order.
fn sort_side(side: &mut Vec<BookEntry>, descending: bool)
    ensures
        final(side)@ == sort_by_price(old(side)@, descending),
{
    let mut sorted: Vec<BookEntry> = Vec::new();
    let mut i: usize = 0;
    while i < side.len()
        invariant
            i <= side@.len(),
            side@ == old(side)@,
            sorted@ == sort_by_price(side@.take(i as int), descending),
        decreases side@.len() - i,
    {
        let entry = side[i];
        let k = find_insertion_point(&sorted, &entry.price, descending);
        sorted.insert(k, entry);
        proof {
            let next = side@.take(i + 1);
            assert(next.drop_last() == side@.take(i as int));
            assert(next.last() == entry);
        }
        i += 1;
    }
    proof {
        assert(side@.take(i as int) == side@);
    }
    *side = sorted;
}

/// Applies a level update to one side.
fn update_side(side: &mut Vec<BookEntry>, entry: BookEntry, descending: bool)
    ensures
        final(side)@ == apply_level(old(side)@, entry, descending),
{
    let found = find_price(side, &entry.price);
    if entry.amount.is_zero() {
        if let Some(index) = found {
            side.remove(index);
        }
    } else {
        match found {
            Some(index) => {
                let price = side[index].price;
                side.set(index, BookEntry { price, amount: entry.amount });
            },
            None => {
                side.push(entry);
                sort_side(side, descending);
            },
        }
    }
}

impl OrderBook {
    /// The empty book.
    pub fn new() -> (r: OrderBook)
        ensures
            r@.bids.len() == 0,
            r@.asks.len() == 0,
    {
        OrderBook { bids: Vec::new(), asks: Vec::new() }
    }

    /// The first ask, if any: on a well-formed book the lowest.
    pub fn best_ask(&self) -> (r: Option<&BookEntry>)
        ensures
            match r {
                Some(e) => self@.asks.len() > 0 && *e == self@.asks[0],
                None => self@.asks.len() == 0,
            },
            self@.wf() ==> forall|j: int|
                0 <= j < self@.asks.len() ==> self@.asks[0].price.units() <= (
                #[trigger] self@.asks[j]).price.units(),
    {
        if self.asks.len() > 0 {
            Some(&self.asks[0])
        } else {
            None
        }
    }

    /// The first bid, if any: on a well-formed book the highest.
    pub fn best_bid(&self) -> (r: Option<&BookEntry>)
        ensures
            match r {
                Some(e) => self@.bids.len() > 0 && *e == self@.bids[0],
                None => self@.bids.len() == 0,
            },
            self@.wf() ==> forall|j: int|
                0 <= j < self@.bids.len() ==> self@.bids[0].price.units() >= (
                #[trigger] self@.bids[j]).price.units(),
    {
        if self.bids.len() > 0 {
            Some(&self.bids[0])
        } else {
            None
        }
    }

    /// Applies one message: a snapshot replaces both sides, a level update
    /// changes one level of one side.
    pub fn update(&mut self, update: OrderBookMessage)
        ensures
            final(self)@ == apply_message(old(self)@, update@),
    {
        match update {
            OrderBookMessage::Snapshot { bids, asks } => {
                self.bids = bids;
                self.asks = asks;
            },
            OrderBookMessage::BidUpdate(entry) => {
                update_side(&mut self.bids, entry, true);
            },
            OrderBookMessage::AskUpdate(entry) => {
                update_side(&mut self.asks, entry, false);
            },
        }
    }
}

} // verus!
