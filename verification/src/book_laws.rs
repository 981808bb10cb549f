//! What holds of an order book under every message.

use crate::book::{
    apply_level, apply_message, at_price, insertion_point, lemma_insertion_point,
    lemma_insertion_point_unique, lemma_position_of, position_of, precedes, sort_by_price, sorted,
    strictly_sorted, BookEntry, BookState, BookUpdate,
};
use vstd::prelude::*;

verus! {

/// Whether a message keeps to the order of a book: a snapshot must bring its
/// bids strictly descending and its asks strictly ascending; a level update
/// always does.
pub open spec fn message_in_order(message: BookUpdate) -> bool {
    match message {
        BookUpdate::Snapshot { bids, asks } => BookState { bids, asks }.wf(),
        _ => true,
    }
}

/// The book after a sequence of messages, applied first to last.
pub open spec fn apply_all(book: BookState, messages: Seq<BookUpdate>) -> BookState
    decreases messages.len(),
{
    if messages.len() == 0 {
        book
    } else {
        apply_message(apply_all(book, messages.drop_last()), messages.last())
    }
}

/// A side in strict order is in order.
pub proof fn lemma_strictly_sorted_is_sorted(s: Seq<BookEntry>, descending: bool)
    requires
        strictly_sorted(s, descending),
    ensures
        sorted(s, descending),
{
    assert forall|i: int, j: int| 0 <= i < j < s.len() implies !precedes(
        #[trigger] s[j].price,
        #[trigger] s[i].price,
        descending,
    ) by {
        assert(precedes(s[i].price, s[j].price, descending));
    }
}

/// Sorting a side that is in order changes nothing.
pub proof fn lemma_sort_of_sorted(s: Seq<BookEntry>, descending: bool)
    requires
        sorted(s, descending),
    ensures
        sort_by_price(s, descending) == s,
    decreases s.len(),
{
    if s.len() > 0 {
        let head = s.drop_last();
        assert forall|i: int, j: int| 0 <= i < j < head.len() implies !precedes(
            #[trigger] head[j].price,
            #[trigger] head[i].price,
            descending,
        ) by {
            assert(head[i] == s[i] && head[j] == s[j]);
        }
        lemma_sort_of_sorted(head, descending);
        assert forall|j: int| 0 <= j < head.len() implies !precedes(
            s.last().price,
            #[trigger] head[j].price,
            descending,
        ) by {
            assert(head[j] == s[j]);
            assert(!precedes(s[s.len() - 1].price, s[j].price, descending));
        }
        lemma_insertion_point_unique(head, s.last().price, descending, head.len() as int);
        assert(head.insert(head.len() as int, s.last()) =~= s);
    }
}

/// An entry put at its insertion point, on a side in strict order that holds
/// no entry at its price, leaves the side in strict order.
pub proof fn lemma_insert_keeps_strict_order(s: Seq<BookEntry>, entry: BookEntry, descending: bool)
    requires
        strictly_sorted(s, descending),
        position_of(s, entry.price) == s.len(),
    ensures
        strictly_sorted(
            s.insert(insertion_point(s, entry.price, descending), entry),
            descending,
        ),
{
    let k = insertion_point(s, entry.price, descending);
    let t = s.insert(k, entry);
    lemma_insertion_point(s, entry.price, descending);
    lemma_position_of(s, entry.price);
    assert forall|i: int, j: int| 0 <= i < j < t.len() implies precedes(
        #[trigger] t[i].price,
        #[trigger] t[j].price,
        descending,
    ) by {
        if j < k {
            assert(t[i] == s[i] && t[j] == s[j]);
        } else if j == k {
            assert(t[i] == s[i]);
            assert(!at_price(s[i], entry.price));
            assert(!precedes(entry.price, s[i].price, descending));
        } else if i < k {
            assert(t[i] == s[i] && t[j] == s[j - 1]);
        } else if i == k {
            assert(t[j] == s[j - 1]);
            assert(precedes(entry.price, s[k].price, descending));
            if j - 1 > k {
                assert(precedes(s[k].price, s[j - 1].price, descending));
            }
        } else {
            assert(t[i] == s[i - 1] && t[j] == s[j - 1]);
        }
    }
}

/// A level update leaves a side in strict order in strict order.
pub proof fn lemma_level_update_keeps_strict_order(
    s: Seq<BookEntry>,
    entry: BookEntry,
    descending: bool,
)
    requires
        strictly_sorted(s, descending),
    ensures
        strictly_sorted(apply_level(s, entry, descending), descending),
{
    let i = position_of(s, entry.price);
    let t = apply_level(s, entry, descending);
    lemma_position_of(s, entry.price);
    if entry.amount.units() == 0 {
        if i < s.len() {
            assert forall|a: int, b: int| 0 <= a < b < t.len() implies precedes(
                #[trigger] t[a].price,
                #[trigger] t[b].price,
                descending,
            ) by {
                let a0 = if a < i { a } else { a + 1 };
                let b0 = if b < i { b } else { b + 1 };
                assert(t[a] == s[a0] && t[b] == s[b0]);
            }
        }
    } else if i < s.len() {
        assert forall|a: int, b: int| 0 <= a < b < t.len() implies precedes(
            #[trigger] t[a].price,
            #[trigger] t[b].price,
            descending,
        ) by {
            assert(t[a].price == s[a].price && t[b].price == s[b].price);
        }
    } else {
        law_new_price_inserts_one_entry(s, entry, descending);
    }
}

/// After any message that keeps to the order, a book whose bids were
/// strictly descending and whose asks were strictly ascending by price is so
/// still: no price occurs twice on a side.
pub proof fn law_update_keeps_order(book: BookState, message: BookUpdate)
    requires
        book.wf(),
        message_in_order(message),
    ensures
        apply_message(book, message).wf(),
{
    match message {
        BookUpdate::Snapshot { bids, asks } => {},
        BookUpdate::BidUpdate(entry) => {
            lemma_level_update_keeps_strict_order(book.bids, entry, true);
        },
        BookUpdate::AskUpdate(entry) => {
            lemma_level_update_keeps_strict_order(book.asks, entry, false);
        },
    }
}

/// The same after any sequence of such messages, and after each of its
/// beginnings.
pub proof fn law_updates_keep_order(book: BookState, messages: Seq<BookUpdate>)
    requires
        book.wf(),
        forall|i: int| 0 <= i < messages.len() ==> message_in_order(#[trigger] messages[i]),
    ensures
        forall|n: int| 0 <= n <= messages.len() ==> (#[trigger] apply_all(book, messages.take(n))).wf(),
    decreases messages.len(),
{
    if messages.len() > 0 {
        let head = messages.drop_last();
        assert forall|i: int| 0 <= i < head.len() implies message_in_order(#[trigger] head[i]) by {
            assert(head[i] == messages[i]);
        }
        law_updates_keep_order(book, head);
        assert(head.take(head.len() as int) == head);
        law_update_keeps_order(apply_all(book, head), messages.last());
        assert forall|n: int| 0 <= n <= messages.len() implies (#[trigger] apply_all(
            book,
            messages.take(n),
        )).wf() by {
            if n < messages.len() {
                assert(messages.take(n) == head.take(n));
            } else {
                assert(messages.take(n) == messages);
            }
        }
    } else {
        assert forall|n: int| 0 <= n <= messages.len() implies (#[trigger] apply_all(
            book,
            messages.take(n),
        )).wf() by {
            assert(messages.take(n) == messages);
        }
    }
}

/// A level update with amount zero, for a price at which the side holds no
/// entry, leaves the side as it was.
pub proof fn law_removing_absent_price_is_noop(s: Seq<BookEntry>, entry: BookEntry, descending: bool)
    requires
        entry.amount.units() == 0,
        forall|j: int| 0 <= j < s.len() ==> !at_price(#[trigger] s[j], entry.price),
    ensures
        apply_level(s, entry, descending) == s,
{
    lemma_position_of(s, entry.price);
}

/// Such an update leaves the whole book as it was.
pub proof fn law_removing_absent_price_keeps_book(book: BookState, entry: BookEntry)
    requires
        entry.amount.units() == 0,
    ensures
        (forall|j: int| 0 <= j < book.bids.len() ==> !at_price(#[trigger] book.bids[j], entry.price))
            ==> apply_message(book, BookUpdate::BidUpdate(entry)) == book,
        (forall|j: int| 0 <= j < book.asks.len() ==> !at_price(#[trigger] book.asks[j], entry.price))
            ==> apply_message(book, BookUpdate::AskUpdate(entry)) == book,
{
    if forall|j: int| 0 <= j < book.bids.len() ==> !at_price(#[trigger] book.bids[j], entry.price) {
        law_removing_absent_price_is_noop(book.bids, entry, true);
    }
    if forall|j: int| 0 <= j < book.asks.len() ==> !at_price(#[trigger] book.asks[j], entry.price) {
        law_removing_absent_price_is_noop(book.asks, entry, false);
    }
}

/// A level update with an amount other than zero, for a price at which a
/// side in strict order holds no entry, adds exactly that entry, at its
/// insertion point, and leaves the side in strict order.
pub proof fn law_new_price_inserts_one_entry(s: Seq<BookEntry>, entry: BookEntry, descending: bool)
    requires
        strictly_sorted(s, descending),
        entry.amount.units() != 0,
        forall|j: int| 0 <= j < s.len() ==> !at_price(#[trigger] s[j], entry.price),
    ensures
        apply_level(s, entry, descending) == s.insert(
            insertion_point(s, entry.price, descending),
            entry,
        ),
        apply_level(s, entry, descending).len() == s.len() + 1,
        strictly_sorted(apply_level(s, entry, descending), descending),
{
    lemma_position_of(s, entry.price);
    let p = position_of(s, entry.price);
    if p < s.len() {
        assert(!at_price(s[p], entry.price));
    }
    lemma_strictly_sorted_is_sorted(s, descending);
    lemma_sort_of_sorted(s, descending);
    let pushed = s.push(entry);
    assert(pushed.drop_last() == s);
    assert(pushed.last() == entry);
    lemma_insertion_point(s, entry.price, descending);
    lemma_insert_keeps_strict_order(s, entry, descending);
}

/// A level update with an amount other than zero, for a price at which the
/// side holds an entry, replaces the amount of the first such entry and
/// nothing else.
pub proof fn law_existing_price_replaces_amount(
    s: Seq<BookEntry>,
    entry: BookEntry,
    descending: bool,
    i: int,
)
    requires
        entry.amount.units() != 0,
        0 <= i < s.len(),
        at_price(s[i], entry.price),
        forall|j: int| 0 <= j < i ==> !at_price(#[trigger] s[j], entry.price),
    ensures
        apply_level(s, entry, descending).len() == s.len(),
        apply_level(s, entry, descending)[i].price == s[i].price,
        apply_level(s, entry, descending)[i].amount == entry.amount,
        forall|j: int|
            0 <= j < s.len() && j != i ==> #[trigger] apply_level(s, entry, descending)[j] == s[j],
{
    crate::book::lemma_position_of_unique(s, entry.price, i);
}

} // verus!
