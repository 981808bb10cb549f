//! The life of a venue's feed: connect, subscribe, stream, and start over
//! whenever the transport fails.

use vstd::prelude::*;

verus! {

/// Where a feed stands.
#[derive(Clone, Copy, Debug, PartialEq, Eq, Structural)]
pub enum FeedState {
    /// No connection to the venue.
    Disconnected,
    /// Connected, the subscription not yet sent.
    Connected,
    /// Subscribed: messages are coming in.
    Streaming,
}

/// What happened to a feed.
#[derive(Clone, Copy, Debug, PartialEq, Eq, Structural)]
pub enum FeedEvent {
    /// The connection was opened.
    Opened,
    /// The subscription was sent.
    Subscribed,
    /// A message came in and was decoded.
    Decoded,
    /// A message came in and could not be decoded.
    Undecodable,
    /// The transport failed: the connection was refused or closed, or a
    /// frame was malformed.
    TransportFailed,
}

/// What the feed's driver does next.
#[derive(Clone, Copy, Debug, PartialEq, Eq, Structural)]
pub enum FeedAction {
    /// Open a connection to the venue.
    Connect,
    /// Send the subscription.
    Subscribe,
    /// Wait for the next message.
    Receive,
    /// Hand the decoded message on, waiting where the queue is full, then
    /// wait for the next.
    Deliver,
    /// Drop the message, then wait for the next.
    Discard,
}

/// The state after an event, and what to do next. A failure of the
/// transport, and any event that the state does not expect, sends the feed
/// back to connecting. A message that cannot be decoded is dropped and the
/// connection kept.
pub open spec fn spec_feed_step(state: FeedState, event: FeedEvent) -> (FeedState, FeedAction) {
    match (state, event) {
        (FeedState::Disconnected, FeedEvent::Opened) => (FeedState::Connected, FeedAction::Subscribe),
        (FeedState::Connected, FeedEvent::Subscribed) => (FeedState::Streaming, FeedAction::Receive),
        (FeedState::Streaming, FeedEvent::Decoded) => (FeedState::Streaming, FeedAction::Deliver),
        (FeedState::Streaming, FeedEvent::Undecodable) => (FeedState::Streaming, FeedAction::Discard),
        _ => (FeedState::Disconnected, FeedAction::Connect),
    }
}

/// The state after a sequence of events, first to last.
pub open spec fn spec_feed_run(state: FeedState, events: Seq<FeedEvent>) -> FeedState
    decreases events.len(),
{
    if events.len() == 0 {
        state
    } else {
        spec_feed_step(spec_feed_run(state, events.drop_last()), events.last()).0
    }
}

/// The state in which a feed starts, and what its driver does first.
pub fn feed_start() -> (r: (FeedState, FeedAction))
    ensures
        r == (FeedState::Disconnected, FeedAction::Connect),
{
    (FeedState::Disconnected, FeedAction::Connect)
}

/// The state after an event, and what to do next.
pub fn feed_step(state: FeedState, event: FeedEvent) -> (r: (FeedState, FeedAction))
    ensures
        r == spec_feed_step(state, event),
{
    match event {
        FeedEvent::TransportFailed => (FeedState::Disconnected, FeedAction::Connect),
        FeedEvent::Opened => match state {
            FeedState::Disconnected => (FeedState::Connected, FeedAction::Subscribe),
            _ => (FeedState::Disconnected, FeedAction::Connect),
        },
        FeedEvent::Subscribed => match state {
            FeedState::Connected => (FeedState::Streaming, FeedAction::Receive),
            _ => (FeedState::Disconnected, FeedAction::Connect),
        },
        FeedEvent::Decoded => match state {
            FeedState::Streaming => (FeedState::Streaming, FeedAction::Deliver),
            _ => (FeedState::Disconnected, FeedAction::Connect),
        },
        FeedEvent::Undecodable => match state {
            FeedState::Streaming => (FeedState::Streaming, FeedAction::Discard),
            _ => (FeedState::Disconnected, FeedAction::Connect),
        },
    }
}

/// Whatever the state, a failure of the transport sends the feed back to
/// connecting.
pub proof fn law_transport_failure_reconnects(state: FeedState)
    ensures
        spec_feed_step(state, FeedEvent::TransportFailed) == (
            FeedState::Disconnected,
            FeedAction::Connect,
        ),
{
}

/// A feed that started disconnected is connected only right after a
/// connection was opened, and streams only after a connection was opened and
/// the subscription sent on it, one right after the other.
pub proof fn law_streaming_follows_subscription(events: Seq<FeedEvent>)
    ensures
        spec_feed_run(FeedState::Disconnected, events) == FeedState::Connected ==> events.len() > 0
            && events.last() == FeedEvent::Opened,
        spec_feed_run(FeedState::Disconnected, events) == FeedState::Streaming ==> exists|i: int|
            0 <= i < events.len() - 1 && events[i] == FeedEvent::Opened && #[trigger] events[i + 1]
                == FeedEvent::Subscribed,
    decreases events.len(),
{
    if events.len() > 0 {
        let head = events.drop_last();
        let before = spec_feed_run(FeedState::Disconnected, head);
        law_streaming_follows_subscription(head);
        if spec_feed_run(FeedState::Disconnected, events) == FeedState::Streaming {
            if before == FeedState::Streaming {
                let j = choose|j: int|
                    0 <= j < head.len() - 1 && head[j] == FeedEvent::Opened && #[trigger] head[j
                        + 1] == FeedEvent::Subscribed;
                assert(events[j] == head[j] && events[j + 1] == head[j + 1]);
            } else {
                assert(before == FeedState::Connected && events.last() == FeedEvent::Subscribed);
                let k = events.len() - 2;
                assert(events[k] == head.last());
                assert(events[k + 1] == events.last());
            }
        }
    }
}

/// A message that cannot be decoded leaves a streaming feed streaming.
pub proof fn law_undecodable_keeps_connection()
    ensures
        spec_feed_step(FeedState::Streaming, FeedEvent::Undecodable) == (
            FeedState::Streaming,
            FeedAction::Discard,
        ),
{
}

} // verus!
