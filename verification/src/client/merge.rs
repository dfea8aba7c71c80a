//! What holds of the merged sequence: each feed is served as if it were alone,
//! a feed leaves the registry only when its connection ends, and no feed is
//! preferred round after round.

use crate::client::websocket::{
    cursor_after, decoding_of, distinct, entries_after, holds, lemma_position, lemma_wrap,
    position, put, registered, rotation, stream_of, without, yielded, Frame, Polled,
};
use crate::error::BinanceError;
use crate::json::text_view;
use crate::model::websocket::{BinanceWebsocketMessage, Feed};
use vstd::prelude::*;

verus! {

/// Something that a connection reported, with the feed that it serves.
pub struct Arrival {
    pub feed: Feed,
    pub polled: Polled,
}

/// What the merged sequence yields, before it is decoded.
pub enum Emission {
    /// A frame, to be decoded by the schema of the feed on which it arrived.
    Decoded { feed: Feed, frame: Frame },
    /// The end of a feed, with the failure that ended it, if any.
    Gone { feed: Feed, reason: Option<Seq<char>> },
}

impl Emission {
    /// The feed that this is about.
    pub open spec fn feed(self) -> Feed {
        match self {
            Emission::Decoded { feed, .. } => feed,
            Emission::Gone { feed, .. } => feed,
        }
    }

    /// Whether `item` is this emission as the merged sequence hands it out.
    pub open spec fn renders(self, item: Result<BinanceWebsocketMessage, BinanceError>) -> bool {
        match self {
            Emission::Decoded { feed, frame } => decoding_of(feed, frame, item),
            Emission::Gone { feed, reason } => {
                &&& item matches Err(BinanceError::Disconnected(signal))
                &&& signal.subscription@ == feed
                &&& text_view(signal.reason) == reason
            },
        }
    }
}

/// The registry after `arrival`.
pub open spec fn after<S>(entries: Seq<(Feed, S)>, arrival: Arrival) -> Seq<(Feed, S)> {
    if registered(entries, arrival.feed) {
        entries_after(entries, position(entries, arrival.feed), arrival.polled)
    } else {
        entries
    }
}

/// What the merged sequence yields for `arrival`: nothing for a feed that is
/// not subscribed to, and nothing for a connection with nothing to report.
pub open spec fn emission<S>(entries: Seq<(Feed, S)>, arrival: Arrival) -> Option<Emission> {
    if registered(entries, arrival.feed) {
        match arrival.polled {
            Polled::Pending => None,
            Polled::Frame(frame) => Some(Emission::Decoded { feed: arrival.feed, frame }),
            Polled::Closed => Some(Emission::Gone { feed: arrival.feed, reason: None }),
            Polled::Failed(reason) => Some(Emission::Gone { feed: arrival.feed, reason: Some(reason@) }),
        }
    } else {
        None
    }
}

/// The registry after all of `arrivals`, in order.
pub open spec fn state_after<S>(entries: Seq<(Feed, S)>, arrivals: Seq<Arrival>) -> Seq<(Feed, S)>
    decreases arrivals.len(),
{
    if arrivals.len() == 0 {
        entries
    } else {
        after(state_after(entries, arrivals.drop_last()), arrivals.last())
    }
}

/// What the merged sequence yields for `arrivals`, in order.
pub open spec fn merged<S>(entries: Seq<(Feed, S)>, arrivals: Seq<Arrival>) -> Seq<Emission>
    decreases arrivals.len(),
{
    if arrivals.len() == 0 {
        Seq::empty()
    } else {
        let earlier = merged(entries, arrivals.drop_last());
        match emission(state_after(entries, arrivals.drop_last()), arrivals.last()) {
            Some(e) => earlier.push(e),
            None => earlier,
        }
    }
}

/// The registry that holds the entry of `feed` and no other.
pub open spec fn only<S>(entries: Seq<(Feed, S)>, feed: Feed) -> Seq<(Feed, S)> {
    if registered(entries, feed) {
        seq![entries[position(entries, feed)]]
    } else {
        Seq::empty()
    }
}

/// The arrivals on `feed`.
pub open spec fn arrived_on(feed: Feed) -> spec_fn(Arrival) -> bool {
    |arrival: Arrival| arrival.feed == feed
}

/// The emissions about `feed`.
pub open spec fn emitted_on(feed: Feed) -> spec_fn(Emission) -> bool {
    |e: Emission| e.feed() == feed
}

/// What `poll` does at a position is what the arrival on the feed of that
/// position does, and what it hands out renders what the arrival emits.
pub proof fn law_poll_follows_arrival<S>(
    entries: Seq<(Feed, S)>,
    at: int,
    polled: Polled,
    item: Option<Result<BinanceWebsocketMessage, BinanceError>>,
)
    requires
        distinct(entries),
        0 <= at < entries.len(),
        yielded(entries, at, polled, item),
    ensures
        entries_after(entries, at, polled) == after(entries, Arrival { feed: entries[at].0, polled }),
        match emission(entries, Arrival { feed: entries[at].0, polled }) {
            Some(e) => item matches Some(outcome) && e.renders(outcome),
            None => item is None,
        },
{
    lemma_position(entries, entries[at].0, at);
}

/// A registry without doubles stays so whatever arrives.
pub proof fn lemma_after_distinct<S>(entries: Seq<(Feed, S)>, arrival: Arrival)
    requires
        distinct(entries),
    ensures
        distinct(after(entries, arrival)),
{
    let next = after(entries, arrival);
    if next != entries {
        let p = position(entries, arrival.feed);
        assert(holds(entries, arrival.feed, p));
        assert forall|i: int, j: int| 0 <= i < j < next.len() implies next[i].0 != next[j].0 by {
            let i0 = if i < p {
                i
            } else {
                i + 1
            };
            let j0 = if j < p {
                j
            } else {
                j + 1
            };
            assert(entries[i0].0 != entries[j0].0);
        }
    }
}

/// An arrival on one feed leaves the entry of every other feed as it was.
pub proof fn lemma_other_feed_untouched<S>(entries: Seq<(Feed, S)>, arrival: Arrival, feed: Feed)
    requires
        distinct(entries),
        arrival.feed != feed,
    ensures
        only(after(entries, arrival), feed) == only(entries, feed),
{
    let next = after(entries, arrival);
    lemma_after_distinct(entries, arrival);
    if next != entries {
        let p = position(entries, arrival.feed);
        assert(holds(entries, arrival.feed, p));
        assert(next == entries.remove(p));
        if registered(entries, feed) {
            let q = position(entries, feed);
            assert(holds(entries, feed, q));
            let q1 = if q < p {
                q
            } else {
                q - 1
            };
            assert(holds(next, feed, q1));
            lemma_position(next, feed, q1);
        } else {
            if registered(next, feed) {
                let q1 = position(next, feed);
                assert(holds(next, feed, q1));
                let q = if q1 < p {
                    q1
                } else {
                    q1 + 1
                };
                assert(holds(entries, feed, q));
            }
        }
    }
}

/// An arrival on a feed does to the registry of that feed alone what it does
/// to its entry in any registry, and emits the same.
pub proof fn lemma_same_feed_alone<S>(entries: Seq<(Feed, S)>, arrival: Arrival)
    requires
        distinct(entries),
    ensures
        only(after(entries, arrival), arrival.feed) == after(only(entries, arrival.feed), arrival),
        emission(entries, arrival) == emission(only(entries, arrival.feed), arrival),
{
    let feed = arrival.feed;
    let alone = only(entries, feed);
    let next = after(entries, arrival);
    if registered(entries, feed) {
        let p = position(entries, feed);
        assert(holds(entries, feed, p));
        assert(holds(alone, feed, 0));
        lemma_position(alone, feed, 0);
        if next != entries {
            assert(next == entries.remove(p));
            if registered(next, feed) {
                let q1 = position(next, feed);
                assert(holds(next, feed, q1));
                let q = if q1 < p {
                    q1
                } else {
                    q1 + 1
                };
                assert(holds(entries, feed, q));
                if q < p {
                    assert(entries[q].0 != entries[p].0);
                } else {
                    assert(entries[p].0 != entries[q].0);
                }
            }
            assert(after(alone, arrival) =~= Seq::<(Feed, S)>::empty());
        }
    } else {
        if registered(alone, feed) {
            let q = position(alone, feed);
            assert(holds(alone, feed, q));
        }
    }
}

/// What the registry of one feed has come to, and what was emitted about
/// that feed, do not depend on the other feeds of the registry.
pub proof fn lemma_feed_stands_alone<S>(entries: Seq<(Feed, S)>, arrivals: Seq<Arrival>, feed: Feed)
    requires
        distinct(entries),
    ensures
        distinct(state_after(entries, arrivals)),
        only(state_after(entries, arrivals), feed) == state_after(
            only(entries, feed),
            arrivals.filter(arrived_on(feed)),
        ),
        merged(entries, arrivals).filter(emitted_on(feed)) == merged(
            only(entries, feed),
            arrivals.filter(arrived_on(feed)),
        ),
    decreases arrivals.len(),
{
    reveal(Seq::filter);
    if arrivals.len() > 0 {
        let earlier = arrivals.drop_last();
        let last = arrivals.last();
        let state = state_after(entries, earlier);
        let alone = only(entries, feed);
        let kept = earlier.filter(arrived_on(feed));
        lemma_feed_stands_alone(entries, earlier, feed);
        lemma_after_distinct(state, last);
        merged(entries, earlier).lemma_filter_push(
            match emission(state, last) {
                Some(e) => e,
                None => arbitrary(),
            },
            emitted_on(feed),
        );
        if last.feed == feed {
            lemma_same_feed_alone(state, last);
            assert(arrivals.filter(arrived_on(feed)) == kept.push(last));
            assert(kept.push(last).drop_last() =~= kept);
        } else {
            lemma_other_feed_untouched(state, last, feed);
            assert(arrivals.filter(arrived_on(feed)) == kept);
        }
    } else {
        assert(merged(entries, arrivals).filter(emitted_on(feed)) =~= Seq::<Emission>::empty());
    }
}

/// No cross-talk and no doubling: of everything that arrives on the feeds of
/// a registry, the merged sequence yields about one feed exactly what it
/// would yield if that feed were the only one subscribed to, in the same
/// order.
pub proof fn law_each_feed_as_if_alone<S>(entries: Seq<(Feed, S)>, arrivals: Seq<Arrival>, feed: Feed)
    requires
        distinct(entries),
    ensures
        merged(entries, arrivals).filter(emitted_on(feed)) == merged(
            only(entries, feed),
            arrivals.filter(arrived_on(feed)),
        ),
{
    lemma_feed_stands_alone(entries, arrivals, feed);
}

/// A sequence of emissions about two feeds is as long as its parts about
/// each, taken together.
pub proof fn lemma_two_feeds_partition(emissions: Seq<Emission>, first: Feed, second: Feed)
    requires
        first != second,
        forall|i: int| 0 <= i < emissions.len() ==> (#[trigger] emissions[i]).feed() == first
            || emissions[i].feed() == second,
    ensures
        emissions.len() == emissions.filter(emitted_on(first)).len() + emissions.filter(
            emitted_on(second),
        ).len(),
    decreases emissions.len(),
{
    reveal(Seq::filter);
    if emissions.len() > 0 {
        lemma_two_feeds_partition(emissions.drop_last(), first, second);
    }
}

/// Every emission is about the feed of the arrival that caused it.
pub proof fn lemma_merged_feeds<S>(entries: Seq<(Feed, S)>, arrivals: Seq<Arrival>, i: int)
    requires
        0 <= i < merged(entries, arrivals).len(),
    ensures
        exists|k: int| 0 <= k < arrivals.len() && (#[trigger] arrivals[k]).feed == merged(entries, arrivals)[i].feed(),
    decreases arrivals.len(),
{
    if arrivals.len() > 0 {
        let earlier = arrivals.drop_last();
        if i < merged(entries, earlier).len() {
            lemma_merged_feeds(entries, earlier, i);
            let k = choose|k: int| 0 <= k < earlier.len() && (#[trigger] earlier[k]).feed == merged(entries, earlier)[i].feed();
            assert(arrivals[k] == earlier[k]);
        } else {
            assert(arrivals[arrivals.len() - 1].feed == merged(entries, arrivals)[i].feed());
        }
    }
}

/// With two different feeds subscribed to, pulling yields exactly what the
/// two would yield alone, taken together: as many events, and about each feed
/// the same events in the same order.
pub proof fn law_two_feeds_union<S>(first: Feed, a: S, second: Feed, b: S, arrivals: Seq<Arrival>)
    requires
        first != second,
        forall|k: int| 0 <= k < arrivals.len() ==> (#[trigger] arrivals[k]).feed == first || arrivals[k].feed
            == second,
    ensures
        ({
            let both = seq![(first, a), (second, b)];
            let all = merged(both, arrivals);
            let one = merged(seq![(first, a)], arrivals.filter(arrived_on(first)));
            let other = merged(seq![(second, b)], arrivals.filter(arrived_on(second)));
            &&& all.filter(emitted_on(first)) == one
            &&& all.filter(emitted_on(second)) == other
            &&& all.len() == one.len() + other.len()
        }),
{
    let both = seq![(first, a), (second, b)];
    let all = merged(both, arrivals);
    assert(distinct(both));
    assert(holds(both, first, 0));
    assert(holds(both, second, 1));
    lemma_position(both, first, 0);
    lemma_position(both, second, 1);
    assert(only(both, first) =~= seq![(first, a)]);
    assert(only(both, second) =~= seq![(second, b)]);
    lemma_feed_stands_alone(both, arrivals, first);
    lemma_feed_stands_alone(both, arrivals, second);
    assert forall|i: int| 0 <= i < all.len() implies (#[trigger] all[i]).feed() == first || all[i].feed()
        == second by {
        lemma_merged_feeds(both, arrivals, i);
    }
    lemma_two_feeds_partition(all, first, second);
}

/// Subscribing again to a feed replaces its connection: the connection that
/// the feed had is the one handed back, the feed has the new connection and
/// still one entry, and every other feed keeps its connection.
pub proof fn law_resubscribe_replaces<S>(entries: Seq<(Feed, S)>, feed: Feed, first: S, second: S)
    requires
        distinct(entries),
    ensures
        ({
            let once = put(entries, feed, first);
            let twice = put(once, feed, second);
            &&& distinct(once) && distinct(twice)
            &&& stream_of(once, feed) == Some(first)
            &&& stream_of(twice, feed) == Some(second)
            &&& twice.len() == once.len()
            &&& forall|other: Feed| other != feed ==> stream_of(twice, other) == stream_of(entries, other)
        }),
{
    let once = put(entries, feed, first);
    lemma_put(entries, feed, first);
    lemma_put(once, feed, second);
    let twice = put(once, feed, second);
    assert forall|other: Feed| other != feed implies stream_of(twice, other) == stream_of(entries, other) by {
        lemma_put_other(entries, feed, first, other);
        lemma_put_other(once, feed, second, other);
    }
}

/// After `put` the feed has the connection given, in a registry without
/// doubles that has grown by one entry at most.
pub proof fn lemma_put<S>(entries: Seq<(Feed, S)>, feed: Feed, stream: S)
    requires
        distinct(entries),
    ensures
        distinct(put(entries, feed, stream)),
        registered(put(entries, feed, stream), feed),
        stream_of(put(entries, feed, stream), feed) == Some(stream),
        put(entries, feed, stream).len() == (if registered(entries, feed) {
            entries.len()
        } else {
            entries.len() + 1
        }),
{
    let next = put(entries, feed, stream);
    if registered(entries, feed) {
        let p = position(entries, feed);
        assert(holds(entries, feed, p));
        assert forall|i: int, j: int| 0 <= i < j < next.len() implies next[i].0 != next[j].0 by {
            assert(entries[i].0 != entries[j].0);
        }
        assert(holds(next, feed, p));
        lemma_position(next, feed, p);
    } else {
        let p = entries.len() as int;
        assert forall|i: int, j: int| 0 <= i < j < next.len() implies next[i].0 != next[j].0 by {
            if j == p {
                assert(!holds(entries, feed, i));
            } else {
                assert(entries[i].0 != entries[j].0);
            }
        }
        assert(holds(next, feed, p));
        lemma_position(next, feed, p);
    }
}

/// `put` leaves the connection of every other feed as it was.
pub proof fn lemma_put_other<S>(entries: Seq<(Feed, S)>, feed: Feed, stream: S, other: Feed)
    requires
        distinct(entries),
        other != feed,
    ensures
        stream_of(put(entries, feed, stream), other) == stream_of(entries, other),
{
    let next = put(entries, feed, stream);
    lemma_put(entries, feed, stream);
    if registered(entries, other) {
        let q = position(entries, other);
        assert(holds(entries, other, q));
        if registered(entries, feed) {
            assert(holds(entries, feed, position(entries, feed)));
        }
        assert(holds(next, other, q));
        lemma_position(next, other, q);
    } else {
        if registered(next, other) {
            let q = position(next, other);
            assert(holds(next, other, q));
            if registered(entries, feed) {
                assert(holds(entries, feed, position(entries, feed)));
            }
            assert(holds(entries, other, q));
        }
    }
}

/// Unsubscribing from a feed that is not subscribed to hands back nothing and
/// leaves every subscription as it was.
pub proof fn law_unsubscribe_absent<S>(entries: Seq<(Feed, S)>, feed: Feed)
    requires
        !registered(entries, feed),
    ensures
        stream_of(entries, feed) is None,
        without(entries, feed) == entries,
{
}

/// Unsubscribing from a feed takes its entry and no other.
pub proof fn law_unsubscribe_takes_one<S>(entries: Seq<(Feed, S)>, feed: Feed, other: Feed)
    requires
        distinct(entries),
        other != feed,
    ensures
        !registered(without(entries, feed), feed),
        stream_of(without(entries, feed), other) == stream_of(entries, other),
        distinct(without(entries, feed)),
{
    let arrival = Arrival { feed, polled: Polled::Closed };
    assert(without(entries, feed) == after(entries, arrival));
    lemma_after_distinct(entries, arrival);
    lemma_other_feed_untouched(entries, arrival, other);
    lemma_same_feed_alone(entries, arrival);
    let left = without(entries, feed);
    assert(only(left, feed).len() == 0) by {
        if registered(entries, feed) {
            assert(holds(only(entries, feed), feed, 0));
            lemma_position(only(entries, feed), feed, 0);
        } else {
            if registered(only(entries, feed), feed) {
                assert(holds(only(entries, feed), feed, position(only(entries, feed), feed)));
            }
        }
    }
    if registered(entries, other) {
        assert(only(left, other)[0] == only(entries, other)[0]);
    } else {
        assert(only(left, other).len() == 0);
    }
}

/// A frame never costs a feed its subscription, whether it can be decoded or
/// not: the registry stays as it was, and the next frame of the feed is
/// decoded as if nothing had gone before.
pub proof fn law_frames_keep_subscription<S>(entries: Seq<(Feed, S)>, feed: Feed, bad: Frame, good: Frame)
    requires
        registered(entries, feed),
    ensures
        after(entries, Arrival { feed, polled: Polled::Frame(bad) }) == entries,
        merged(
            entries,
            seq![Arrival { feed, polled: Polled::Frame(bad) }, Arrival { feed, polled: Polled::Frame(good) }],
        ) == seq![Emission::Decoded { feed, frame: bad }, Emission::Decoded { feed, frame: good }],
{
    let first = Arrival { feed, polled: Polled::Frame(bad) };
    let second = Arrival { feed, polled: Polled::Frame(good) };
    let two = seq![first, second];
    let one = two.drop_last();
    assert(one =~= seq![first]);
    assert(one.drop_last() =~= Seq::<Arrival>::empty());
    assert(state_after(entries, one.drop_last()) == entries);
    assert(merged(entries, one.drop_last()) =~= Seq::<Emission>::empty());
    assert(state_after(entries, one) == entries);
    assert(merged(entries, one) =~= seq![Emission::Decoded { feed, frame: bad }]);
    assert(merged(entries, two) =~= seq![
        Emission::Decoded { feed, frame: bad },
        Emission::Decoded { feed, frame: good },
    ]);
}

/// A connection that ends is reported once: its feed leaves the registry, and
/// whatever arrives for that feed afterwards yields nothing.
pub proof fn law_disconnect_reported_once<S>(entries: Seq<(Feed, S)>, feed: Feed, later: Polled)
    requires
        distinct(entries),
        registered(entries, feed),
    ensures
        ({
            let left = after(entries, Arrival { feed, polled: Polled::Closed });
            &&& emission(entries, Arrival { feed, polled: Polled::Closed }) == Some(
                Emission::Gone { feed, reason: None },
            )
            &&& left == without(entries, feed)
            &&& !registered(left, feed)
            &&& emission(left, Arrival { feed, polled: later }) is None
        }),
{
    let closing = Arrival { feed, polled: Polled::Closed };
    lemma_same_feed_alone(entries, closing);
    assert(holds(only(entries, feed), feed, 0));
    lemma_position(only(entries, feed), feed, 0);
    let left = after(entries, closing);
    if registered(left, feed) {
        assert(holds(left, feed, position(left, feed)));
        assert(only(left, feed).len() == 1);
    }
}

/// A round examines every entry exactly once.
pub proof fn law_round_examines_each_once(count: int, cursor: int)
    requires
        0 <= cursor < count <= usize::MAX,
    ensures
        rotation(count, cursor).len() == count,
        forall|k: int| 0 <= k < count ==> 0 <= #[trigger] rotation(count, cursor)[k] < count,
        forall|k: int, l: int| 0 <= k < l < count ==> rotation(count, cursor)[k] != rotation(count, cursor)[l],
{
    assert forall|k: int| 0 <= k < count implies 0 <= #[trigger] rotation(count, cursor)[k] < count
        && rotation(count, cursor)[k] == (if cursor + k < count {
        cursor + k
    } else {
        cursor + k - count
    }) by {
        lemma_wrap(cursor + k, count);
    }
}

/// No feed is preferred: the entry that has just been served is the last to
/// be examined in the next round.
pub proof fn law_served_goes_last(count: int, served: int, polled: Polled)
    requires
        0 <= served < count <= usize::MAX,
        polled is Frame,
    ensures
        ({
            let next = cursor_after(count, 0, served, polled);
            &&& 0 <= next < count
            &&& rotation(count, next)[count - 1] == served
        }),
{
    lemma_wrap(served + 1, count);
    let next = cursor_after(count, 0, served, polled);
    lemma_wrap(next + count - 1, count);
}

} // verus!
