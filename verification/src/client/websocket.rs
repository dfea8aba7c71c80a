//! The multiplexer of feeds: a registry of subscriptions, each with the
//! connection that serves it, merged into one sequence of events.
//!
//! Connections are opened and read outside this module. It decides what the
//! registry holds, in which order the connections are examined, and what the
//! merged sequence yields for what a connection reported.

use crate::error::{BinanceError, ConnectionError, DecodeError, Disconnect};
use crate::json::{json_document, Json};
use crate::model::websocket::{BinanceSubscription, BinanceWebsocketMessage, Feed};
use vstd::prelude::*;
use vstd::string::*;

verus! {

/// The failure of the `url` crate to read a URL.
#[verifier::external_type_specification]
#[verifier::external_body]
pub struct ExUrlError(url::ParseError);

/// The address under which the exchange serves its feeds.
pub const WS_URL: &'static str = "wss://stream.binance.com:9443/ws";

/// Why an address is refused.
pub const INVALID_ADDRESS: &'static str = "the address of the feed is not a URL";

/// One frame of a connection, as it came.
#[derive(Debug, Clone)]
pub enum Frame {
    Text(String),
    Binary(Vec<u8>),
    Ping(Vec<u8>),
    Pong(Vec<u8>),
}

/// What a connection reported when it was examined.
#[derive(Debug, Clone)]
pub enum Polled {
    /// Nothing has arrived yet.
    Pending,
    Frame(Frame),
    /// The connection was closed in order.
    Closed,
    /// The connection failed, for the reason given.
    Failed(String),
}

/// Whether `outcome` is what the frame `frame` means on `feed`: the event that
/// a text frame describes, or the failure that keeps the text where it
/// describes none; the bytes of a binary frame untouched; a ping or a pong.
pub open spec fn decoding_of(
    feed: Feed,
    frame: Frame,
    outcome: Result<BinanceWebsocketMessage, BinanceError>,
) -> bool {
    match frame {
        Frame::Binary(bytes) => outcome matches Ok(BinanceWebsocketMessage::Binary(kept)) && kept@
            == bytes@,
        Frame::Ping(_) => outcome matches Ok(BinanceWebsocketMessage::Ping),
        Frame::Pong(_) => outcome matches Ok(BinanceWebsocketMessage::Pong),
        Frame::Text(text) => match outcome {
            Ok(message) => json_document(text@) matches Some(j) && message.carried_by(feed, j),
            Err(error) => {
                &&& error matches BinanceError::Decode(failure) && failure.payload@ == text@
                &&& json_document(text@) matches Some(j) ==> forall|message: BinanceWebsocketMessage|
                    !message.carried_by(feed, j)
            },
        },
    }
}

/// Decodes one frame by the schema of the feed on which it arrived.
pub fn parse_message(subscription: &BinanceSubscription, frame: Frame) -> (r: Result<
    BinanceWebsocketMessage,
    BinanceError,
>)
    ensures
        decoding_of(subscription@, frame, r),
{
    match frame {
        Frame::Text(text) => {
            let decoded = match Json::parse(text.as_str()) {
                Some(j) => BinanceWebsocketMessage::from_json(subscription, &j),
                None => None,
            };
            match decoded {
                Some(message) => Ok(message),
                None => Err(BinanceError::Decode(DecodeError { payload: text })),
            }
        },
        Frame::Binary(bytes) => Ok(BinanceWebsocketMessage::Binary(bytes)),
        Frame::Ping(_) => Ok(BinanceWebsocketMessage::Ping),
        Frame::Pong(_) => Ok(BinanceWebsocketMessage::Pong),
    }
}

/// The URL that the `url` crate reads from `text`, written out again; nothing
/// where it reads none.
pub uninterp spec fn url_of(text: Seq<char>) -> Option<Seq<char>>;

/// Calls `url::Url::parse` and hands out the URL as a string. The contract
/// claims that the outcome is a function of the text alone.
#[verifier::external_body]
fn read_url(text: &str) -> (r: Result<String, url::ParseError>)
    ensures
        match r {
            Ok(address) => url_of(text@) == Some(address@),
            Err(_) => url_of(text@) is None,
        },
{
    url::Url::parse(text).map(String::from)
}

/// Whether entry `i` of `entries` is the one for `feed`.
pub open spec fn holds<S>(entries: Seq<(Feed, S)>, feed: Feed, i: int) -> bool {
    0 <= i < entries.len() && entries[i].0 == feed
}

/// Whether `feed` has an entry.
pub open spec fn registered<S>(entries: Seq<(Feed, S)>, feed: Feed) -> bool {
    exists|i: int| holds(entries, feed, i)
}

/// Where the entry of `feed` stands, for a feed that has one.
pub open spec fn position<S>(entries: Seq<(Feed, S)>, feed: Feed) -> int {
    choose|i: int| holds(entries, feed, i)
}

/// Whether no feed has two entries.
pub open spec fn distinct<S>(entries: Seq<(Feed, S)>) -> bool {
    forall|i: int, j: int| 0 <= i < j < entries.len() ==> entries[i].0 != entries[j].0
}

/// Whether two registries hold the same feeds in the same order.
pub open spec fn same_feeds<S>(a: Seq<(Feed, S)>, b: Seq<(Feed, S)>) -> bool {
    a.len() == b.len() && forall|i: int| 0 <= i < a.len() ==> (#[trigger] a[i]).0 == b[i].0
}

/// The connection that serves `feed`.
pub open spec fn stream_of<S>(entries: Seq<(Feed, S)>, feed: Feed) -> Option<S> {
    if registered(entries, feed) {
        Some(entries[position(entries, feed)].1)
    } else {
        None
    }
}

/// The registry after `feed` was given the connection `stream`: in the place
/// of the connection that it had, or at the end.
pub open spec fn put<S>(entries: Seq<(Feed, S)>, feed: Feed, stream: S) -> Seq<(Feed, S)> {
    if registered(entries, feed) {
        entries.update(position(entries, feed), (feed, stream))
    } else {
        entries.push((feed, stream))
    }
}

/// The registry without the entry of `feed`.
pub open spec fn without<S>(entries: Seq<(Feed, S)>, feed: Feed) -> Seq<(Feed, S)> {
    if registered(entries, feed) {
        entries.remove(position(entries, feed))
    } else {
        entries
    }
}

/// Where the next round starts once entry `removed` is gone, of a round that
/// was to start at `cursor`, with `left` entries remaining: at the same entry
/// as before, or at the first where that one was the last.
pub open spec fn cursor_without(cursor: int, removed: int, left: int) -> int {
    let moved = if removed < cursor {
        cursor - 1
    } else {
        cursor
    };
    if moved < left {
        moved
    } else {
        0
    }
}

/// The order in which a round examines `count` entries when it starts at
/// `cursor`: from there to the end, then from the first up to it.
pub open spec fn rotation(count: int, cursor: int) -> Seq<usize> {
    Seq::new(count as nat, |k: int| ((cursor + k) % count) as usize)
}

/// The feeds subscribed to, each with the connection of type `S` that serves
/// it, and the place where the next round of examining them starts.
pub struct BinanceWebsocket<S> {
    endpoint: String,
    subscriptions: Vec<(BinanceSubscription, S)>,
    cursor: usize,
}

impl<S> BinanceWebsocket<S> {
    /// The registry: one entry for each feed subscribed to, in the order in
    /// which the feeds were first subscribed to.
    pub closed spec fn entries(&self) -> Seq<(Feed, S)> {
        self.subscriptions@.map_values(|entry: (BinanceSubscription, S)| (entry.0@, entry.1))
    }

    /// The entry at which the next round starts.
    pub closed spec fn cursor(&self) -> int {
        self.cursor as int
    }

    /// The address under which the feeds are served.
    pub closed spec fn endpoint(&self) -> Seq<char> {
        self.endpoint@
    }

    /// No feed has two entries, and the next round starts at an entry, or at
    /// 0 where there is none.
    pub open spec fn wf(&self) -> bool {
        &&& distinct(self.entries())
        &&& 0 <= self.cursor()
        &&& self.cursor() < self.entries().len() || self.cursor() == 0
    }

    /// A multiplexer without subscriptions, for feeds served under `endpoint`.
    pub fn new(endpoint: &str) -> (r: Self)
        ensures
            r.wf(),
            r.entries() == Seq::<(Feed, S)>::empty(),
            r.cursor() == 0,
            r.endpoint() == endpoint@,
    {
        let r = BinanceWebsocket { endpoint: String::from_str(endpoint), subscriptions: Vec::new(), cursor: 0 };
        assert(r.entries() =~= Seq::<(Feed, S)>::empty());
        r
    }

    /// The number of feeds subscribed to.
    pub fn len(&self) -> (r: usize)
        ensures
            r == self.entries().len(),
    {
        self.subscriptions.len()
    }

    /// Whether no feed is subscribed to.
    pub fn is_empty(&self) -> (r: bool)
        ensures
            r == (self.entries().len() == 0),
    {
        self.subscriptions.len() == 0
    }

    /// Where the entry of `subscription` stands.
    pub fn find(&self, subscription: &BinanceSubscription) -> (r: Option<usize>)
        ensures
            match r {
                Some(i) => holds(self.entries(), subscription@, i as int),
                None => !registered(self.entries(), subscription@),
            },
    {
        let mut i: usize = 0;
        while i < self.subscriptions.len()
            invariant
                i <= self.subscriptions.len(),
                forall|k: int| 0 <= k < i ==> !holds(self.entries(), subscription@, k),
            decreases self.subscriptions.len() - i,
        {
            if self.subscriptions[i].0.eq(subscription) {
                return Some(i);
            }
            i = i + 1;
        }
        None
    }

    /// Whether `subscription` is subscribed to.
    pub fn is_subscribed(&self, subscription: &BinanceSubscription) -> (r: bool)
        ensures
            r == registered(self.entries(), subscription@),
    {
        self.find(subscription).is_some()
    }

    /// The feed of the entry at `position`.
    pub fn subscription_at(&self, position: usize) -> (r: Option<&BinanceSubscription>)
        ensures
            match r {
                Some(subscription) => position < self.entries().len() && subscription@
                    == self.entries()[position as int].0,
                None => position >= self.entries().len(),
            },
    {
        if position < self.subscriptions.len() {
            Some(&self.subscriptions[position].0)
        } else {
            None
        }
    }

    /// The address at which `subscription` is served: the endpoint, a slash
    /// and the path of the feed, as a URL.
    pub fn address(&self, subscription: &BinanceSubscription) -> (r: Result<
        String,
        BinanceError,
    >)
        ensures
            match r {
                Ok(address) => url_of(self.endpoint() + "/"@ + subscription@.path()) == Some(address@),
                Err(error) => {
                    &&& url_of(self.endpoint() + "/"@ + subscription@.path()) is None
                    &&& error matches BinanceError::Connection(failure)
                    &&& failure.subscription@ == subscription@
                    &&& failure.reason@ == INVALID_ADDRESS@
                },
            },
    {
        let mut text = self.endpoint.clone();
        text.append("/");
        text.append(subscription.wire_path().as_str());
        match read_url(text.as_str()) {
            Ok(address) => Ok(address),
            Err(_) => Err(
                BinanceError::Connection(
                    ConnectionError {
                        subscription: subscription.clone(),
                        reason: String::from_str(INVALID_ADDRESS),
                    },
                ),
            ),
        }
    }

    /// Takes what opening a connection for `subscription` came to. A
    /// connection is registered for the feed, and the connection that the feed
    /// had before, if any, is handed back to be closed. A failure is reported
    /// and leaves the registry as it was.
    pub fn subscribe(
        &mut self,
        subscription: BinanceSubscription,
        opened: Result<S, String>,
    ) -> (r: Result<Option<S>, BinanceError>)
        requires
            old(self).wf(),
        ensures
            final(self).wf(),
            final(self).endpoint() == old(self).endpoint(),
            final(self).cursor() == old(self).cursor(),
            match opened {
                Ok(stream) => {
                    &&& r == Ok::<Option<S>, BinanceError>(stream_of(old(self).entries(), subscription@))
                    &&& final(self).entries() == put(old(self).entries(), subscription@, stream)
                },
                Err(reason) => {
                    &&& r matches Err(BinanceError::Connection(failure))
                    &&& failure.subscription@ == subscription@
                    &&& failure.reason@ == reason@
                    &&& final(self).entries() == old(self).entries()
                },
            },
    {
        let stream = match opened {
            Ok(stream) => stream,
            Err(reason) => {
                return Err(BinanceError::Connection(ConnectionError { subscription, reason }));
            },
        };
        let ghost before = self.entries();
        let ghost feed = subscription@;
        match self.find(&subscription) {
            Some(i) => {
                proof {
                    lemma_position(before, feed, i as int);
                }
                let (_, previous) = self.subscriptions.remove(i);
                self.subscriptions.insert(i, (subscription, stream));
                assert(self.entries() =~= before.update(i as int, (feed, stream)));
                Ok(Some(previous))
            },
            None => {
                self.subscriptions.push((subscription, stream));
                assert(self.entries() =~= before.push((feed, stream)));
                assert forall|i: int, j: int| 0 <= i < j < self.entries().len() implies self.entries()[i].0
                    != self.entries()[j].0 by {
                    if j == before.len() {
                        assert(!holds(before, feed, i));
                    }
                }
                Ok(None)
            },
        }
    }

    /// Ends the subscription to `subscription` and hands back its connection,
    /// to be closed. Nothing happens where the feed was not subscribed to.
    pub fn unsubscribe(&mut self, subscription: &BinanceSubscription) -> (r: Option<S>)
        requires
            old(self).wf(),
        ensures
            final(self).wf(),
            final(self).endpoint() == old(self).endpoint(),
            r == stream_of(old(self).entries(), subscription@),
            final(self).entries() == without(old(self).entries(), subscription@),
            final(self).cursor() == (if registered(old(self).entries(), subscription@) {
                cursor_without(
                    old(self).cursor(),
                    position(old(self).entries(), subscription@),
                    old(self).entries().len() - 1,
                )
            } else {
                old(self).cursor()
            }),
    {
        match self.find(subscription) {
            Some(i) => {
                proof {
                    lemma_position(self.entries(), subscription@, i as int);
                }
                let (_, stream) = self.take(i);
                Some(stream)
            },
            None => None,
        }
    }

    /// Ends every subscription and hands back the connections, to be closed,
    /// in the order of their entries.
    pub fn close(&mut self) -> (r: Vec<S>)
        requires
            old(self).wf(),
        ensures
            final(self).wf(),
            final(self).endpoint() == old(self).endpoint(),
            final(self).entries() == Seq::<(Feed, S)>::empty(),
            final(self).cursor() == 0,
            r@ == old(self).entries().map_values(|entry: (Feed, S)| entry.1),
    {
        let ghost before = self.entries();
        let mut streams: Vec<S> = Vec::new();
        assert(before.skip(0) =~= before);
        assert(streams@ =~= before.take(0).map_values(|entry: (Feed, S)| entry.1));
        while self.subscriptions.len() > 0
            invariant
                self.endpoint() == old(self).endpoint(),
                streams@.len() <= before.len(),
                self.entries() == before.skip(streams@.len() as int),
                streams@ == before.take(streams@.len() as int).map_values(|entry: (Feed, S)| entry.1),
            decreases self.subscriptions.len(),
        {
            let ghost taken = streams@.len() as int;
            let ghost left = self.entries();
            assert(left.len() == self.subscriptions.len() && left.len() == before.len() - taken);
            assert(left[0] == before[taken] && left[0].1 == self.subscriptions@[0].1);
            let ghost earlier = streams@;
            let (_, stream) = self.subscriptions.remove(0);
            streams.push(stream);
            assert(streams@ == earlier.push(before[taken].1));
            assert(self.entries() =~= left.remove(0));
            assert(left.remove(0) =~= before.skip(taken + 1));
            assert(streams@ =~= before.take(taken + 1).map_values(|entry: (Feed, S)| entry.1));
        }
        self.cursor = 0;
        assert(self.entries() =~= Seq::<(Feed, S)>::empty());
        assert(before.take(before.len() as int) =~= before);
        streams
    }

    /// Removes the entry at `position` and moves the start of the next round
    /// with it.
    fn take(&mut self, position: usize) -> (r: (BinanceSubscription, S))
        requires
            old(self).wf(),
            position < old(self).entries().len(),
        ensures
            final(self).wf(),
            final(self).endpoint() == old(self).endpoint(),
            final(self).entries() == old(self).entries().remove(position as int),
            final(self).cursor() == cursor_without(
                old(self).cursor(),
                position as int,
                old(self).entries().len() - 1,
            ),
            (r.0@, r.1) == old(self).entries()[position as int],
    {
        let ghost before = self.entries();
        let entry = self.subscriptions.remove(position);
        if position < self.cursor {
            self.cursor = self.cursor - 1;
        }
        if self.cursor >= self.subscriptions.len() {
            self.cursor = 0;
        }
        assert(self.entries() =~= before.remove(position as int));
        entry
    }

    /// The connection of the entry at `position`, to be examined.
    pub fn stream_at(&mut self, position: usize) -> (r: Option<&mut S>)
        requires
            old(self).wf(),
        ensures
            final(self).wf(),
            final(self).endpoint() == old(self).endpoint(),
            final(self).cursor() == old(self).cursor(),
            match r {
                Some(stream) => {
                    &&& position < old(self).entries().len()
                    &&& *stream == old(self).entries()[position as int].1
                    &&& final(self).entries() == old(self).entries().update(
                        position as int,
                        (old(self).entries()[position as int].0, *final(stream)),
                    )
                },
                None => position >= old(self).entries().len() && final(self).entries() == old(
                    self,
                ).entries(),
            },
    {
        if position < self.subscriptions.len() {
            proof {
                let before = self.entries();
                assert forall|after: Seq<(Feed, S)>| same_feeds(before, after) implies #[trigger] distinct(
                    after,
                ) by {
                    assert forall|i: int, j: int| 0 <= i < j < after.len() implies after[i].0
                        != after[j].0 by {
                        assert(before[i].0 != before[j].0);
                    }
                }
            }
            Some(&mut self.subscriptions[position].1)
        } else {
            None
        }
    }

    /// The order in which the connections are to be examined for the next
    /// event: every entry once, starting where the last round left off. With
    /// no feed subscribed to there is nothing to wait for, and this is
    /// reported as a failure.
    pub fn schedule(&self) -> (r: Result<Vec<usize>, BinanceError>)
        requires
            self.wf(),
        ensures
            match r {
                Ok(order) => self.entries().len() > 0 && order@ == rotation(
                    self.entries().len() as int,
                    self.cursor(),
                ),
                Err(error) => self.entries().len() == 0 && error is NoStreamSubscribed,
            },
    {
        let count = self.subscriptions.len();
        if count == 0 {
            return Err(BinanceError::NoStreamSubscribed);
        }
        let ahead = count - self.cursor;
        let mut order: Vec<usize> = Vec::new();
        let mut k: usize = 0;
        while k < count
            invariant
                k <= count,
                count == self.entries().len(),
                self.cursor < count,
                ahead == count - self.cursor,
                order@ == rotation(count as int, self.cursor as int).take(k as int),
            decreases count - k,
        {
            let at = if k < ahead {
                self.cursor + k
            } else {
                k - ahead
            };
            assert(at == (self.cursor + k) % (count as int)) by {
                lemma_wrap(self.cursor as int + k as int, count as int);
            }
            order.push(at);
            assert(order@ =~= rotation(count as int, self.cursor as int).take(k as int + 1));
            k = k + 1;
        }
        assert(order@ =~= rotation(count as int, self.cursor as int));
        Ok(order)
    }

    /// Takes what the connection at `position` reported, and says what the
    /// merged sequence yields for it.
    ///
    /// A frame yields its decoding, by the schema of the feed of that entry,
    /// and the next round starts behind that entry. A connection that was
    /// closed or has failed loses its entry, and that is reported once. A
    /// connection with nothing to report yields nothing, as does a position
    /// that names no entry.
    pub fn poll(&mut self, position: usize, polled: Polled) -> (r: Option<
        Result<BinanceWebsocketMessage, BinanceError>,
    >)
        requires
            old(self).wf(),
        ensures
            final(self).wf(),
            final(self).endpoint() == old(self).endpoint(),
            final(self).entries() == entries_after(old(self).entries(), position as int, polled),
            final(self).cursor() == cursor_after(
                old(self).entries().len() as int,
                old(self).cursor(),
                position as int,
                polled,
            ),
            yielded(old(self).entries(), position as int, polled, r),
    {
        if position >= self.subscriptions.len() {
            return None;
        }
        match polled {
            Polled::Pending => None,
            Polled::Frame(frame) => {
                let item = parse_message(&self.subscriptions[position].0, frame);
                self.cursor = if position + 1 < self.subscriptions.len() {
                    position + 1
                } else {
                    0
                };
                proof {
                    lemma_wrap(position as int + 1, self.subscriptions.len() as int);
                }
                Some(item)
            },
            Polled::Closed => {
                let (subscription, _) = self.take(position);
                let all_closed = self.subscriptions.len() == 0;
                Some(Err(BinanceError::Disconnected(Disconnect { subscription, reason: None, all_closed })))
            },
            Polled::Failed(reason) => {
                let (subscription, _) = self.take(position);
                let all_closed = self.subscriptions.len() == 0;
                Some(
                    Err(
                        BinanceError::Disconnected(
                            Disconnect { subscription, reason: Some(reason), all_closed },
                        ),
                    ),
                )
            },
        }
    }
}

/// The registry after the connection at `position` reported `polled`: without
/// that entry where the connection was closed or has failed, else unchanged.
pub open spec fn entries_after<S>(entries: Seq<(Feed, S)>, position: int, polled: Polled) -> Seq<
    (Feed, S),
> {
    if 0 <= position < entries.len() && (polled is Closed || polled is Failed) {
        entries.remove(position)
    } else {
        entries
    }
}

/// Where the next round starts after the connection at `position`, one of
/// `count`, reported `polled`.
pub open spec fn cursor_after(count: int, cursor: int, position: int, polled: Polled) -> int {
    if 0 <= position < count {
        match polled {
            Polled::Pending => cursor,
            Polled::Frame(_) => (position + 1) % count,
            _ => cursor_without(cursor, position, count - 1),
        }
    } else {
        cursor
    }
}

/// Whether `item` is what the merged sequence yields when the connection at
/// `position` reports `polled`.
pub open spec fn yielded<S>(
    entries: Seq<(Feed, S)>,
    position: int,
    polled: Polled,
    item: Option<Result<BinanceWebsocketMessage, BinanceError>>,
) -> bool {
    if 0 <= position < entries.len() {
        match polled {
            Polled::Pending => item is None,
            Polled::Frame(frame) => item matches Some(outcome) && decoding_of(
                entries[position].0,
                frame,
                outcome,
            ),
            Polled::Closed => {
                &&& item matches Some(Err(BinanceError::Disconnected(signal)))
                &&& signal.subscription@ == entries[position].0
                &&& signal.reason is None
                &&& signal.all_closed == (entries.len() == 1)
            },
            Polled::Failed(reason) => {
                &&& item matches Some(Err(BinanceError::Disconnected(signal)))
                &&& signal.subscription@ == entries[position].0
                &&& signal.reason matches Some(text) && text@ == reason@
                &&& signal.all_closed == (entries.len() == 1)
            },
        }
    } else {
        item is None
    }
}

/// The entry that a feed has in a registry without doubles is the only one.
pub proof fn lemma_position<S>(entries: Seq<(Feed, S)>, feed: Feed, i: int)
    requires
        distinct(entries),
        holds(entries, feed, i),
    ensures
        registered(entries, feed),
        position(entries, feed) == i,
{
    let p = position(entries, feed);
    assert(holds(entries, feed, p));
    if p < i {
        assert(entries[p].0 != entries[i].0);
    } else if i < p {
        assert(entries[i].0 != entries[p].0);
    }
}

/// A number below twice the modulus is reduced by taking the modulus off at
/// most once.
pub proof fn lemma_wrap(x: int, n: int)
    requires
        0 <= x < 2 * n,
    ensures
        x % n == (if x < n {
            x
        } else {
            x - n
        }),
{
    if x < n {
        vstd::arithmetic::div_mod::lemma_small_mod(x as nat, n as nat);
    } else {
        vstd::arithmetic::div_mod::lemma_small_mod((x - n) as nat, n as nat);
        vstd::arithmetic::div_mod::lemma_mod_sub_multiples_vanish(x, n);
    }
}

} // verus!
