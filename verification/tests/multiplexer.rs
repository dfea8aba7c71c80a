use binance_async::client::websocket::{BinanceWebsocket, Frame, Polled, INVALID_ADDRESS, WS_URL};
use binance_async::client::Binance;
use binance_async::error::BinanceError;
use binance_async::model::websocket::{BinanceSubscription, BinanceWebsocketMessage};

const TRADE: &str = r#"{"e":"trade","E":123456789,"s":"ETHBTC","t":12345,"p":"0.001","q":"100","b":88,"a":50,"T":123456785,"m":true,"M":false}"#;
const KLINE: &str = r#"{"e":"kline","E":123456789,"s":"ETHBTC","k":{"t":123400000,"T":123460000,"s":"ETHBTC","i":"1m","f":100,"L":200,"o":"0.0010","c":"0.0020","h":"0.0025","l":"0.0015","v":"1000","n":100,"x":false,"q":"1.0000","V":"500","Q":"0.500","B":"123456"}}"#;

fn s(text: &str) -> String {
    text.to_string()
}

fn trade_feed() -> BinanceSubscription {
    BinanceSubscription::Trade(s("ETHBTC"))
}

fn candle_feed() -> BinanceSubscription {
    BinanceSubscription::Candlestick(s("ETHBTC"), s("1m"))
}

fn frame(payload: &str) -> Polled {
    Polled::Frame(Frame::Text(payload.to_string()))
}

fn trade_numbered(id: u64) -> String {
    TRADE.replace("\"t\":12345", &format!("\"t\":{}", id))
}

fn trade_id(item: Option<Result<BinanceWebsocketMessage, BinanceError>>) -> u64 {
    match item {
        Some(Ok(BinanceWebsocketMessage::Trade(e))) => e.trade_id,
        other => panic!("{:?}", other),
    }
}

#[test]
fn pulling_without_subscriptions_is_reported() {
    let ws: BinanceWebsocket<u32> = BinanceWebsocket::new(WS_URL);
    assert!(ws.is_empty());
    assert_eq!(ws.len(), 0);
    assert!(matches!(ws.schedule(), Err(BinanceError::NoStreamSubscribed)));
}

#[test]
fn the_client_hands_out_an_empty_multiplexer() {
    let ws: BinanceWebsocket<u32> = Binance::new().websocket();
    assert!(ws.is_empty());
    assert!(matches!(ws.schedule(), Err(BinanceError::NoStreamSubscribed)));
    assert_eq!(
        ws.address(&trade_feed()).unwrap(),
        "wss://stream.binance.com:9443/ws/ETHBTC@trade"
    );
    let other: BinanceWebsocket<u32> = Binance::with_stream_endpoint("ws://localhost:8080/feeds").websocket();
    assert_eq!(other.address(&trade_feed()).unwrap(), "ws://localhost:8080/feeds/ETHBTC@trade");
}

#[test]
fn the_address_is_endpoint_slash_path_as_a_url() {
    let ws: BinanceWebsocket<u32> = BinanceWebsocket::new(WS_URL);
    assert_eq!(
        ws.address(&candle_feed()).unwrap(),
        "wss://stream.binance.com:9443/ws/ETHBTC@kline_1m"
    );
    assert_eq!(
        ws.address(&BinanceSubscription::TickerAll).unwrap(),
        "wss://stream.binance.com:9443/ws/!ticker@arr"
    );
    assert_eq!(
        ws.address(&BinanceSubscription::PartialDepth(s("xrpbtc"), 5)).unwrap(),
        "wss://stream.binance.com:9443/ws/xrpbtc@depth5"
    );
    // The URL is written out as the `url` crate writes it: scheme and host in
    // lower case, the port left out where it is the scheme's own.
    let shouting: BinanceWebsocket<u32> = BinanceWebsocket::new("WSS://Stream.Binance.COM:443/ws");
    assert_eq!(shouting.address(&trade_feed()).unwrap(), "wss://stream.binance.com/ws/ETHBTC@trade");
}

#[test]
fn an_endpoint_that_is_no_url_is_a_connection_failure() {
    let ws: BinanceWebsocket<u32> = BinanceWebsocket::new("not a url");
    match ws.address(&trade_feed()) {
        Err(BinanceError::Connection(e)) => {
            assert_eq!(e.subscription, trade_feed());
            assert_eq!(e.reason, INVALID_ADDRESS);
        }
        other => panic!("{:?}", other),
    }
    let empty: BinanceWebsocket<u32> = BinanceWebsocket::new("");
    assert!(matches!(empty.address(&trade_feed()), Err(BinanceError::Connection(_))));
}

#[test]
fn subscribing_registers_the_connection() {
    let mut ws: BinanceWebsocket<u32> = BinanceWebsocket::new(WS_URL);
    assert!(matches!(ws.subscribe(trade_feed(), Ok(1)), Ok(None)));
    assert_eq!(ws.len(), 1);
    assert!(ws.is_subscribed(&trade_feed()));
    assert!(!ws.is_subscribed(&candle_feed()));
    assert!(matches!(ws.subscribe(candle_feed(), Ok(2)), Ok(None)));
    assert_eq!(ws.len(), 2);
    assert_eq!(ws.find(&trade_feed()), Some(0));
    assert_eq!(ws.find(&candle_feed()), Some(1));
    assert_eq!(ws.find(&BinanceSubscription::TickerAll), None);
    assert_eq!(ws.subscription_at(0), Some(&trade_feed()));
    assert_eq!(ws.subscription_at(1), Some(&candle_feed()));
    assert_eq!(ws.subscription_at(2), None);
    assert_eq!(ws.stream_at(0), Some(&mut 1));
    assert_eq!(ws.stream_at(1), Some(&mut 2));
    assert_eq!(ws.stream_at(2), None);
}

#[test]
fn a_failure_to_open_leaves_the_registry_as_it_was() {
    let mut ws: BinanceWebsocket<u32> = BinanceWebsocket::new(WS_URL);
    ws.subscribe(trade_feed(), Ok(1)).unwrap();
    match ws.subscribe(candle_feed(), Err(s("handshake refused"))) {
        Err(BinanceError::Connection(e)) => {
            assert_eq!(e.subscription, candle_feed());
            assert_eq!(e.reason, "handshake refused");
        }
        other => panic!("{:?}", other),
    }
    assert_eq!(ws.len(), 1);
    assert!(!ws.is_subscribed(&candle_feed()));
    // Nor does a failure to open anew cost a feed the connection that it has.
    assert!(matches!(ws.subscribe(trade_feed(), Err(s("timeout"))), Err(BinanceError::Connection(_))));
    assert_eq!(ws.len(), 1);
    assert_eq!(ws.stream_at(0), Some(&mut 1));
}

#[test]
fn subscribing_again_hands_back_the_old_connection_once() {
    let mut ws: BinanceWebsocket<u32> = BinanceWebsocket::new(WS_URL);
    ws.subscribe(trade_feed(), Ok(1)).unwrap();
    ws.subscribe(candle_feed(), Ok(2)).unwrap();
    assert!(matches!(ws.subscribe(trade_feed(), Ok(3)), Ok(Some(1))));
    assert_eq!(ws.len(), 2);
    assert_eq!(ws.find(&trade_feed()), Some(0));
    assert_eq!(ws.stream_at(0), Some(&mut 3));
    assert_eq!(ws.stream_at(1), Some(&mut 2));
    // The connection handed back next is the new one, not the old one again.
    assert!(matches!(ws.subscribe(trade_feed(), Ok(4)), Ok(Some(3))));
    assert_eq!(ws.close(), vec![4, 2]);
}

#[test]
fn unsubscribing_hands_back_the_connection() {
    let mut ws: BinanceWebsocket<u32> = BinanceWebsocket::new(WS_URL);
    ws.subscribe(trade_feed(), Ok(1)).unwrap();
    ws.subscribe(candle_feed(), Ok(2)).unwrap();
    assert_eq!(ws.unsubscribe(&trade_feed()), Some(1));
    assert_eq!(ws.len(), 1);
    assert!(!ws.is_subscribed(&trade_feed()));
    assert!(ws.is_subscribed(&candle_feed()));
    assert_eq!(ws.stream_at(0), Some(&mut 2));
    assert_eq!(ws.unsubscribe(&trade_feed()), None);
    assert_eq!(ws.unsubscribe(&candle_feed()), Some(2));
    assert!(ws.is_empty());
    assert!(matches!(ws.schedule(), Err(BinanceError::NoStreamSubscribed)));
}

#[test]
fn unsubscribing_from_a_feed_not_subscribed_to_changes_nothing() {
    let mut ws: BinanceWebsocket<u32> = BinanceWebsocket::new(WS_URL);
    assert_eq!(ws.unsubscribe(&trade_feed()), None);
    ws.subscribe(trade_feed(), Ok(1)).unwrap();
    ws.subscribe(candle_feed(), Ok(2)).unwrap();
    ws.poll(0, frame(TRADE));
    let before = ws.schedule().unwrap();
    assert_eq!(ws.unsubscribe(&BinanceSubscription::TickerAll), None);
    assert_eq!(ws.unsubscribe(&BinanceSubscription::Trade(s("ethbtc"))), None);
    assert_eq!(ws.len(), 2);
    assert_eq!(ws.find(&trade_feed()), Some(0));
    assert_eq!(ws.find(&candle_feed()), Some(1));
    assert_eq!(ws.schedule().unwrap(), before);
    assert_eq!(ws.close(), vec![1, 2]);
}

#[test]
fn a_round_starts_behind_the_entry_that_was_served() {
    let mut ws: BinanceWebsocket<u32> = BinanceWebsocket::new(WS_URL);
    ws.subscribe(trade_feed(), Ok(1)).unwrap();
    ws.subscribe(candle_feed(), Ok(2)).unwrap();
    ws.subscribe(BinanceSubscription::TickerAll, Ok(3)).unwrap();
    assert_eq!(ws.schedule().unwrap(), vec![0, 1, 2]);
    assert!(ws.poll(0, frame(TRADE)).is_some());
    assert_eq!(ws.schedule().unwrap(), vec![1, 2, 0]);
    assert!(ws.poll(1, frame(KLINE)).is_some());
    assert_eq!(ws.schedule().unwrap(), vec![2, 0, 1]);
    assert!(ws.poll(2, frame("[]")).is_some());
    assert_eq!(ws.schedule().unwrap(), vec![0, 1, 2]);
    // A connection with nothing to report does not move the start.
    assert!(ws.poll(0, Polled::Pending).is_none());
    assert_eq!(ws.schedule().unwrap(), vec![0, 1, 2]);
    // Served out of turn, an entry still goes last.
    assert!(ws.poll(1, frame(KLINE)).is_some());
    assert_eq!(ws.schedule().unwrap(), vec![2, 0, 1]);
}

#[test]
fn a_feed_that_always_has_data_does_not_starve_the_others() {
    let mut ws: BinanceWebsocket<u32> = BinanceWebsocket::new(WS_URL);
    ws.subscribe(trade_feed(), Ok(1)).unwrap();
    ws.subscribe(candle_feed(), Ok(2)).unwrap();
    let mut served = vec![];
    for _ in 0..6 {
        // Both connections are ready in every round: the first of the round
        // is the one served.
        let first = ws.schedule().unwrap()[0];
        let payload = if first == 0 { TRADE } else { KLINE };
        assert!(matches!(ws.poll(first, frame(payload)), Some(Ok(_))));
        served.push(first);
    }
    assert_eq!(served, vec![0, 1, 0, 1, 0, 1]);
}

#[test]
fn two_feeds_yield_what_each_would_yield_alone() {
    let other_feed = BinanceSubscription::Trade(s("BNBBTC"));
    // What arrives, in order: the feed and the number of the trade.
    let arrivals: Vec<(usize, u64)> = vec![(0, 1), (1, 100), (1, 101), (0, 2), (1, 102), (0, 3), (0, 4)];

    let mut both: BinanceWebsocket<u32> = BinanceWebsocket::new(WS_URL);
    both.subscribe(trade_feed(), Ok(1)).unwrap();
    both.subscribe(other_feed.clone(), Ok(2)).unwrap();
    let mut merged = vec![];
    for (feed, id) in &arrivals {
        merged.push((*feed, trade_id(both.poll(*feed, frame(&trade_numbered(*id))))));
    }

    let mut first: BinanceWebsocket<u32> = BinanceWebsocket::new(WS_URL);
    first.subscribe(trade_feed(), Ok(1)).unwrap();
    let mut alone_first = vec![];
    for (_, id) in arrivals.iter().filter(|(feed, _)| *feed == 0) {
        alone_first.push(trade_id(first.poll(0, frame(&trade_numbered(*id)))));
    }

    let mut second: BinanceWebsocket<u32> = BinanceWebsocket::new(WS_URL);
    second.subscribe(other_feed, Ok(2)).unwrap();
    let mut alone_second = vec![];
    for (_, id) in arrivals.iter().filter(|(feed, _)| *feed == 1) {
        alone_second.push(trade_id(second.poll(0, frame(&trade_numbered(*id)))));
    }

    assert_eq!(merged.len(), alone_first.len() + alone_second.len());
    let of_first: Vec<u64> = merged.iter().filter(|(feed, _)| *feed == 0).map(|(_, id)| *id).collect();
    let of_second: Vec<u64> = merged.iter().filter(|(feed, _)| *feed == 1).map(|(_, id)| *id).collect();
    assert_eq!(of_first, alone_first);
    assert_eq!(of_second, alone_second);
    assert_eq!(alone_first, vec![1, 2, 3, 4]);
    assert_eq!(alone_second, vec![100, 101, 102]);
}

#[test]
fn a_decode_failure_does_not_cost_the_subscription() {
    let mut ws: BinanceWebsocket<u32> = BinanceWebsocket::new(WS_URL);
    ws.subscribe(trade_feed(), Ok(1)).unwrap();
    match ws.poll(0, frame("{\"e\":\"trade\"}")) {
        Some(Err(BinanceError::Decode(e))) => assert_eq!(e.payload, "{\"e\":\"trade\"}"),
        other => panic!("{:?}", other),
    }
    assert!(ws.is_subscribed(&trade_feed()));
    assert_eq!(ws.len(), 1);
    assert_eq!(trade_id(ws.poll(0, frame(TRADE))), 12345);
    assert!(ws.is_subscribed(&trade_feed()));
}

#[test]
fn a_good_trade_and_a_bad_candle() {
    let mut ws: BinanceWebsocket<u32> = BinanceWebsocket::new(WS_URL);
    ws.subscribe(trade_feed(), Ok(1)).unwrap();
    ws.subscribe(candle_feed(), Ok(2)).unwrap();
    let malformed = KLINE.replace("\"k\":{", "\"k\":[").replace("}}", "]}");
    let mut trades = 0;
    let mut failures = 0;
    for position in ws.schedule().unwrap() {
        let payload = if position == 0 { TRADE.to_string() } else { malformed.clone() };
        match ws.poll(position, Polled::Frame(Frame::Text(payload))) {
            Some(Ok(BinanceWebsocketMessage::Trade(e))) => {
                assert_eq!(e.symbol, "ETHBTC");
                trades += 1;
            }
            Some(Err(BinanceError::Decode(e))) => {
                assert_eq!(e.payload, malformed);
                failures += 1;
            }
            other => panic!("{:?}", other),
        }
    }
    assert_eq!(trades, 1);
    assert_eq!(failures, 1);
    assert!(ws.is_subscribed(&candle_feed()));
    assert!(ws.is_subscribed(&trade_feed()));
    assert_eq!(ws.len(), 2);
    assert!(matches!(ws.poll(1, frame(KLINE)), Some(Ok(BinanceWebsocketMessage::Candlestick(_)))));
}

#[test]
fn a_closed_connection_is_reported_once_and_its_feed_removed() {
    let mut ws: BinanceWebsocket<u32> = BinanceWebsocket::new(WS_URL);
    ws.subscribe(BinanceSubscription::TickerAll, Ok(1)).unwrap();
    let order = ws.schedule().unwrap();
    assert_eq!(order, vec![0]);
    match ws.poll(0, Polled::Closed) {
        Some(Err(BinanceError::Disconnected(signal))) => {
            assert_eq!(signal.subscription, BinanceSubscription::TickerAll);
            assert_eq!(signal.reason, None);
            assert!(signal.all_closed);
        }
        other => panic!("{:?}", other),
    }
    assert!(!ws.is_subscribed(&BinanceSubscription::TickerAll));
    assert!(ws.is_empty());
    assert!(matches!(ws.schedule(), Err(BinanceError::NoStreamSubscribed)));
    // Nothing is left to report it a second time.
    assert!(ws.poll(0, Polled::Closed).is_none());
    assert!(matches!(ws.schedule(), Err(BinanceError::NoStreamSubscribed)));
}

#[test]
fn a_failed_connection_takes_only_its_own_feed() {
    let mut ws: BinanceWebsocket<u32> = BinanceWebsocket::new(WS_URL);
    ws.subscribe(trade_feed(), Ok(1)).unwrap();
    ws.subscribe(candle_feed(), Ok(2)).unwrap();
    ws.subscribe(BinanceSubscription::TickerAll, Ok(3)).unwrap();
    match ws.poll(1, Polled::Failed(s("connection reset"))) {
        Some(Err(BinanceError::Disconnected(signal))) => {
            assert_eq!(signal.subscription, candle_feed());
            assert_eq!(signal.reason, Some(s("connection reset")));
            assert!(!signal.all_closed);
        }
        other => panic!("{:?}", other),
    }
    assert_eq!(ws.len(), 2);
    assert!(ws.is_subscribed(&trade_feed()));
    assert!(!ws.is_subscribed(&candle_feed()));
    assert!(ws.is_subscribed(&BinanceSubscription::TickerAll));
    assert_eq!(ws.find(&BinanceSubscription::TickerAll), Some(1));
    assert_eq!(trade_id(ws.poll(0, frame(TRADE))), 12345);
    assert!(matches!(ws.poll(1, frame("[]")), Some(Ok(BinanceWebsocketMessage::TickerAll(_)))));
    assert_eq!(ws.close(), vec![1, 3]);
}

#[test]
fn the_start_of_the_round_follows_the_entries_when_one_goes() {
    let mut ws: BinanceWebsocket<u32> = BinanceWebsocket::new(WS_URL);
    ws.subscribe(trade_feed(), Ok(1)).unwrap();
    ws.subscribe(candle_feed(), Ok(2)).unwrap();
    ws.subscribe(BinanceSubscription::TickerAll, Ok(3)).unwrap();
    ws.poll(1, frame(KLINE));
    assert_eq!(ws.schedule().unwrap(), vec![2, 0, 1]);
    // The round was to start at the all-symbols ticker; it still does once
    // the trade feed before it has gone.
    assert_eq!(ws.unsubscribe(&trade_feed()), Some(1));
    assert_eq!(ws.subscription_at(1), Some(&BinanceSubscription::TickerAll));
    assert_eq!(ws.schedule().unwrap(), vec![1, 0]);
    // Where the entry at the start goes and it was the last, the round
    // starts at the first.
    assert!(matches!(ws.poll(1, Polled::Closed), Some(Err(BinanceError::Disconnected(_)))));
    assert_eq!(ws.schedule().unwrap(), vec![0]);
    assert_eq!(ws.subscription_at(0), Some(&candle_feed()));
}

#[test]
fn a_position_that_names_no_entry_yields_nothing() {
    let mut ws: BinanceWebsocket<u32> = BinanceWebsocket::new(WS_URL);
    assert!(ws.poll(0, frame(TRADE)).is_none());
    ws.subscribe(trade_feed(), Ok(1)).unwrap();
    assert!(ws.poll(1, frame(TRADE)).is_none());
    assert!(ws.poll(usize::MAX, Polled::Closed).is_none());
    assert_eq!(ws.len(), 1);
    assert_eq!(ws.schedule().unwrap(), vec![0]);
}

#[test]
fn control_and_binary_frames_pass_through_the_multiplexer() {
    let mut ws: BinanceWebsocket<u32> = BinanceWebsocket::new(WS_URL);
    ws.subscribe(trade_feed(), Ok(1)).unwrap();
    assert!(matches!(ws.poll(0, Polled::Frame(Frame::Ping(vec![]))), Some(Ok(BinanceWebsocketMessage::Ping))));
    assert!(matches!(ws.poll(0, Polled::Frame(Frame::Pong(vec![]))), Some(Ok(BinanceWebsocketMessage::Pong))));
    match ws.poll(0, Polled::Frame(Frame::Binary(vec![1, 2, 3]))) {
        Some(Ok(BinanceWebsocketMessage::Binary(bytes))) => assert_eq!(bytes, vec![1, 2, 3]),
        other => panic!("{:?}", other),
    }
    assert_eq!(ws.len(), 1);
}

#[test]
fn a_connection_can_be_changed_in_place() {
    let mut ws: BinanceWebsocket<Vec<u8>> = BinanceWebsocket::new(WS_URL);
    ws.subscribe(trade_feed(), Ok(vec![])).unwrap();
    ws.stream_at(0).unwrap().push(7);
    ws.stream_at(0).unwrap().push(8);
    assert_eq!(ws.unsubscribe(&trade_feed()), Some(vec![7, 8]));
}

#[test]
fn closing_hands_back_every_connection() {
    let mut ws: BinanceWebsocket<u32> = BinanceWebsocket::new(WS_URL);
    assert_eq!(ws.close(), Vec::<u32>::new());
    ws.subscribe(trade_feed(), Ok(1)).unwrap();
    ws.subscribe(candle_feed(), Ok(2)).unwrap();
    ws.subscribe(BinanceSubscription::TickerAll, Ok(3)).unwrap();
    ws.poll(1, frame(KLINE));
    assert_eq!(ws.close(), vec![1, 2, 3]);
    assert!(ws.is_empty());
    assert!(matches!(ws.schedule(), Err(BinanceError::NoStreamSubscribed)));
    assert!(matches!(ws.subscribe(trade_feed(), Ok(9)), Ok(None)));
    assert_eq!(ws.schedule().unwrap(), vec![0]);
}
