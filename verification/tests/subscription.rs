use binance_async::model::websocket::BinanceSubscription;
use std::collections::HashMap;

fn s(text: &str) -> String {
    text.to_string()
}

#[test]
fn each_feed_has_its_path() {
    assert_eq!(BinanceSubscription::AggregateTrade(s("eosbtc")).wire_path(), "eosbtc@aggTrade");
    assert_eq!(BinanceSubscription::Trade(s("adabtc")).wire_path(), "adabtc@trade");
    assert_eq!(BinanceSubscription::Candlestick(s("ethbtc"), s("1m")).wire_path(), "ethbtc@kline_1m");
    assert_eq!(BinanceSubscription::MiniTicker(s("adabtc")).wire_path(), "adabtc@miniTicker");
    assert_eq!(BinanceSubscription::MiniTickerAll.wire_path(), "!miniTicker@arr");
    assert_eq!(BinanceSubscription::Ticker(s("ethbtc")).wire_path(), "ethbtc@ticker");
    assert_eq!(BinanceSubscription::TickerAll.wire_path(), "!ticker@arr");
    assert_eq!(BinanceSubscription::PartialDepth(s("xrpbtc"), 5).wire_path(), "xrpbtc@depth5");
    assert_eq!(BinanceSubscription::PartialDepth(s("xrpbtc"), 20).wire_path(), "xrpbtc@depth20");
    assert_eq!(BinanceSubscription::DiffDepth(s("xrpbtc")).wire_path(), "xrpbtc@depth");
    assert_eq!(BinanceSubscription::OrderBook(s("trxbtc"), 10).wire_path(), "trxbtc@depth10");
    assert_eq!(BinanceSubscription::UserData(s("pqia91ma19a5s61cv6a81va65sdf19v8")).wire_path(), "pqia91ma19a5s61cv6a81va65sdf19v8");
}

#[test]
fn the_symbol_is_written_as_given() {
    assert_eq!(BinanceSubscription::Trade(s("ETHBTC")).wire_path(), "ETHBTC@trade");
    assert_eq!(BinanceSubscription::Trade(s("")).wire_path(), "@trade");
    assert_eq!(BinanceSubscription::OrderBook(s("x"), 0).wire_path(), "x@depth0");
    assert_eq!(
        BinanceSubscription::OrderBook(s("x"), u64::MAX).wire_path(),
        "x@depth18446744073709551615"
    );
}

#[test]
fn feeds_are_equal_by_variant_and_parameters() {
    assert_eq!(BinanceSubscription::Trade(s("a")), BinanceSubscription::Trade(s("a")));
    assert_ne!(BinanceSubscription::Trade(s("a")), BinanceSubscription::Trade(s("b")));
    assert_ne!(BinanceSubscription::Trade(s("a")), BinanceSubscription::AggregateTrade(s("a")));
    assert_ne!(BinanceSubscription::Trade(s("a")), BinanceSubscription::Ticker(s("a")));
    assert_eq!(
        BinanceSubscription::Candlestick(s("a"), s("1m")),
        BinanceSubscription::Candlestick(s("a"), s("1m"))
    );
    assert_ne!(
        BinanceSubscription::Candlestick(s("a"), s("1m")),
        BinanceSubscription::Candlestick(s("a"), s("5m"))
    );
    assert_ne!(
        BinanceSubscription::Candlestick(s("a"), s("1m")),
        BinanceSubscription::Candlestick(s("b"), s("1m"))
    );
    assert_eq!(BinanceSubscription::PartialDepth(s("a"), 5), BinanceSubscription::PartialDepth(s("a"), 5));
    assert_ne!(BinanceSubscription::PartialDepth(s("a"), 5), BinanceSubscription::PartialDepth(s("a"), 10));
    assert_ne!(BinanceSubscription::PartialDepth(s("a"), 5), BinanceSubscription::OrderBook(s("a"), 5));
    assert_eq!(BinanceSubscription::OrderBook(s("a"), 5), BinanceSubscription::OrderBook(s("a"), 5));
    assert_ne!(BinanceSubscription::OrderBook(s("a"), 5), BinanceSubscription::OrderBook(s("b"), 5));
    assert_eq!(BinanceSubscription::MiniTickerAll, BinanceSubscription::MiniTickerAll);
    assert_eq!(BinanceSubscription::TickerAll, BinanceSubscription::TickerAll);
    assert_ne!(BinanceSubscription::MiniTickerAll, BinanceSubscription::TickerAll);
    assert_eq!(BinanceSubscription::MiniTicker(s("a")), BinanceSubscription::MiniTicker(s("a")));
    assert_eq!(BinanceSubscription::DiffDepth(s("a")), BinanceSubscription::DiffDepth(s("a")));
    assert_ne!(BinanceSubscription::DiffDepth(s("a")), BinanceSubscription::MiniTicker(s("a")));
    assert_eq!(BinanceSubscription::UserData(s("k")), BinanceSubscription::UserData(s("k")));
    assert_ne!(BinanceSubscription::UserData(s("k")), BinanceSubscription::UserData(s("l")));
    assert_eq!(BinanceSubscription::AggregateTrade(s("a")), BinanceSubscription::AggregateTrade(s("a")));
    assert_eq!(BinanceSubscription::Ticker(s("a")), BinanceSubscription::Ticker(s("a")));
}

#[test]
fn a_copy_of_a_feed_is_equal_to_it() {
    let feeds = vec![
        BinanceSubscription::AggregateTrade(s("a")),
        BinanceSubscription::Trade(s("a")),
        BinanceSubscription::Candlestick(s("a"), s("1m")),
        BinanceSubscription::MiniTicker(s("a")),
        BinanceSubscription::MiniTickerAll,
        BinanceSubscription::Ticker(s("a")),
        BinanceSubscription::TickerAll,
        BinanceSubscription::PartialDepth(s("a"), 5),
        BinanceSubscription::DiffDepth(s("a")),
        BinanceSubscription::OrderBook(s("a"), 5),
        BinanceSubscription::UserData(s("k")),
    ];
    for (i, feed) in feeds.iter().enumerate() {
        assert_eq!(&feed.clone(), feed);
        for (j, other) in feeds.iter().enumerate() {
            assert_eq!(feed == other, i == j);
        }
    }
}

#[test]
fn equal_feeds_fall_on_the_same_key_of_a_hash_map() {
    let mut map = HashMap::new();
    map.insert(BinanceSubscription::Trade(s("a")), 1);
    map.insert(BinanceSubscription::Trade(s("a")), 2);
    map.insert(BinanceSubscription::Trade(s("b")), 3);
    assert_eq!(map.len(), 2);
    assert_eq!(map[&BinanceSubscription::Trade(s("a"))], 2);
}
