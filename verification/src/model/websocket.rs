//! The feeds that can be subscribed to, and the events that they carry.
//!
//! An event is written as a JSON object whose members the exchange names by
//! single letters. Each event type says, member by member, which document
//! describes it, and is read from a document accordingly. Members that an
//! event does not name are passed over.

use crate::decimal::Decimal;
use crate::json::{each_decoded_from, list_from_json, text_view, FromJson, Json, JsonView};
use crate::model::{AskMsg, BidMsg, OrderBookMsg};
use crate::text::{decimal_digits, same_text, u64_to_text};
use vstd::prelude::*;
use vstd::std_specs::cmp::PartialEqSpecImpl;
use vstd::string::*;

pub use crate::model::{
    OrderExecType, OrderRejectReason, OrderSide, OrderStatus, OrderTimeInForce, OrderType,
};

verus! {

/// One feed of the exchange, with what is needed to address it.
#[derive(Debug, Hash)]
pub enum BinanceSubscription {
    AggregateTrade(String),
    Trade(String),
    /// Symbol and interval.
    Candlestick(String, String),
    MiniTicker(String),
    MiniTickerAll,
    Ticker(String),
    TickerAll,
    /// Symbol and number of levels.
    PartialDepth(String, u64),
    DiffDepth(String),
    /// Symbol and depth.
    OrderBook(String, u64),
    /// The listen key of a user's session.
    UserData(String),
}

/// A feed as a mathematical value: the variant and its parameters.
pub enum Feed {
    AggregateTrade(Seq<char>),
    Trade(Seq<char>),
    Candlestick(Seq<char>, Seq<char>),
    MiniTicker(Seq<char>),
    MiniTickerAll,
    Ticker(Seq<char>),
    TickerAll,
    PartialDepth(Seq<char>, u64),
    DiffDepth(Seq<char>),
    OrderBook(Seq<char>, u64),
    UserData(Seq<char>),
}

impl Feed {
    /// The path under which the exchange serves this feed.
    pub open spec fn path(self) -> Seq<char> {
        match self {
            Feed::AggregateTrade(symbol) => symbol + "@aggTrade"@,
            Feed::Trade(symbol) => symbol + "@trade"@,
            Feed::Candlestick(symbol, interval) => symbol + "@kline_"@ + interval,
            Feed::MiniTicker(symbol) => symbol + "@miniTicker"@,
            Feed::MiniTickerAll => "!miniTicker@arr"@,
            Feed::Ticker(symbol) => symbol + "@ticker"@,
            Feed::TickerAll => "!ticker@arr"@,
            Feed::PartialDepth(symbol, levels) => symbol + "@depth"@ + decimal_digits(levels as nat),
            Feed::DiffDepth(symbol) => symbol + "@depth"@,
            Feed::OrderBook(symbol, depth) => symbol + "@depth"@ + decimal_digits(depth as nat),
            Feed::UserData(listen_key) => listen_key,
        }
    }
}

impl View for BinanceSubscription {
    type V = Feed;

    open spec fn view(&self) -> Feed {
        match self {
            BinanceSubscription::AggregateTrade(symbol) => Feed::AggregateTrade(symbol@),
            BinanceSubscription::Trade(symbol) => Feed::Trade(symbol@),
            BinanceSubscription::Candlestick(symbol, interval) => Feed::Candlestick(symbol@, interval@),
            BinanceSubscription::MiniTicker(symbol) => Feed::MiniTicker(symbol@),
            BinanceSubscription::MiniTickerAll => Feed::MiniTickerAll,
            BinanceSubscription::Ticker(symbol) => Feed::Ticker(symbol@),
            BinanceSubscription::TickerAll => Feed::TickerAll,
            BinanceSubscription::PartialDepth(symbol, levels) => Feed::PartialDepth(symbol@, *levels),
            BinanceSubscription::DiffDepth(symbol) => Feed::DiffDepth(symbol@),
            BinanceSubscription::OrderBook(symbol, depth) => Feed::OrderBook(symbol@, *depth),
            BinanceSubscription::UserData(listen_key) => Feed::UserData(listen_key@),
        }
    }
}

/// `text` followed by `suffix`.
fn with_suffix(text: &String, suffix: &str) -> (r: String)
    ensures
        r@ == text@ + suffix@,
{
    let mut r = text.clone();
    r.append(suffix);
    r
}

impl BinanceSubscription {
    /// The path under which the exchange serves this feed.
    pub fn wire_path(&self) -> (r: String)
        ensures
            r@ == self@.path(),
    {
        match self {
            BinanceSubscription::AggregateTrade(symbol) => with_suffix(symbol, "@aggTrade"),
            BinanceSubscription::Trade(symbol) => with_suffix(symbol, "@trade"),
            BinanceSubscription::Candlestick(symbol, interval) => {
                let mut r = with_suffix(symbol, "@kline_");
                r.append(interval.as_str());
                r
            },
            BinanceSubscription::MiniTicker(symbol) => with_suffix(symbol, "@miniTicker"),
            BinanceSubscription::MiniTickerAll => String::from_str("!miniTicker@arr"),
            BinanceSubscription::Ticker(symbol) => with_suffix(symbol, "@ticker"),
            BinanceSubscription::TickerAll => String::from_str("!ticker@arr"),
            BinanceSubscription::PartialDepth(symbol, levels) => {
                let mut r = with_suffix(symbol, "@depth");
                r.append(u64_to_text(*levels).as_str());
                r
            },
            BinanceSubscription::DiffDepth(symbol) => with_suffix(symbol, "@depth"),
            BinanceSubscription::OrderBook(symbol, depth) => {
                let mut r = with_suffix(symbol, "@depth");
                r.append(u64_to_text(*depth).as_str());
                r
            },
            BinanceSubscription::UserData(listen_key) => listen_key.clone(),
        }
    }
}

impl Clone for BinanceSubscription {
    fn clone(&self) -> (r: Self)
        ensures
            r@ == self@,
    {
        match self {
            BinanceSubscription::AggregateTrade(symbol) => BinanceSubscription::AggregateTrade(symbol.clone()),
            BinanceSubscription::Trade(symbol) => BinanceSubscription::Trade(symbol.clone()),
            BinanceSubscription::Candlestick(symbol, interval) => BinanceSubscription::Candlestick(
                symbol.clone(),
                interval.clone(),
            ),
            BinanceSubscription::MiniTicker(symbol) => BinanceSubscription::MiniTicker(symbol.clone()),
            BinanceSubscription::MiniTickerAll => BinanceSubscription::MiniTickerAll,
            BinanceSubscription::Ticker(symbol) => BinanceSubscription::Ticker(symbol.clone()),
            BinanceSubscription::TickerAll => BinanceSubscription::TickerAll,
            BinanceSubscription::PartialDepth(symbol, levels) => BinanceSubscription::PartialDepth(
                symbol.clone(),
                *levels,
            ),
            BinanceSubscription::DiffDepth(symbol) => BinanceSubscription::DiffDepth(symbol.clone()),
            BinanceSubscription::OrderBook(symbol, depth) => BinanceSubscription::OrderBook(
                symbol.clone(),
                *depth,
            ),
            BinanceSubscription::UserData(listen_key) => BinanceSubscription::UserData(listen_key.clone()),
        }
    }
}

/// Two descriptors are equal where they have the same variant and the same
/// parameters.
impl PartialEq for BinanceSubscription {
    fn eq(&self, other: &Self) -> (r: bool) {
        match (self, other) {
            (BinanceSubscription::AggregateTrade(a), BinanceSubscription::AggregateTrade(b)) => same_text(a, b),
            (BinanceSubscription::Trade(a), BinanceSubscription::Trade(b)) => same_text(a, b),
            (BinanceSubscription::Candlestick(a, i), BinanceSubscription::Candlestick(b, j)) => same_text(a, b)
                && same_text(i, j),
            (BinanceSubscription::MiniTicker(a), BinanceSubscription::MiniTicker(b)) => same_text(a, b),
            (BinanceSubscription::MiniTickerAll, BinanceSubscription::MiniTickerAll) => true,
            (BinanceSubscription::Ticker(a), BinanceSubscription::Ticker(b)) => same_text(a, b),
            (BinanceSubscription::TickerAll, BinanceSubscription::TickerAll) => true,
            (BinanceSubscription::PartialDepth(a, m), BinanceSubscription::PartialDepth(b, n)) => same_text(a, b)
                && *m == *n,
            (BinanceSubscription::DiffDepth(a), BinanceSubscription::DiffDepth(b)) => same_text(a, b),
            (BinanceSubscription::OrderBook(a, m), BinanceSubscription::OrderBook(b, n)) => same_text(a, b)
                && *m == *n,
            (BinanceSubscription::UserData(a), BinanceSubscription::UserData(b)) => same_text(a, b),
            _ => false,
        }
    }
}

impl PartialEqSpecImpl for BinanceSubscription {
    open spec fn obeys_eq_spec() -> bool {
        true
    }

    open spec fn eq_spec(&self, other: &Self) -> bool {
        self@ == other@
    }
}

impl Eq for BinanceSubscription {

}

/// What arrives on a feed.
#[derive(Debug, Clone)]
pub enum BinanceWebsocketMessage {
    AggregateTrade(AggregateTrade),
    Trade(Trade),
    Candlestick(CandlestickMessage),
    MiniTicker(MiniTicker),
    MiniTickerAll(Vec<MiniTicker>),
    Ticker(Ticker),
    TickerAll(Vec<Ticker>),
    OrderBook(OrderBookMsg),
    PartialDepth(PartialDepth),
    DiffDepth(DiffDepth),
    Ping,
    Pong,
    AccountUpdate(AccountUpdate),
    OrderUpdate(OrderUpdate),
    /// A binary frame, which no feed is expected to send, as it came.
    Binary(Vec<u8>),
}

impl BinanceWebsocketMessage {
    /// Whether this is the event that the document `j` describes when it
    /// arrives on `feed`. On a user's feed an update of the account is looked
    /// for first, and an update of an order only where the document
    /// describes no update of the account.
    pub open spec fn carried_by(self, feed: Feed, j: JsonView) -> bool {
        match feed {
            Feed::AggregateTrade(_) => self matches BinanceWebsocketMessage::AggregateTrade(event)
                && event.decoded_from(j),
            Feed::Trade(_) => self matches BinanceWebsocketMessage::Trade(event) && event.decoded_from(j),
            Feed::Candlestick(_, _) => self matches BinanceWebsocketMessage::Candlestick(event)
                && event.decoded_from(j),
            Feed::MiniTicker(_) => self matches BinanceWebsocketMessage::MiniTicker(event)
                && event.decoded_from(j),
            Feed::MiniTickerAll => self matches BinanceWebsocketMessage::MiniTickerAll(events)
                && j.items() matches Some(items) && each_decoded_from(events@, items),
            Feed::Ticker(_) => self matches BinanceWebsocketMessage::Ticker(event) && event.decoded_from(j),
            Feed::TickerAll => self matches BinanceWebsocketMessage::TickerAll(events)
                && j.items() matches Some(items) && each_decoded_from(events@, items),
            Feed::PartialDepth(_, _) => self matches BinanceWebsocketMessage::PartialDepth(event)
                && event.decoded_from(j),
            Feed::DiffDepth(_) => self matches BinanceWebsocketMessage::DiffDepth(event)
                && event.decoded_from(j),
            Feed::OrderBook(_, _) => self matches BinanceWebsocketMessage::OrderBook(event)
                && event.decoded_from(j),
            Feed::UserData(_) => {
                ||| self matches BinanceWebsocketMessage::AccountUpdate(event) && event.decoded_from(j)
                ||| self matches BinanceWebsocketMessage::OrderUpdate(event) && event.decoded_from(j)
                    && forall|account: AccountUpdate| !account.decoded_from(j)
            },
        }
    }

    /// Reads the event that a document describes, by the schema of the feed
    /// on which it arrived.
    pub fn from_json(subscription: &BinanceSubscription, j: &Json) -> (r: Option<
        BinanceWebsocketMessage,
    >)
        ensures
            match r {
                Some(message) => message.carried_by(subscription@, j@),
                None => forall|message: BinanceWebsocketMessage| !message.carried_by(subscription@, j@),
            },
    {
        match subscription {
            BinanceSubscription::AggregateTrade(_) => Some(
                BinanceWebsocketMessage::AggregateTrade(AggregateTrade::from_json(j)?),
            ),
            BinanceSubscription::Trade(_) => Some(BinanceWebsocketMessage::Trade(Trade::from_json(j)?)),
            BinanceSubscription::Candlestick(_, _) => Some(
                BinanceWebsocketMessage::Candlestick(CandlestickMessage::from_json(j)?),
            ),
            BinanceSubscription::MiniTicker(_) => Some(
                BinanceWebsocketMessage::MiniTicker(MiniTicker::from_json(j)?),
            ),
            BinanceSubscription::MiniTickerAll => Some(
                BinanceWebsocketMessage::MiniTickerAll(list_from_json::<MiniTicker>(j.as_items()?)?),
            ),
            BinanceSubscription::Ticker(_) => Some(BinanceWebsocketMessage::Ticker(Ticker::from_json(j)?)),
            BinanceSubscription::TickerAll => Some(
                BinanceWebsocketMessage::TickerAll(list_from_json::<Ticker>(j.as_items()?)?),
            ),
            BinanceSubscription::PartialDepth(_, _) => Some(
                BinanceWebsocketMessage::PartialDepth(PartialDepth::from_json(j)?),
            ),
            BinanceSubscription::DiffDepth(_) => Some(
                BinanceWebsocketMessage::DiffDepth(DiffDepth::from_json(j)?),
            ),
            BinanceSubscription::OrderBook(_, _) => Some(
                BinanceWebsocketMessage::OrderBook(OrderBookMsg::from_json(j)?),
            ),
            BinanceSubscription::UserData(_) => match AccountUpdate::from_json(j) {
                Some(account) => Some(BinanceWebsocketMessage::AccountUpdate(account)),
                None => Some(BinanceWebsocketMessage::OrderUpdate(OrderUpdate::from_json(j)?)),
            },
        }
    }
}

/// Trades of one taker order at one price, taken together.
#[derive(Debug, Clone)]
pub struct AggregateTrade {
    pub event_type: String,
    pub event_time: u64,
    pub symbol: String,
    pub aggregate_trade_id: u64,
    pub price: Decimal,
    pub qty: Decimal,
    pub first_trade_id: u64,
    pub last_trade_id: u64,
    pub trade_time: u64,
    pub is_buyer_maker: bool,
    pub m_ignore: bool,
}

impl FromJson for AggregateTrade {
    open spec fn decoded_from(self, j: JsonView) -> bool {
        &&& j.text_at("e"@) == Some(self.event_type@)
        &&& j.u64_at("E"@) == Some(self.event_time)
        &&& j.text_at("s"@) == Some(self.symbol@)
        &&& j.u64_at("a"@) == Some(self.aggregate_trade_id)
        &&& j.decimal_at("p"@) == Some(self.price)
        &&& j.decimal_at("q"@) == Some(self.qty)
        &&& j.u64_at("f"@) == Some(self.first_trade_id)
        &&& j.u64_at("l"@) == Some(self.last_trade_id)
        &&& j.u64_at("T"@) == Some(self.trade_time)
        &&& j.bool_at("m"@) == Some(self.is_buyer_maker)
        &&& j.bool_at("M"@) == Some(self.m_ignore)
    }

    fn from_json(j: &Json) -> (r: Option<AggregateTrade>) {
        let event_type = j.text_field("e")?;
        let event_time = j.u64_field("E")?;
        let symbol = j.text_field("s")?;
        let aggregate_trade_id = j.u64_field("a")?;
        let price = j.decimal_field("p")?;
        let qty = j.decimal_field("q")?;
        let first_trade_id = j.u64_field("f")?;
        let last_trade_id = j.u64_field("l")?;
        let trade_time = j.u64_field("T")?;
        let is_buyer_maker = j.bool_field("m")?;
        let m_ignore = j.bool_field("M")?;
        Some(
            AggregateTrade {
                event_type,
                event_time,
                symbol,
                aggregate_trade_id,
                price,
                qty,
                first_trade_id,
                last_trade_id,
                trade_time,
                is_buyer_maker,
                m_ignore,
            },
        )
    }
}

/// One trade.
#[derive(Debug, Clone)]
pub struct Trade {
    pub event_type: String,
    pub event_time: u64,
    pub symbol: String,
    pub trade_id: u64,
    pub price: Decimal,
    pub qty: Decimal,
    pub buyer_order_id: u64,
    pub seller_order_id: u64,
    pub trade_time: u64,
    pub is_buyer_maker: bool,
    pub m_ignore: bool,
}

impl FromJson for Trade {
    open spec fn decoded_from(self, j: JsonView) -> bool {
        &&& j.text_at("e"@) == Some(self.event_type@)
        &&& j.u64_at("E"@) == Some(self.event_time)
        &&& j.text_at("s"@) == Some(self.symbol@)
        &&& j.u64_at("t"@) == Some(self.trade_id)
        &&& j.decimal_at("p"@) == Some(self.price)
        &&& j.decimal_at("q"@) == Some(self.qty)
        &&& j.u64_at("b"@) == Some(self.buyer_order_id)
        &&& j.u64_at("a"@) == Some(self.seller_order_id)
        &&& j.u64_at("T"@) == Some(self.trade_time)
        &&& j.bool_at("m"@) == Some(self.is_buyer_maker)
        &&& j.bool_at("M"@) == Some(self.m_ignore)
    }

    fn from_json(j: &Json) -> (r: Option<Trade>) {
        let event_type = j.text_field("e")?;
        let event_time = j.u64_field("E")?;
        let symbol = j.text_field("s")?;
        let trade_id = j.u64_field("t")?;
        let price = j.decimal_field("p")?;
        let qty = j.decimal_field("q")?;
        let buyer_order_id = j.u64_field("b")?;
        let seller_order_id = j.u64_field("a")?;
        let trade_time = j.u64_field("T")?;
        let is_buyer_maker = j.bool_field("m")?;
        let m_ignore = j.bool_field("M")?;
        Some(
            Trade {
                event_type,
                event_time,
                symbol,
                trade_id,
                price,
                qty,
                buyer_order_id,
                seller_order_id,
                trade_time,
                is_buyer_maker,
                m_ignore,
            },
        )
    }
}

/// The candle itself: prices and volumes of one interval.
#[derive(Debug, Clone)]
pub struct CandlestickMessageKline {
    pub start_time: u64,
    pub close_time: u64,
    pub symbol: String,
    pub interval: String,
    pub first_trade_id: u64,
    pub last_trade_id: u64,
    pub open_price: Decimal,
    pub close_price: Decimal,
    pub high_price: Decimal,
    pub low_price: Decimal,
    pub base_volume: Decimal,
    pub number_of_trades: u64,
    pub is_kline_closed: bool,
    pub quote_volume: Decimal,
    pub taker_buy_base_volume: Decimal,
    pub taker_buy_quote_volume: Decimal,
    pub b_ignore: String,
}

impl FromJson for CandlestickMessageKline {
    open spec fn decoded_from(self, j: JsonView) -> bool {
        &&& j.u64_at("t"@) == Some(self.start_time)
        &&& j.u64_at("T"@) == Some(self.close_time)
        &&& j.text_at("s"@) == Some(self.symbol@)
        &&& j.text_at("i"@) == Some(self.interval@)
        &&& j.u64_at("f"@) == Some(self.first_trade_id)
        &&& j.u64_at("L"@) == Some(self.last_trade_id)
        &&& j.decimal_at("o"@) == Some(self.open_price)
        &&& j.decimal_at("c"@) == Some(self.close_price)
        &&& j.decimal_at("h"@) == Some(self.high_price)
        &&& j.decimal_at("l"@) == Some(self.low_price)
        &&& j.decimal_at("v"@) == Some(self.base_volume)
        &&& j.u64_at("n"@) == Some(self.number_of_trades)
        &&& j.bool_at("x"@) == Some(self.is_kline_closed)
        &&& j.decimal_at("q"@) == Some(self.quote_volume)
        &&& j.decimal_at("V"@) == Some(self.taker_buy_base_volume)
        &&& j.decimal_at("Q"@) == Some(self.taker_buy_quote_volume)
        &&& j.text_at("B"@) == Some(self.b_ignore@)
    }

    fn from_json(j: &Json) -> (r: Option<CandlestickMessageKline>) {
        let start_time = j.u64_field("t")?;
        let close_time = j.u64_field("T")?;
        let symbol = j.text_field("s")?;
        let interval = j.text_field("i")?;
        let first_trade_id = j.u64_field("f")?;
        let last_trade_id = j.u64_field("L")?;
        let open_price = j.decimal_field("o")?;
        let close_price = j.decimal_field("c")?;
        let high_price = j.decimal_field("h")?;
        let low_price = j.decimal_field("l")?;
        let base_volume = j.decimal_field("v")?;
        let number_of_trades = j.u64_field("n")?;
        let is_kline_closed = j.bool_field("x")?;
        let quote_volume = j.decimal_field("q")?;
        let taker_buy_base_volume = j.decimal_field("V")?;
        let taker_buy_quote_volume = j.decimal_field("Q")?;
        let b_ignore = j.text_field("B")?;
        Some(
            CandlestickMessageKline {
                start_time,
                close_time,
                symbol,
                interval,
                first_trade_id,
                last_trade_id,
                open_price,
                close_price,
                high_price,
                low_price,
                base_volume,
                number_of_trades,
                is_kline_closed,
                quote_volume,
                taker_buy_base_volume,
                taker_buy_quote_volume,
                b_ignore,
            },
        )
    }
}

/// An update of the current candle of a symbol.
#[derive(Debug, Clone)]
pub struct CandlestickMessage {
    pub event_type: String,
    pub event_time: u64,
    pub symbol: String,
    pub kline: CandlestickMessageKline,
}

impl FromJson for CandlestickMessage {
    open spec fn decoded_from(self, j: JsonView) -> bool {
        &&& j.text_at("e"@) == Some(self.event_type@)
        &&& j.u64_at("E"@) == Some(self.event_time)
        &&& j.text_at("s"@) == Some(self.symbol@)
        &&& j.member("k"@) matches Some(inner) && self.kline.decoded_from(inner)
    }

    fn from_json(j: &Json) -> (r: Option<CandlestickMessage>) {
        let event_type = j.text_field("e")?;
        let event_time = j.u64_field("E")?;
        let symbol = j.text_field("s")?;
        let kline = CandlestickMessageKline::from_json(j.get("k")?)?;
        Some(CandlestickMessage { event_type, event_time, symbol, kline })
    }
}

/// The rolling 24-hour summary of a symbol, in short.
#[derive(Debug, Clone)]
pub struct MiniTicker {
    pub event_type: String,
    pub event_time: u64,
    pub symbol: String,
    pub close_price: Decimal,
    pub open_price: Decimal,
    pub low_price: Decimal,
    pub high_price: Decimal,
    pub base_volume: Decimal,
    pub quote_volume: Decimal,
}

impl FromJson for MiniTicker {
    open spec fn decoded_from(self, j: JsonView) -> bool {
        &&& j.text_at("e"@) == Some(self.event_type@)
        &&& j.u64_at("E"@) == Some(self.event_time)
        &&& j.text_at("s"@) == Some(self.symbol@)
        &&& j.decimal_at("c"@) == Some(self.close_price)
        &&& j.decimal_at("o"@) == Some(self.open_price)
        &&& j.decimal_at("l"@) == Some(self.low_price)
        &&& j.decimal_at("h"@) == Some(self.high_price)
        &&& j.decimal_at("v"@) == Some(self.base_volume)
        &&& j.decimal_at("q"@) == Some(self.quote_volume)
    }

    fn from_json(j: &Json) -> (r: Option<MiniTicker>) {
        let event_type = j.text_field("e")?;
        let event_time = j.u64_field("E")?;
        let symbol = j.text_field("s")?;
        let close_price = j.decimal_field("c")?;
        let open_price = j.decimal_field("o")?;
        let low_price = j.decimal_field("l")?;
        let high_price = j.decimal_field("h")?;
        let base_volume = j.decimal_field("v")?;
        let quote_volume = j.decimal_field("q")?;
        Some(
            MiniTicker {
                event_type,
                event_time,
                symbol,
                close_price,
                open_price,
                low_price,
                high_price,
                base_volume,
                quote_volume,
            },
        )
    }
}

/// The rolling 24-hour statistics of a symbol.
#[derive(Debug, Clone)]
pub struct Ticker {
    pub event_type: String,
    pub event_time: u64,
    pub symbol: String,
    pub price_change: Decimal,
    pub price_change_percent: Decimal,
    pub average_price: Decimal,
    pub first_price: Decimal,
    pub last_price: Decimal,
    pub last_qty: Decimal,
    pub best_bid_price: Decimal,
    pub best_bid_qty: Decimal,
    pub best_ask_price: Decimal,
    pub best_ask_qty: Decimal,
    pub open_price: Decimal,
    pub high_price: Decimal,
    pub low_price: Decimal,
    pub base_volume: Decimal,
    pub quote_volume: Decimal,
    pub stat_open_time: u64,
    pub stat_close_time: u64,
    pub first_trade_id: u64,
    pub last_trade_id: u64,
    pub num_trades: u64,
}

impl FromJson for Ticker {
    open spec fn decoded_from(self, j: JsonView) -> bool {
        &&& j.text_at("e"@) == Some(self.event_type@)
        &&& j.u64_at("E"@) == Some(self.event_time)
        &&& j.text_at("s"@) == Some(self.symbol@)
        &&& j.decimal_at("p"@) == Some(self.price_change)
        &&& j.decimal_at("P"@) == Some(self.price_change_percent)
        &&& j.decimal_at("w"@) == Some(self.average_price)
        &&& j.decimal_at("x"@) == Some(self.first_price)
        &&& j.decimal_at("c"@) == Some(self.last_price)
        &&& j.decimal_at("Q"@) == Some(self.last_qty)
        &&& j.decimal_at("b"@) == Some(self.best_bid_price)
        &&& j.decimal_at("B"@) == Some(self.best_bid_qty)
        &&& j.decimal_at("a"@) == Some(self.best_ask_price)
        &&& j.decimal_at("A"@) == Some(self.best_ask_qty)
        &&& j.decimal_at("o"@) == Some(self.open_price)
        &&& j.decimal_at("h"@) == Some(self.high_price)
        &&& j.decimal_at("l"@) == Some(self.low_price)
        &&& j.decimal_at("v"@) == Some(self.base_volume)
        &&& j.decimal_at("q"@) == Some(self.quote_volume)
        &&& j.u64_at("O"@) == Some(self.stat_open_time)
        &&& j.u64_at("C"@) == Some(self.stat_close_time)
        &&& j.u64_at("F"@) == Some(self.first_trade_id)
        &&& j.u64_at("L"@) == Some(self.last_trade_id)
        &&& j.u64_at("n"@) == Some(self.num_trades)
    }

    fn from_json(j: &Json) -> (r: Option<Ticker>) {
        let event_type = j.text_field("e")?;
        let event_time = j.u64_field("E")?;
        let symbol = j.text_field("s")?;
        let price_change = j.decimal_field("p")?;
        let price_change_percent = j.decimal_field("P")?;
        let average_price = j.decimal_field("w")?;
        let first_price = j.decimal_field("x")?;
        let last_price = j.decimal_field("c")?;
        let last_qty = j.decimal_field("Q")?;
        let best_bid_price = j.decimal_field("b")?;
        let best_bid_qty = j.decimal_field("B")?;
        let best_ask_price = j.decimal_field("a")?;
        let best_ask_qty = j.decimal_field("A")?;
        let open_price = j.decimal_field("o")?;
        let high_price = j.decimal_field("h")?;
        let low_price = j.decimal_field("l")?;
        let base_volume = j.decimal_field("v")?;
        let quote_volume = j.decimal_field("q")?;
        let stat_open_time = j.u64_field("O")?;
        let stat_close_time = j.u64_field("C")?;
        let first_trade_id = j.u64_field("F")?;
        let last_trade_id = j.u64_field("L")?;
        let num_trades = j.u64_field("n")?;
        Some(
            Ticker {
                event_type,
                event_time,
                symbol,
                price_change,
                price_change_percent,
                average_price,
                first_price,
                last_price,
                last_qty,
                best_bid_price,
                best_bid_qty,
                best_ask_price,
                best_ask_qty,
                open_price,
                high_price,
                low_price,
                base_volume,
                quote_volume,
                stat_open_time,
                stat_close_time,
                first_trade_id,
                last_trade_id,
                num_trades,
            },
        )
    }
}

/// The best levels of an order book.
#[derive(Debug, Clone)]
pub struct PartialDepth {
    pub last_update_id: u64,
    pub bids: Vec<BidMsg>,
    pub asks: Vec<AskMsg>,
}

impl FromJson for PartialDepth {
    open spec fn decoded_from(self, j: JsonView) -> bool {
        &&& j.u64_at("lastUpdateId"@) == Some(self.last_update_id)
        &&& j.items_at("bids"@) matches Some(items) && each_decoded_from(self.bids@, items)
        &&& j.items_at("asks"@) matches Some(items) && each_decoded_from(self.asks@, items)
    }

    fn from_json(j: &Json) -> (r: Option<PartialDepth>) {
        let last_update_id = j.u64_field("lastUpdateId")?;
        let bids = list_from_json::<BidMsg>(j.items_field("bids")?)?;
        let asks = list_from_json::<AskMsg>(j.items_field("asks")?)?;
        Some(PartialDepth { last_update_id, bids, asks })
    }
}

/// The levels of an order book that changed.
#[derive(Debug, Clone)]
pub struct DiffDepth {
    pub event_type: String,
    pub event_time: u64,
    pub symbol: String,
    pub first_update_id: u64,
    pub final_update_id: u64,
    pub bids: Vec<BidMsg>,
    pub asks: Vec<AskMsg>,
}

impl FromJson for DiffDepth {
    open spec fn decoded_from(self, j: JsonView) -> bool {
        &&& j.text_at("e"@) == Some(self.event_type@)
        &&& j.u64_at("E"@) == Some(self.event_time)
        &&& j.text_at("s"@) == Some(self.symbol@)
        &&& j.u64_at("U"@) == Some(self.first_update_id)
        &&& j.u64_at("u"@) == Some(self.final_update_id)
        &&& j.items_at("b"@) matches Some(items) && each_decoded_from(self.bids@, items)
        &&& j.items_at("a"@) matches Some(items) && each_decoded_from(self.asks@, items)
    }

    fn from_json(j: &Json) -> (r: Option<DiffDepth>) {
        let event_type = j.text_field("e")?;
        let event_time = j.u64_field("E")?;
        let symbol = j.text_field("s")?;
        let first_update_id = j.u64_field("U")?;
        let final_update_id = j.u64_field("u")?;
        let bids = list_from_json::<BidMsg>(j.items_field("b")?)?;
        let asks = list_from_json::<AskMsg>(j.items_field("a")?)?;
        Some(
            DiffDepth {
                event_type,
                event_time,
                symbol,
                first_update_id,
                final_update_id,
                bids,
                asks,
            },
        )
    }
}

/// The balance of one asset.
#[derive(Debug, Clone)]
pub struct AccountUpdateBalance {
    pub asset: String,
    pub free: Decimal,
    pub locked: Decimal,
}

impl FromJson for AccountUpdateBalance {
    open spec fn decoded_from(self, j: JsonView) -> bool {
        &&& j.text_at("a"@) == Some(self.asset@)
        &&& j.decimal_at("f"@) == Some(self.free)
        &&& j.decimal_at("l"@) == Some(self.locked)
    }

    fn from_json(j: &Json) -> (r: Option<AccountUpdateBalance>) {
        let asset = j.text_field("a")?;
        let free = j.decimal_field("f")?;
        let locked = j.decimal_field("l")?;
        Some(AccountUpdateBalance { asset, free, locked })
    }
}

/// The state of a user's account after a change.
#[derive(Debug, Clone)]
pub struct AccountUpdate {
    pub event_type: String,
    pub event_time: u64,
    pub maker_commision_rate: u64,
    pub taker_commision_rate: u64,
    pub buyer_commision_rate: u64,
    pub seller_commision_rate: u64,
    pub can_trade: bool,
    pub can_withdraw: bool,
    pub can_deposit: bool,
    pub last_update_time: u64,
    pub balances: Vec<AccountUpdateBalance>,
}

impl FromJson for AccountUpdate {
    open spec fn decoded_from(self, j: JsonView) -> bool {
        &&& j.text_at("e"@) == Some(self.event_type@)
        &&& j.u64_at("E"@) == Some(self.event_time)
        &&& j.u64_at("m"@) == Some(self.maker_commision_rate)
        &&& j.u64_at("t"@) == Some(self.taker_commision_rate)
        &&& j.u64_at("b"@) == Some(self.buyer_commision_rate)
        &&& j.u64_at("s"@) == Some(self.seller_commision_rate)
        &&& j.bool_at("T"@) == Some(self.can_trade)
        &&& j.bool_at("W"@) == Some(self.can_withdraw)
        &&& j.bool_at("D"@) == Some(self.can_deposit)
        &&& j.u64_at("u"@) == Some(self.last_update_time)
        &&& j.items_at("B"@) matches Some(items) && each_decoded_from(self.balances@, items)
    }

    fn from_json(j: &Json) -> (r: Option<AccountUpdate>) {
        let event_type = j.text_field("e")?;
        let event_time = j.u64_field("E")?;
        let maker_commision_rate = j.u64_field("m")?;
        let taker_commision_rate = j.u64_field("t")?;
        let buyer_commision_rate = j.u64_field("b")?;
        let seller_commision_rate = j.u64_field("s")?;
        let can_trade = j.bool_field("T")?;
        let can_withdraw = j.bool_field("W")?;
        let can_deposit = j.bool_field("D")?;
        let last_update_time = j.u64_field("u")?;
        let balances = list_from_json::<AccountUpdateBalance>(j.items_field("B")?)?;
        Some(
            AccountUpdate {
                event_type,
                event_time,
                maker_commision_rate,
                taker_commision_rate,
                buyer_commision_rate,
                seller_commision_rate,
                can_trade,
                can_withdraw,
                can_deposit,
                last_update_time,
                balances,
            },
        )
    }
}

/// A change of one of a user's orders.
#[derive(Debug, Clone)]
pub struct OrderUpdate {
    pub event_type: String,
    pub event_time: u64,
    pub symbol: String,
    pub client_order_id: String,
    pub side: OrderSide,
    pub order_type: OrderType,
    pub time_in_force: OrderTimeInForce,
    pub order_qty: Decimal,
    pub order_price: Decimal,
    pub stop_price: Decimal,
    pub iceberg_qty: Decimal,
    pub g: i64,
    pub orig_client_order_id: Option<String>,
    pub execution_type: OrderExecType,
    pub order_status: OrderStatus,
    pub order_reject_reason: OrderRejectReason,
    pub order_id: u64,
    pub last_exec_qty: Decimal,
    pub cumulative_filled_qty: Decimal,
    pub last_exec_price: Decimal,
    pub commission_qty: Decimal,
    pub commission_asset: Option<String>,
    pub transaction_time: u64,
    pub trade_id: i64,
    pub i_ignore: i64,
    pub is_working: bool,
    pub is_maker: bool,
    pub m_ignore: bool,
    pub order_creation_time: u64,
    pub cumulative_quote_transacted_qty: Decimal,
    pub last_quote_transacted_qty: Decimal,
}

impl FromJson for OrderUpdate {
    open spec fn decoded_from(self, j: JsonView) -> bool {
        &&& j.text_at("e"@) == Some(self.event_type@)
        &&& j.u64_at("E"@) == Some(self.event_time)
        &&& j.text_at("s"@) == Some(self.symbol@)
        &&& j.text_at("c"@) == Some(self.client_order_id@)
        &&& j.text_at("S"@) == Some(self.side.wire_name())
        &&& j.text_at("o"@) == Some(self.order_type.wire_name())
        &&& j.text_at("f"@) == Some(self.time_in_force.wire_name())
        &&& j.decimal_at("q"@) == Some(self.order_qty)
        &&& j.decimal_at("p"@) == Some(self.order_price)
        &&& j.decimal_at("P"@) == Some(self.stop_price)
        &&& j.decimal_at("F"@) == Some(self.iceberg_qty)
        &&& j.i64_at("g"@) == Some(self.g)
        &&& j.optional_text_at("C"@) == Some(text_view(self.orig_client_order_id))
        &&& j.text_at("x"@) == Some(self.execution_type.wire_name())
        &&& j.text_at("X"@) == Some(self.order_status.wire_name())
        &&& j.text_at("r"@) == Some(self.order_reject_reason.wire_name())
        &&& j.u64_at("i"@) == Some(self.order_id)
        &&& j.decimal_at("l"@) == Some(self.last_exec_qty)
        &&& j.decimal_at("z"@) == Some(self.cumulative_filled_qty)
        &&& j.decimal_at("L"@) == Some(self.last_exec_price)
        &&& j.decimal_at("n"@) == Some(self.commission_qty)
        &&& j.optional_text_at("N"@) == Some(text_view(self.commission_asset))
        &&& j.u64_at("T"@) == Some(self.transaction_time)
        &&& j.i64_at("t"@) == Some(self.trade_id)
        &&& j.i64_at("I"@) == Some(self.i_ignore)
        &&& j.bool_at("w"@) == Some(self.is_working)
        &&& j.bool_at("m"@) == Some(self.is_maker)
        &&& j.bool_at("M"@) == Some(self.m_ignore)
        &&& j.u64_at("O"@) == Some(self.order_creation_time)
        &&& j.decimal_at("Z"@) == Some(self.cumulative_quote_transacted_qty)
        &&& j.decimal_at("Y"@) == Some(self.last_quote_transacted_qty)
    }

    fn from_json(j: &Json) -> (r: Option<OrderUpdate>) {
        let event_type = j.text_field("e")?;
        let event_time = j.u64_field("E")?;
        let symbol = j.text_field("s")?;
        let client_order_id = j.text_field("c")?;
        let side = OrderSide::from_name(j.get("S")?.as_text()?.as_str())?;
        let order_type = OrderType::from_name(j.get("o")?.as_text()?.as_str())?;
        let time_in_force = OrderTimeInForce::from_name(j.get("f")?.as_text()?.as_str())?;
        let order_qty = j.decimal_field("q")?;
        let order_price = j.decimal_field("p")?;
        let stop_price = j.decimal_field("P")?;
        let iceberg_qty = j.decimal_field("F")?;
        let g = j.i64_field("g")?;
        let orig_client_order_id = j.optional_text_field("C")?;
        let execution_type = OrderExecType::from_name(j.get("x")?.as_text()?.as_str())?;
        let order_status = OrderStatus::from_name(j.get("X")?.as_text()?.as_str())?;
        let order_reject_reason = OrderRejectReason::from_name(j.get("r")?.as_text()?.as_str())?;
        let order_id = j.u64_field("i")?;
        let last_exec_qty = j.decimal_field("l")?;
        let cumulative_filled_qty = j.decimal_field("z")?;
        let last_exec_price = j.decimal_field("L")?;
        let commission_qty = j.decimal_field("n")?;
        let commission_asset = j.optional_text_field("N")?;
        let transaction_time = j.u64_field("T")?;
        let trade_id = j.i64_field("t")?;
        let i_ignore = j.i64_field("I")?;
        let is_working = j.bool_field("w")?;
        let is_maker = j.bool_field("m")?;
        let m_ignore = j.bool_field("M")?;
        let order_creation_time = j.u64_field("O")?;
        let cumulative_quote_transacted_qty = j.decimal_field("Z")?;
        let last_quote_transacted_qty = j.decimal_field("Y")?;
        Some(
            OrderUpdate {
                event_type,
                event_time,
                symbol,
                client_order_id,
                side,
                order_type,
                time_in_force,
                order_qty,
                order_price,
                stop_price,
                iceberg_qty,
                g,
                orig_client_order_id,
                execution_type,
                order_status,
                order_reject_reason,
                order_id,
                last_exec_qty,
                cumulative_filled_qty,
                last_exec_price,
                commission_qty,
                commission_asset,
                transaction_time,
                trade_id,
                i_ignore,
                is_working,
                is_maker,
                m_ignore,
                order_creation_time,
                cumulative_quote_transacted_qty,
                last_quote_transacted_qty,
            },
        )
    }
}


} // verus!
