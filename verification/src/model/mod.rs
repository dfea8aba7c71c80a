//! The messages of the request/response interface, and the vocabulary that the
//! exchange uses for orders.

pub mod decode;
pub mod names;
pub mod websocket;

use crate::decimal::Decimal;
use vstd::prelude::*;

verus! {

/// The exchange's clock.
#[derive(Debug, Clone)]
pub struct ServerTimeMsg {
    pub server_time: u64,
}

/// What an account holds of one asset.
#[derive(Debug, Clone)]
pub struct BalanceMsg {
    pub asset: String,
    pub free: Decimal,
    pub locked: Decimal,
}

/// The state of an order.
#[derive(Debug, Clone)]
pub struct OrderStatusMsg {
    pub symbol: String,
    pub order_id: i64,
    pub client_order_id: String,
    pub price: Decimal,
    pub orig_qty: Decimal,
    pub executed_qty: Decimal,
    pub status: OrderStatus,
    pub time_in_force: OrderTimeInForce,
    pub order_type: OrderType,
    pub side: OrderSide,
    pub stop_price: Decimal,
    pub iceberg_qty: Decimal,
    pub time: u64,
}

/// The confirmation that an order was canceled.
#[derive(Debug, Clone)]
pub struct OrderCanceledMsg {
    pub symbol: String,
    pub orig_client_order_id: String,
    pub order_id: i64,
    pub client_order_id: String,
}

/// The confirmation that an order was placed.
#[derive(Debug, Clone)]
pub struct TransactionMsg {
    pub symbol: String,
    pub order_id: i64,
    pub client_order_id: String,
    pub transact_time: u64,
}

/// One bid of an order book: a price level and the quantity offered at it.
#[derive(Debug, Clone)]
pub struct BidMsg {
    pub price: Decimal,
    pub qty: Decimal,
    /// What the exchange sends after price and quantity; it carries nothing.
    pub ignore: Vec<String>,
}

/// One ask of an order book: a price level and the quantity offered at it.
#[derive(Debug, Clone)]
pub struct AskMsg {
    pub price: Decimal,
    pub qty: Decimal,
    /// What the exchange sends after price and quantity; it carries nothing.
    pub ignore: Vec<String>,
}

/// The key of the session of a user's feed.
#[derive(Debug, Clone)]
pub struct UserDataStreamMsg {
    pub listen_key: String,
}

/// The latest price of a symbol.
#[derive(Debug, Clone)]
pub struct PriceMsg {
    pub symbol: String,
    pub price: Decimal,
}

/// The best bid and the best ask of a symbol.
#[derive(Debug, Clone)]
pub struct TickerMsg {
    pub symbol: String,
    pub bid_price: Decimal,
    pub bid_qty: Decimal,
    pub ask_price: Decimal,
    pub ask_qty: Decimal,
}

/// One trade of the account.
#[derive(Debug, Clone)]
pub struct TradeHistoryMsg {
    pub symbol: String,
    pub id: u64,
    pub order_id: i64,
    pub price: Decimal,
    pub qty: Decimal,
    pub commission: Decimal,
    pub commission_asset: String,
    pub time: u64,
    pub is_buyer: bool,
    pub is_maker: bool,
    pub is_best_match: bool,
}

/// The statistics of a symbol over the last 24 hours.
#[derive(Debug, Clone)]
pub struct PriceStatsMsg {
    pub symbol: String,
    pub price_change: Decimal,
    pub price_change_percent: Decimal,
    pub weighted_avg_price: Decimal,
    pub prev_close_price: Decimal,
    pub last_price: Decimal,
    pub bid_price: Decimal,
    pub ask_price: Decimal,
    pub open_price: Decimal,
    pub high_price: Decimal,
    pub low_price: Decimal,
    pub volume: Decimal,
    pub open_time: u64,
    pub close_time: u64,
    pub first_id: i64,
    pub last_id: i64,
    pub count: u64,
}

/// One candle: the prices and volumes of one interval.
#[derive(Debug, Clone)]
pub struct KlineMsg {
    pub open_time: u64,
    pub open: Decimal,
    pub high: Decimal,
    pub low: Decimal,
    pub close: Decimal,
    pub volume: Decimal,
    pub close_time: u64,
    pub quote_asset_volume: Decimal,
    pub number_of_trades: u64,
    pub taker_buy_base_asset_volume: Decimal,
    pub taker_buy_quote_asset_volume: Decimal,
}

/// The rules of the exchange and the symbols that it trades.
#[derive(Debug, Clone)]
pub struct ExchangeInfoMsg {
    pub timezone: String,
    pub server_time: u64,
    pub rate_limits: Vec<RateLimitMsg>,
    pub exchange_filters: Vec<ExchangeFilter>,
    pub symbols: Vec<SymbolMsg>,
}

/// A limit that holds for the exchange as a whole.
#[derive(Debug, Clone)]
pub enum ExchangeFilter {
    ExchangeMaxNumOrders { limit: u64 },
    ExchangeMaxAlgoOrders { limit: u64 },
}

/// How many requests or orders the exchange admits in an interval.
#[derive(Debug, Clone)]
pub struct RateLimitMsg {
    pub rate_limit_type: RateLimitType,
    pub interval: Interval,
    pub interval_num: u64,
    pub limit: u64,
}

/// A symbol with the rules of its trading.
#[derive(Debug, Clone)]
pub struct SymbolMsg {
    pub symbol: String,
    pub status: String,
    pub base_asset: String,
    pub base_asset_precision: u64,
    pub quote_asset: String,
    pub quote_precision: u64,
    pub order_types: Vec<OrderType>,
    pub iceberg_allowed: bool,
    pub filters: Vec<SymbolFilter>,
}

/// A rule that an order for a symbol has to meet.
#[derive(Debug, Clone)]
pub enum SymbolFilter {
    PriceFilter { min_price: Decimal, max_price: Decimal, tick_size: Decimal },
    PercentPrice { multiplier_up: Decimal, multiplier_down: Decimal, avg_price_mins: u64 },
    LotSize { min_qty: Decimal, max_qty: Decimal, step_size: Decimal },
    MinNotional { min_notional: Decimal, apply_to_market: bool, avg_price_mins: u64 },
    IcebergParts { limit: u64 },
    MarketLotSize { min_qty: Decimal, max_qty: Decimal, step_size: Decimal },
    MaxNumOrders { limit: u64 },
    MaxNumAlgoOrders { max_num_algo_orders: u64 },
    MaxNumIcebergOrders { max_num_iceberg_orders: u64 },
}

/// The order book of a symbol.
#[derive(Debug, Clone)]
pub struct OrderBookMsg {
    pub last_update_id: i64,
    pub bids: Vec<BidMsg>,
    pub asks: Vec<AskMsg>,
}

/// Whether an order buys or sells.
#[derive(Debug, Clone, Copy, PartialEq, Eq, Structural)]
pub enum OrderSide {
    Buy,
    Sell,
}

/// How an order is to be executed.
#[derive(Debug, Clone, Copy, PartialEq, Eq, Structural)]
pub enum OrderType {
    Market,
    Limit,
    StopLoss,
    StopLossLimit,
    TakeProfit,
    TakeProfitLimit,
    LimitMaker,
}

/// How long an order stays in force: until it is canceled, at once or not at
/// all, or in full or not at all.
#[derive(Debug, Clone, Copy, PartialEq, Eq, Structural)]
pub enum OrderTimeInForce {
    GTC,
    IOC,
    FOK,
}

/// What happened to an order.
#[derive(Debug, Clone, Copy, PartialEq, Eq, Structural)]
pub enum OrderExecType {
    New,
    Canceled,
    Replaced,
    Rejected,
    Trade,
    Expired,
}

/// Where an order stands.
#[derive(Debug, Clone, Copy, PartialEq, Eq, Structural)]
pub enum OrderStatus {
    New,
    PartiallyFilled,
    Filled,
    Canceled,
    PendingCancel,
    Rejected,
    Expired,
}

/// Why an order was rejected.
#[derive(Debug, Clone, Copy, PartialEq, Eq, Structural)]
pub enum OrderRejectReason {
    /// The order was not rejected.
    NoReason,
}

/// What a rate limit counts.
#[derive(Debug, Clone, Copy, PartialEq, Eq, Structural)]
pub enum RateLimitType {
    Orders,
    RequestWeight,
    RawRequests,
}

/// The unit of the interval of a rate limit.
#[derive(Debug, Clone, Copy, PartialEq, Eq, Structural)]
pub enum Interval {
    Second,
    Minute,
    Day,
}

} // verus!
