//! How the messages of the request/response interface are read from JSON.
//!
//! A message is written as an object whose members carry the names of its
//! fields in camel case. Members that a message does not name are passed
//! over.

use crate::json::{each_decoded_from, list_from_json, FromJson, Json, JsonView};
use crate::model::{
    AskMsg, BalanceMsg, BidMsg, ExchangeFilter, ExchangeInfoMsg, Interval, KlineMsg, OrderBookMsg,
    OrderCanceledMsg, OrderSide, OrderStatus, OrderStatusMsg, OrderTimeInForce, OrderType,
    PriceMsg, PriceStatsMsg, RateLimitMsg, RateLimitType, ServerTimeMsg, SymbolFilter, SymbolMsg,
    TickerMsg, TradeHistoryMsg, TransactionMsg, UserDataStreamMsg,
};
use crate::text::same_text;
use vstd::prelude::*;

verus! {

/// A level of an order book is written as an array: price, quantity, and an
/// array of strings that carries nothing.
impl FromJson for BidMsg {
    open spec fn decoded_from(self, j: JsonView) -> bool {
        &&& j.items() matches Some(items)
        &&& items.len() == 3
        &&& items[0].decimal() == Some(self.price)
        &&& items[1].decimal() == Some(self.qty)
        &&& items[2].items() matches Some(rest) && each_decoded_from(self.ignore@, rest)
    }

    fn from_json(j: &Json) -> (r: Option<BidMsg>) {
        let items = j.as_items()?;
        if items.len() != 3 {
            return None;
        }
        let price = items[0].as_decimal()?;
        let qty = items[1].as_decimal()?;
        let ignore = list_from_json::<String>(items[2].as_items()?)?;
        Some(BidMsg { price, qty, ignore })
    }
}

/// Written as a [`BidMsg`] is.
impl FromJson for AskMsg {
    open spec fn decoded_from(self, j: JsonView) -> bool {
        &&& j.items() matches Some(items)
        &&& items.len() == 3
        &&& items[0].decimal() == Some(self.price)
        &&& items[1].decimal() == Some(self.qty)
        &&& items[2].items() matches Some(rest) && each_decoded_from(self.ignore@, rest)
    }

    fn from_json(j: &Json) -> (r: Option<AskMsg>) {
        let items = j.as_items()?;
        if items.len() != 3 {
            return None;
        }
        let price = items[0].as_decimal()?;
        let qty = items[1].as_decimal()?;
        let ignore = list_from_json::<String>(items[2].as_items()?)?;
        Some(AskMsg { price, qty, ignore })
    }
}

impl FromJson for ServerTimeMsg {
    open spec fn decoded_from(self, j: JsonView) -> bool {
        j.u64_at("serverTime"@) == Some(self.server_time)
    }

    fn from_json(j: &Json) -> (r: Option<ServerTimeMsg>) {
        let server_time = j.u64_field("serverTime")?;
        Some(ServerTimeMsg { server_time })
    }
}

impl FromJson for BalanceMsg {
    open spec fn decoded_from(self, j: JsonView) -> bool {
        &&& j.text_at("asset"@) == Some(self.asset@)
        &&& j.decimal_at("free"@) == Some(self.free)
        &&& j.decimal_at("locked"@) == Some(self.locked)
    }

    fn from_json(j: &Json) -> (r: Option<BalanceMsg>) {
        let asset = j.text_field("asset")?;
        let free = j.decimal_field("free")?;
        let locked = j.decimal_field("locked")?;
        Some(BalanceMsg { asset, free, locked })
    }
}

impl FromJson for OrderStatusMsg {
    open spec fn decoded_from(self, j: JsonView) -> bool {
        &&& j.text_at("symbol"@) == Some(self.symbol@)
        &&& j.i64_at("orderId"@) == Some(self.order_id)
        &&& j.text_at("clientOrderId"@) == Some(self.client_order_id@)
        &&& j.decimal_at("price"@) == Some(self.price)
        &&& j.decimal_at("origQty"@) == Some(self.orig_qty)
        &&& j.decimal_at("executedQty"@) == Some(self.executed_qty)
        &&& j.text_at("status"@) == Some(self.status.wire_name())
        &&& j.text_at("timeInForce"@) == Some(self.time_in_force.wire_name())
        &&& j.text_at("type"@) == Some(self.order_type.wire_name())
        &&& j.text_at("side"@) == Some(self.side.wire_name())
        &&& j.decimal_at("stopPrice"@) == Some(self.stop_price)
        &&& j.decimal_at("icebergQty"@) == Some(self.iceberg_qty)
        &&& j.u64_at("time"@) == Some(self.time)
    }

    fn from_json(j: &Json) -> (r: Option<OrderStatusMsg>) {
        let symbol = j.text_field("symbol")?;
        let order_id = j.i64_field("orderId")?;
        let client_order_id = j.text_field("clientOrderId")?;
        let price = j.decimal_field("price")?;
        let orig_qty = j.decimal_field("origQty")?;
        let executed_qty = j.decimal_field("executedQty")?;
        let status = OrderStatus::from_name(j.get("status")?.as_text()?.as_str())?;
        let time_in_force = OrderTimeInForce::from_name(j.get("timeInForce")?.as_text()?.as_str())?;
        let order_type = OrderType::from_name(j.get("type")?.as_text()?.as_str())?;
        let side = OrderSide::from_name(j.get("side")?.as_text()?.as_str())?;
        let stop_price = j.decimal_field("stopPrice")?;
        let iceberg_qty = j.decimal_field("icebergQty")?;
        let time = j.u64_field("time")?;
        Some(
            OrderStatusMsg {
                symbol,
                order_id,
                client_order_id,
                price,
                orig_qty,
                executed_qty,
                status,
                time_in_force,
                order_type,
                side,
                stop_price,
                iceberg_qty,
                time,
            },
        )
    }
}

impl FromJson for OrderCanceledMsg {
    open spec fn decoded_from(self, j: JsonView) -> bool {
        &&& j.text_at("symbol"@) == Some(self.symbol@)
        &&& j.text_at("origClientOrderId"@) == Some(self.orig_client_order_id@)
        &&& j.i64_at("orderId"@) == Some(self.order_id)
        &&& j.text_at("clientOrderId"@) == Some(self.client_order_id@)
    }

    fn from_json(j: &Json) -> (r: Option<OrderCanceledMsg>) {
        let symbol = j.text_field("symbol")?;
        let orig_client_order_id = j.text_field("origClientOrderId")?;
        let order_id = j.i64_field("orderId")?;
        let client_order_id = j.text_field("clientOrderId")?;
        Some(OrderCanceledMsg { symbol, orig_client_order_id, order_id, client_order_id })
    }
}

impl FromJson for TransactionMsg {
    open spec fn decoded_from(self, j: JsonView) -> bool {
        &&& j.text_at("symbol"@) == Some(self.symbol@)
        &&& j.i64_at("orderId"@) == Some(self.order_id)
        &&& j.text_at("clientOrderId"@) == Some(self.client_order_id@)
        &&& j.u64_at("transactTime"@) == Some(self.transact_time)
    }

    fn from_json(j: &Json) -> (r: Option<TransactionMsg>) {
        let symbol = j.text_field("symbol")?;
        let order_id = j.i64_field("orderId")?;
        let client_order_id = j.text_field("clientOrderId")?;
        let transact_time = j.u64_field("transactTime")?;
        Some(TransactionMsg { symbol, order_id, client_order_id, transact_time })
    }
}

impl FromJson for UserDataStreamMsg {
    open spec fn decoded_from(self, j: JsonView) -> bool {
        j.text_at("listenKey"@) == Some(self.listen_key@)
    }

    fn from_json(j: &Json) -> (r: Option<UserDataStreamMsg>) {
        let listen_key = j.text_field("listenKey")?;
        Some(UserDataStreamMsg { listen_key })
    }
}

impl FromJson for PriceMsg {
    open spec fn decoded_from(self, j: JsonView) -> bool {
        &&& j.text_at("symbol"@) == Some(self.symbol@)
        &&& j.decimal_at("price"@) == Some(self.price)
    }

    fn from_json(j: &Json) -> (r: Option<PriceMsg>) {
        let symbol = j.text_field("symbol")?;
        let price = j.decimal_field("price")?;
        Some(PriceMsg { symbol, price })
    }
}

impl FromJson for TickerMsg {
    open spec fn decoded_from(self, j: JsonView) -> bool {
        &&& j.text_at("symbol"@) == Some(self.symbol@)
        &&& j.decimal_at("bidPrice"@) == Some(self.bid_price)
        &&& j.decimal_at("bidQty"@) == Some(self.bid_qty)
        &&& j.decimal_at("askPrice"@) == Some(self.ask_price)
        &&& j.decimal_at("askQty"@) == Some(self.ask_qty)
    }

    fn from_json(j: &Json) -> (r: Option<TickerMsg>) {
        let symbol = j.text_field("symbol")?;
        let bid_price = j.decimal_field("bidPrice")?;
        let bid_qty = j.decimal_field("bidQty")?;
        let ask_price = j.decimal_field("askPrice")?;
        let ask_qty = j.decimal_field("askQty")?;
        Some(TickerMsg { symbol, bid_price, bid_qty, ask_price, ask_qty })
    }
}

impl FromJson for TradeHistoryMsg {
    open spec fn decoded_from(self, j: JsonView) -> bool {
        &&& j.text_at("symbol"@) == Some(self.symbol@)
        &&& j.u64_at("id"@) == Some(self.id)
        &&& j.i64_at("orderId"@) == Some(self.order_id)
        &&& j.decimal_at("price"@) == Some(self.price)
        &&& j.decimal_at("qty"@) == Some(self.qty)
        &&& j.decimal_at("commission"@) == Some(self.commission)
        &&& j.text_at("commissionAsset"@) == Some(self.commission_asset@)
        &&& j.u64_at("time"@) == Some(self.time)
        &&& j.bool_at("isBuyer"@) == Some(self.is_buyer)
        &&& j.bool_at("isMaker"@) == Some(self.is_maker)
        &&& j.bool_at("isBestMatch"@) == Some(self.is_best_match)
    }

    fn from_json(j: &Json) -> (r: Option<TradeHistoryMsg>) {
        let symbol = j.text_field("symbol")?;
        let id = j.u64_field("id")?;
        let order_id = j.i64_field("orderId")?;
        let price = j.decimal_field("price")?;
        let qty = j.decimal_field("qty")?;
        let commission = j.decimal_field("commission")?;
        let commission_asset = j.text_field("commissionAsset")?;
        let time = j.u64_field("time")?;
        let is_buyer = j.bool_field("isBuyer")?;
        let is_maker = j.bool_field("isMaker")?;
        let is_best_match = j.bool_field("isBestMatch")?;
        Some(
            TradeHistoryMsg {
                symbol,
                id,
                order_id,
                price,
                qty,
                commission,
                commission_asset,
                time,
                is_buyer,
                is_maker,
                is_best_match,
            },
        )
    }
}

impl FromJson for PriceStatsMsg {
    open spec fn decoded_from(self, j: JsonView) -> bool {
        &&& j.text_at("symbol"@) == Some(self.symbol@)
        &&& j.decimal_at("priceChange"@) == Some(self.price_change)
        &&& j.decimal_at("priceChangePercent"@) == Some(self.price_change_percent)
        &&& j.decimal_at("weightedAvgPrice"@) == Some(self.weighted_avg_price)
        &&& j.decimal_at("prevClosePrice"@) == Some(self.prev_close_price)
        &&& j.decimal_at("lastPrice"@) == Some(self.last_price)
        &&& j.decimal_at("bidPrice"@) == Some(self.bid_price)
        &&& j.decimal_at("askPrice"@) == Some(self.ask_price)
        &&& j.decimal_at("openPrice"@) == Some(self.open_price)
        &&& j.decimal_at("highPrice"@) == Some(self.high_price)
        &&& j.decimal_at("lowPrice"@) == Some(self.low_price)
        &&& j.decimal_at("volume"@) == Some(self.volume)
        &&& j.u64_at("openTime"@) == Some(self.open_time)
        &&& j.u64_at("closeTime"@) == Some(self.close_time)
        &&& j.i64_at("firstId"@) == Some(self.first_id)
        &&& j.i64_at("lastId"@) == Some(self.last_id)
        &&& j.u64_at("count"@) == Some(self.count)
    }

    fn from_json(j: &Json) -> (r: Option<PriceStatsMsg>) {
        let symbol = j.text_field("symbol")?;
        let price_change = j.decimal_field("priceChange")?;
        let price_change_percent = j.decimal_field("priceChangePercent")?;
        let weighted_avg_price = j.decimal_field("weightedAvgPrice")?;
        let prev_close_price = j.decimal_field("prevClosePrice")?;
        let last_price = j.decimal_field("lastPrice")?;
        let bid_price = j.decimal_field("bidPrice")?;
        let ask_price = j.decimal_field("askPrice")?;
        let open_price = j.decimal_field("openPrice")?;
        let high_price = j.decimal_field("highPrice")?;
        let low_price = j.decimal_field("lowPrice")?;
        let volume = j.decimal_field("volume")?;
        let open_time = j.u64_field("openTime")?;
        let close_time = j.u64_field("closeTime")?;
        let first_id = j.i64_field("firstId")?;
        let last_id = j.i64_field("lastId")?;
        let count = j.u64_field("count")?;
        Some(
            PriceStatsMsg {
                symbol,
                price_change,
                price_change_percent,
                weighted_avg_price,
                prev_close_price,
                last_price,
                bid_price,
                ask_price,
                open_price,
                high_price,
                low_price,
                volume,
                open_time,
                close_time,
                first_id,
                last_id,
                count,
            },
        )
    }
}

impl FromJson for RateLimitMsg {
    open spec fn decoded_from(self, j: JsonView) -> bool {
        &&& j.text_at("rateLimitType"@) == Some(self.rate_limit_type.wire_name())
        &&& j.text_at("interval"@) == Some(self.interval.wire_name())
        &&& j.u64_at("intervalNum"@) == Some(self.interval_num)
        &&& j.u64_at("limit"@) == Some(self.limit)
    }

    fn from_json(j: &Json) -> (r: Option<RateLimitMsg>) {
        let rate_limit_type = RateLimitType::from_name(j.get("rateLimitType")?.as_text()?.as_str())?;
        let interval = Interval::from_name(j.get("interval")?.as_text()?.as_str())?;
        let interval_num = j.u64_field("intervalNum")?;
        let limit = j.u64_field("limit")?;
        Some(RateLimitMsg { rate_limit_type, interval, interval_num, limit })
    }
}

impl FromJson for OrderBookMsg {
    open spec fn decoded_from(self, j: JsonView) -> bool {
        &&& j.i64_at("lastUpdateId"@) == Some(self.last_update_id)
        &&& j.items_at("bids"@) matches Some(items) && each_decoded_from(self.bids@, items)
        &&& j.items_at("asks"@) matches Some(items) && each_decoded_from(self.asks@, items)
    }

    fn from_json(j: &Json) -> (r: Option<OrderBookMsg>) {
        let last_update_id = j.i64_field("lastUpdateId")?;
        let bids = list_from_json::<BidMsg>(j.items_field("bids")?)?;
        let asks = list_from_json::<AskMsg>(j.items_field("asks")?)?;
        Some(OrderBookMsg { last_update_id, bids, asks })
    }
}


/// A word of the exchange's vocabulary is written as a string.
impl FromJson for OrderType {
    open spec fn decoded_from(self, j: JsonView) -> bool {
        j.text() == Some(self.wire_name())
    }

    fn from_json(j: &Json) -> (r: Option<OrderType>) {
        OrderType::from_name(j.as_text()?.as_str())
    }
}

/// A candle is written as an array: opening time, the prices at the open, the
/// high, the low and the close, the volume, closing time, the volume in the
/// quote asset, the number of trades, and what takers bought in the base and
/// in the quote asset. Prices and volumes are strings in decimal notation.
/// What follows these eleven items carries nothing.
impl FromJson for KlineMsg {
    open spec fn decoded_from(self, j: JsonView) -> bool {
        &&& j.items() matches Some(row)
        &&& row.len() >= 11
        &&& row[0].unsigned() == Some(self.open_time)
        &&& row[1].text_decimal() == Some(self.open)
        &&& row[2].text_decimal() == Some(self.high)
        &&& row[3].text_decimal() == Some(self.low)
        &&& row[4].text_decimal() == Some(self.close)
        &&& row[5].text_decimal() == Some(self.volume)
        &&& row[6].unsigned() == Some(self.close_time)
        &&& row[7].text_decimal() == Some(self.quote_asset_volume)
        &&& row[8].unsigned() == Some(self.number_of_trades)
        &&& row[9].text_decimal() == Some(self.taker_buy_base_asset_volume)
        &&& row[10].text_decimal() == Some(self.taker_buy_quote_asset_volume)
    }

    fn from_json(j: &Json) -> (r: Option<KlineMsg>) {
        let row = j.as_items()?;
        if row.len() < 11 {
            return None;
        }
        let open_time = row[0].as_u64()?;
        let open = row[1].as_text_decimal()?;
        let high = row[2].as_text_decimal()?;
        let low = row[3].as_text_decimal()?;
        let close = row[4].as_text_decimal()?;
        let volume = row[5].as_text_decimal()?;
        let close_time = row[6].as_u64()?;
        let quote_asset_volume = row[7].as_text_decimal()?;
        let number_of_trades = row[8].as_u64()?;
        let taker_buy_base_asset_volume = row[9].as_text_decimal()?;
        let taker_buy_quote_asset_volume = row[10].as_text_decimal()?;
        Some(
            KlineMsg {
                open_time,
                open,
                high,
                low,
                close,
                volume,
                close_time,
                quote_asset_volume,
                number_of_trades,
                taker_buy_base_asset_volume,
                taker_buy_quote_asset_volume,
            },
        )
    }
}

/// Written as an object whose member `filterType` names the variant.
impl FromJson for ExchangeFilter {
    open spec fn decoded_from(self, j: JsonView) -> bool {
        match self {
            ExchangeFilter::ExchangeMaxNumOrders { limit } => {
                &&& j.text_at("filterType"@) == Some("EXCHANGE_MAX_NUM_ORDERS"@)
                &&& j.u64_at("limit"@) == Some(limit)
            },
            ExchangeFilter::ExchangeMaxAlgoOrders { limit } => {
                &&& j.text_at("filterType"@) == Some("EXCHANGE_MAX_ALGO_ORDERS"@)
                &&& j.u64_at("limit"@) == Some(limit)
            },
        }
    }

    fn from_json(j: &Json) -> (r: Option<ExchangeFilter>) {
        proof {
            reveal_strlit("EXCHANGE_MAX_NUM_ORDERS");
            reveal_strlit("EXCHANGE_MAX_ALGO_ORDERS");
            assert("EXCHANGE_MAX_NUM_ORDERS"@.len() == 23);
            assert("EXCHANGE_MAX_ALGO_ORDERS"@.len() == 24);
        }
        let tag = j.get("filterType")?.as_text()?.as_str();
        if same_text(tag, "EXCHANGE_MAX_NUM_ORDERS") {
            let limit = j.u64_field("limit")?;
            Some(ExchangeFilter::ExchangeMaxNumOrders { limit })
        } else if same_text(tag, "EXCHANGE_MAX_ALGO_ORDERS") {
            let limit = j.u64_field("limit")?;
            Some(ExchangeFilter::ExchangeMaxAlgoOrders { limit })
        } else {
            None
        }
    }
}

/// Written as an object whose member `filterType` names the variant.
impl FromJson for SymbolFilter {
    open spec fn decoded_from(self, j: JsonView) -> bool {
        match self {
            SymbolFilter::PriceFilter { min_price, max_price, tick_size } => {
                &&& j.text_at("filterType"@) == Some("PRICE_FILTER"@)
                &&& j.decimal_at("minPrice"@) == Some(min_price)
                &&& j.decimal_at("maxPrice"@) == Some(max_price)
                &&& j.decimal_at("tickSize"@) == Some(tick_size)
            },
            SymbolFilter::PercentPrice { multiplier_up, multiplier_down, avg_price_mins } => {
                &&& j.text_at("filterType"@) == Some("PERCENT_PRICE"@)
                &&& j.decimal_at("multiplierUp"@) == Some(multiplier_up)
                &&& j.decimal_at("multiplierDown"@) == Some(multiplier_down)
                &&& j.u64_at("avgPriceMins"@) == Some(avg_price_mins)
            },
            SymbolFilter::LotSize { min_qty, max_qty, step_size } => {
                &&& j.text_at("filterType"@) == Some("LOT_SIZE"@)
                &&& j.decimal_at("minQty"@) == Some(min_qty)
                &&& j.decimal_at("maxQty"@) == Some(max_qty)
                &&& j.decimal_at("stepSize"@) == Some(step_size)
            },
            SymbolFilter::MinNotional { min_notional, apply_to_market, avg_price_mins } => {
                &&& j.text_at("filterType"@) == Some("MIN_NOTIONAL"@)
                &&& j.decimal_at("minNotional"@) == Some(min_notional)
                &&& j.bool_at("applyToMarket"@) == Some(apply_to_market)
                &&& j.u64_at("avgPriceMins"@) == Some(avg_price_mins)
            },
            SymbolFilter::IcebergParts { limit } => {
                &&& j.text_at("filterType"@) == Some("ICEBERG_PARTS"@)
                &&& j.u64_at("limit"@) == Some(limit)
            },
            SymbolFilter::MarketLotSize { min_qty, max_qty, step_size } => {
                &&& j.text_at("filterType"@) == Some("MARKET_LOT_SIZE"@)
                &&& j.decimal_at("minQty"@) == Some(min_qty)
                &&& j.decimal_at("maxQty"@) == Some(max_qty)
                &&& j.decimal_at("stepSize"@) == Some(step_size)
            },
            SymbolFilter::MaxNumOrders { limit } => {
                &&& j.text_at("filterType"@) == Some("MAX_NUM_ORDERS"@)
                &&& j.u64_at("limit"@) == Some(limit)
            },
            SymbolFilter::MaxNumAlgoOrders { max_num_algo_orders } => {
                &&& j.text_at("filterType"@) == Some("MAX_NUM_ALGO_ORDERS"@)
                &&& j.u64_at("maxNumAlgoOrders"@) == Some(max_num_algo_orders)
            },
            SymbolFilter::MaxNumIcebergOrders { max_num_iceberg_orders } => {
                &&& j.text_at("filterType"@) == Some("MAX_NUM_ICEBERG_ORDERS"@)
                &&& j.u64_at("maxNumIcebergOrders"@) == Some(max_num_iceberg_orders)
            },
        }
    }

    fn from_json(j: &Json) -> (r: Option<SymbolFilter>) {
        proof {
            reveal_strlit("PRICE_FILTER");
            reveal_strlit("PERCENT_PRICE");
            reveal_strlit("LOT_SIZE");
            reveal_strlit("MIN_NOTIONAL");
            reveal_strlit("ICEBERG_PARTS");
            reveal_strlit("MARKET_LOT_SIZE");
            reveal_strlit("MAX_NUM_ORDERS");
            reveal_strlit("MAX_NUM_ALGO_ORDERS");
            reveal_strlit("MAX_NUM_ICEBERG_ORDERS");
            assert("PRICE_FILTER"@.len() == 12);
            assert("PRICE_FILTER"@[0] == 'P');
            assert("PERCENT_PRICE"@.len() == 13);
            assert("PERCENT_PRICE"@[0] == 'P');
            assert("LOT_SIZE"@.len() == 8);
            assert("MIN_NOTIONAL"@.len() == 12);
            assert("MIN_NOTIONAL"@[0] == 'M');
            assert("ICEBERG_PARTS"@.len() == 13);
            assert("ICEBERG_PARTS"@[0] == 'I');
            assert("MARKET_LOT_SIZE"@.len() == 15);
            assert("MAX_NUM_ORDERS"@.len() == 14);
            assert("MAX_NUM_ALGO_ORDERS"@.len() == 19);
            assert("MAX_NUM_ICEBERG_ORDERS"@.len() == 22);
        }
        let tag = j.get("filterType")?.as_text()?.as_str();
        if same_text(tag, "PRICE_FILTER") {
            let min_price = j.decimal_field("minPrice")?;
            let max_price = j.decimal_field("maxPrice")?;
            let tick_size = j.decimal_field("tickSize")?;
            Some(SymbolFilter::PriceFilter { min_price, max_price, tick_size })
        } else if same_text(tag, "PERCENT_PRICE") {
            let multiplier_up = j.decimal_field("multiplierUp")?;
            let multiplier_down = j.decimal_field("multiplierDown")?;
            let avg_price_mins = j.u64_field("avgPriceMins")?;
            Some(SymbolFilter::PercentPrice { multiplier_up, multiplier_down, avg_price_mins })
        } else if same_text(tag, "LOT_SIZE") {
            let min_qty = j.decimal_field("minQty")?;
            let max_qty = j.decimal_field("maxQty")?;
            let step_size = j.decimal_field("stepSize")?;
            Some(SymbolFilter::LotSize { min_qty, max_qty, step_size })
        } else if same_text(tag, "MIN_NOTIONAL") {
            let min_notional = j.decimal_field("minNotional")?;
            let apply_to_market = j.bool_field("applyToMarket")?;
            let avg_price_mins = j.u64_field("avgPriceMins")?;
            Some(SymbolFilter::MinNotional { min_notional, apply_to_market, avg_price_mins })
        } else if same_text(tag, "ICEBERG_PARTS") {
            let limit = j.u64_field("limit")?;
            Some(SymbolFilter::IcebergParts { limit })
        } else if same_text(tag, "MARKET_LOT_SIZE") {
            let min_qty = j.decimal_field("minQty")?;
            let max_qty = j.decimal_field("maxQty")?;
            let step_size = j.decimal_field("stepSize")?;
            Some(SymbolFilter::MarketLotSize { min_qty, max_qty, step_size })
        } else if same_text(tag, "MAX_NUM_ORDERS") {
            let limit = j.u64_field("limit")?;
            Some(SymbolFilter::MaxNumOrders { limit })
        } else if same_text(tag, "MAX_NUM_ALGO_ORDERS") {
            let max_num_algo_orders = j.u64_field("maxNumAlgoOrders")?;
            Some(SymbolFilter::MaxNumAlgoOrders { max_num_algo_orders })
        } else if same_text(tag, "MAX_NUM_ICEBERG_ORDERS") {
            let max_num_iceberg_orders = j.u64_field("maxNumIcebergOrders")?;
            Some(SymbolFilter::MaxNumIcebergOrders { max_num_iceberg_orders })
        } else {
            None
        }
    }
}

impl FromJson for SymbolMsg {
    open spec fn decoded_from(self, j: JsonView) -> bool {
        &&& j.text_at("symbol"@) == Some(self.symbol@)
        &&& j.text_at("status"@) == Some(self.status@)
        &&& j.text_at("baseAsset"@) == Some(self.base_asset@)
        &&& j.u64_at("baseAssetPrecision"@) == Some(self.base_asset_precision)
        &&& j.text_at("quoteAsset"@) == Some(self.quote_asset@)
        &&& j.u64_at("quotePrecision"@) == Some(self.quote_precision)
        &&& j.items_at("orderTypes"@) matches Some(items) && each_decoded_from(self.order_types@, items)
        &&& j.bool_at("icebergAllowed"@) == Some(self.iceberg_allowed)
        &&& j.items_at("filters"@) matches Some(items) && each_decoded_from(self.filters@, items)
    }

    fn from_json(j: &Json) -> (r: Option<SymbolMsg>) {
        let symbol = j.text_field("symbol")?;
        let status = j.text_field("status")?;
        let base_asset = j.text_field("baseAsset")?;
        let base_asset_precision = j.u64_field("baseAssetPrecision")?;
        let quote_asset = j.text_field("quoteAsset")?;
        let quote_precision = j.u64_field("quotePrecision")?;
        let order_types = list_from_json::<OrderType>(j.items_field("orderTypes")?)?;
        let iceberg_allowed = j.bool_field("icebergAllowed")?;
        let filters = list_from_json::<SymbolFilter>(j.items_field("filters")?)?;
        Some(
            SymbolMsg {
                symbol,
                status,
                base_asset,
                base_asset_precision,
                quote_asset,
                quote_precision,
                order_types,
                iceberg_allowed,
                filters,
            },
        )
    }
}

impl FromJson for ExchangeInfoMsg {
    open spec fn decoded_from(self, j: JsonView) -> bool {
        &&& j.text_at("timezone"@) == Some(self.timezone@)
        &&& j.u64_at("serverTime"@) == Some(self.server_time)
        &&& j.items_at("rateLimits"@) matches Some(items) && each_decoded_from(self.rate_limits@, items)
        &&& j.items_at("exchangeFilters"@) matches Some(items) && each_decoded_from(self.exchange_filters@, items)
        &&& j.items_at("symbols"@) matches Some(items) && each_decoded_from(self.symbols@, items)
    }

    fn from_json(j: &Json) -> (r: Option<ExchangeInfoMsg>) {
        let timezone = j.text_field("timezone")?;
        let server_time = j.u64_field("serverTime")?;
        let rate_limits = list_from_json::<RateLimitMsg>(j.items_field("rateLimits")?)?;
        let exchange_filters = list_from_json::<ExchangeFilter>(j.items_field("exchangeFilters")?)?;
        let symbols = list_from_json::<SymbolMsg>(j.items_field("symbols")?)?;
        Some(ExchangeInfoMsg { timezone, server_time, rate_limits, exchange_filters, symbols })
    }
}

} // verus!
