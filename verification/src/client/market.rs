//! Calls for market data.

use crate::client::{Binance, Method, Request, RequestView};
use crate::text::{decimal_digits, u64_to_text};
use vstd::prelude::*;
use vstd::string::*;

verus! {

/// The number of levels asked for where the caller names none.
pub const DEFAULT_DEPTH: u64 = 100;

/// The number of levels to ask for: the caller's, or the default.
pub open spec fn depth_or_default(limit: Option<u64>) -> u64 {
    match limit {
        Some(n) => n,
        None => DEFAULT_DEPTH,
    }
}

/// The parameter `name` with the number `value`, where one was given.
pub open spec fn optional_param(name: Seq<char>, value: Option<u64>) -> Seq<(Seq<char>, Seq<char>)> {
    match value {
        Some(n) => seq![(name, decimal_digits(n as nat))],
        None => Seq::empty(),
    }
}

/// A request for `path` about one symbol.
fn about_symbol(path: &str, symbol: &str) -> (r: Request)
    ensures
        r@ == (RequestView { method: Method::Get, path: path@, params: seq![("symbol"@, symbol@)] }),
{
    let mut r = Request::new(Method::Get, path);
    r.param("symbol", String::from_str(symbol));
    assert(r@.params =~= seq![("symbol"@, symbol@)]);
    r
}

impl Binance {
    /// Asks for the order book of `symbol`, `limit` levels deep, or 100 where
    /// no limit is given; the answer is an `OrderBookMsg`.
    pub fn get_depth(&self, symbol: &str, limit: Option<u64>) -> (r: Request)
        ensures
            r@ == (RequestView {
                method: Method::Get,
                path: "/api/v1/depth"@,
                params: seq![("symbol"@, symbol@), ("limit"@, decimal_digits(depth_or_default(limit) as nat))],
            }),
    {
        let levels = match limit {
            Some(n) => n,
            None => DEFAULT_DEPTH,
        };
        let mut r = about_symbol("/api/v1/depth", symbol);
        r.param("limit", u64_to_text(levels));
        assert(r@.params =~= seq![("symbol"@, symbol@), ("limit"@, decimal_digits(levels as nat))]);
        r
    }

    /// Asks for the latest price of `symbol`; the answer is a `PriceMsg`.
    pub fn get_price(&self, symbol: &str) -> (r: Request)
        ensures
            r@ == (RequestView {
                method: Method::Get,
                path: "/api/v3/ticker/price"@,
                params: seq![("symbol"@, symbol@)],
            }),
    {
        about_symbol("/api/v3/ticker/price", symbol)
    }

    /// Asks for the latest price of every symbol; the answer is a list of
    /// `PriceMsg`.
    pub fn get_price_all(&self) -> (r: Request)
        ensures
            r@ == (RequestView { method: Method::Get, path: "/api/v3/ticker/price"@, params: Seq::empty() }),
    {
        Request::new(Method::Get, "/api/v3/ticker/price")
    }

    /// Asks for the best bid and ask of `symbol`; the answer is a
    /// `TickerMsg`.
    pub fn get_book_ticker(&self, symbol: &str) -> (r: Request)
        ensures
            r@ == (RequestView {
                method: Method::Get,
                path: "/api/v3/ticker/bookTicker"@,
                params: seq![("symbol"@, symbol@)],
            }),
    {
        about_symbol("/api/v3/ticker/bookTicker", symbol)
    }

    /// Asks for the best bid and ask of every symbol; the answer is a list of
    /// `TickerMsg`.
    pub fn get_book_ticker_all(&self) -> (r: Request)
        ensures
            r@ == (RequestView {
                method: Method::Get,
                path: "/api/v3/ticker/bookTicker"@,
                params: Seq::empty(),
            }),
    {
        Request::new(Method::Get, "/api/v3/ticker/bookTicker")
    }

    /// Asks for the statistics of `symbol` over the last 24 hours; the answer
    /// is a `PriceStatsMsg`.
    pub fn get_24h_price_stats(&self, symbol: &str) -> (r: Request)
        ensures
            r@ == (RequestView {
                method: Method::Get,
                path: "/api/v1/ticker/24hr"@,
                params: seq![("symbol"@, symbol@)],
            }),
    {
        about_symbol("/api/v1/ticker/24hr", symbol)
    }

    /// Asks for the statistics of every symbol over the last 24 hours; the
    /// answer is a list of `PriceStatsMsg`.
    pub fn get_24h_price_stats_all(&self) -> (r: Request)
        ensures
            r@ == (RequestView { method: Method::Get, path: "/api/v1/ticker/24hr"@, params: Seq::empty() }),
    {
        Request::new(Method::Get, "/api/v1/ticker/24hr")
    }

    /// Asks for the candles of `symbol` at `interval`: at most `limit` of
    /// them, from `start_time` to `end_time`, each of the three where it is
    /// given. The answer is a list of `KlineMsg`.
    pub fn get_klines(
        &self,
        symbol: &str,
        interval: &str,
        limit: Option<u64>,
        start_time: Option<u64>,
        end_time: Option<u64>,
    ) -> (r: Request)
        ensures
            r@ == (RequestView {
                method: Method::Get,
                path: "/api/v1/klines"@,
                params: seq![("symbol"@, symbol@), ("interval"@, interval@)] + optional_param(
                    "limit"@,
                    limit,
                ) + optional_param("startTime"@, start_time) + optional_param("endTime"@, end_time),
            }),
    {
        let mut r = about_symbol("/api/v1/klines", symbol);
        r.param("interval", String::from_str(interval));
        let ghost named = seq![("symbol"@, symbol@), ("interval"@, interval@)];
        assert(r@.params =~= named);
        if let Some(n) = limit {
            r.param("limit", u64_to_text(n));
        }
        assert(r@.params =~= named + optional_param("limit"@, limit));
        if let Some(n) = start_time {
            r.param("startTime", u64_to_text(n));
        }
        assert(r@.params =~= named + optional_param("limit"@, limit) + optional_param(
            "startTime"@,
            start_time,
        ));
        if let Some(n) = end_time {
            r.param("endTime", u64_to_text(n));
        }
        assert(r@.params =~= named + optional_param("limit"@, limit) + optional_param(
            "startTime"@,
            start_time,
        ) + optional_param("endTime"@, end_time));
        r
    }
}

} // verus!
