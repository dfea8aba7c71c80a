//! Calls that concern the exchange as a whole.

use crate::client::{Binance, Method, Request, RequestView};
use crate::error::{BinanceError, DecodeError};
use crate::json::{json_document, Json};
use vstd::prelude::*;
use vstd::string::*;

verus! {

/// What a successful test of the connection is answered with.
pub const PONG: &'static str = "pong";

impl Binance {
    /// Tests the connection.
    pub fn ping(&self) -> (r: Request)
        ensures
            r@ == (RequestView { method: Method::Get, path: "/api/v1/ping"@, params: Seq::empty() }),
    {
        Request::new(Method::Get, "/api/v1/ping")
    }

    /// Reads the answer to [`Binance::ping`]: any document will do.
    pub fn pong(body: &str) -> (r: Result<String, BinanceError>)
        ensures
            match r {
                Ok(word) => json_document(body@) is Some && word@ == PONG@,
                Err(error) => {
                    &&& json_document(body@) is None
                    &&& error matches BinanceError::Decode(failure) && failure.payload@ == body@
                },
            },
    {
        match Json::parse(body) {
            Some(_) => Ok(String::from_str(PONG)),
            None => Err(BinanceError::Decode(DecodeError { payload: String::from_str(body) })),
        }
    }

    /// Asks for the exchange's time; the answer is a `ServerTimeMsg`.
    pub fn get_server_time(&self) -> (r: Request)
        ensures
            r@ == (RequestView { method: Method::Get, path: "/api/v1/time"@, params: Seq::empty() }),
    {
        Request::new(Method::Get, "/api/v1/time")
    }

    /// Asks for the trading rules and the symbols; the answer is an
    /// `ExchangeInfoMsg`.
    pub fn get_exchange_info(&self) -> (r: Request)
        ensures
            r@ == (RequestView { method: Method::Get, path: "/api/v1/exchangeInfo"@, params: Seq::empty() }),
    {
        Request::new(Method::Get, "/api/v1/exchangeInfo")
    }
}

} // verus!
