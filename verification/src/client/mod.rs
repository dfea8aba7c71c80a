//! The client: which request each call of the exchange's interface makes, how
//! its answer is read, and the multiplexer of feeds.
//!
//! Nothing here sends or receives. A call is a [`Request`] to be sent by
//! whoever holds the connection, and an answer is text to be read.

pub mod general;
pub mod market;
pub mod merge;
pub mod userstream;
pub mod websocket;

use crate::client::websocket::{BinanceWebsocket, WS_URL};
use crate::error::{BinanceError, DecodeError};
use crate::json::{each_decoded_from, json_document, list_from_json, FromJson, Json};
use crate::model::websocket::Feed;
use vstd::prelude::*;
use vstd::string::*;

verus! {

/// How a request is made.
#[derive(Debug, Clone, Copy, PartialEq, Eq, Structural)]
pub enum Method {
    Get,
    Post,
    Put,
    Delete,
}

/// One call of the exchange's interface: the method, the path, and the
/// parameters in the order in which they were given.
#[derive(Debug, Clone)]
pub struct Request {
    pub method: Method,
    pub path: String,
    pub params: Vec<(String, String)>,
}

/// A request as a mathematical value.
pub struct RequestView {
    pub method: Method,
    pub path: Seq<char>,
    pub params: Seq<(Seq<char>, Seq<char>)>,
}

impl View for Request {
    type V = RequestView;

    open spec fn view(&self) -> RequestView {
        RequestView {
            method: self.method,
            path: self.path@,
            params: self.params@.map_values(|p: (String, String)| (p.0@, p.1@)),
        }
    }
}

impl Request {
    /// A request without parameters.
    pub fn new(method: Method, path: &str) -> (r: Request)
        ensures
            r@ == (RequestView { method, path: path@, params: Seq::empty() }),
    {
        let r = Request { method, path: String::from_str(path), params: Vec::new() };
        assert(r@.params =~= Seq::empty());
        r
    }

    /// Adds the parameter `name` with the value `value`, after those given
    /// before.
    pub fn param(&mut self, name: &str, value: String)
        ensures
            final(self)@ == (RequestView { params: old(self)@.params.push((name@, value@)), ..old(self)@ }),
    {
        self.params.push((String::from_str(name), value));
        assert(self@.params =~= old(self)@.params.push((name@, value@)));
    }
}

/// The entry to the exchange's interface.
#[derive(Debug, Clone)]
pub struct Binance {
    /// The address under which the feeds are served.
    pub stream_endpoint: String,
}

impl Binance {
    /// A client of the exchange at its public address.
    pub fn new() -> (r: Binance)
        ensures
            r.stream_endpoint@ == WS_URL@,
    {
        Binance { stream_endpoint: String::from_str(WS_URL) }
    }

    /// A client whose feeds are served under `stream_endpoint`.
    pub fn with_stream_endpoint(stream_endpoint: &str) -> (r: Binance)
        ensures
            r.stream_endpoint@ == stream_endpoint@,
    {
        Binance { stream_endpoint: String::from_str(stream_endpoint) }
    }

    /// A multiplexer of feeds without subscriptions, for connections of type
    /// `S`.
    pub fn websocket<S>(&self) -> (r: BinanceWebsocket<S>)
        ensures
            r.wf(),
            r.entries() == Seq::<(Feed, S)>::empty(),
            r.cursor() == 0,
            r.endpoint() == self.stream_endpoint@,
    {
        BinanceWebsocket::new(self.stream_endpoint.as_str())
    }
}

/// Whether `outcome` is what the answer `body` holds, read as a `T`: the value
/// that the document describes, or the failure that keeps the text where it
/// is no document or describes no `T`.
pub open spec fn answer_of<T: FromJson>(body: Seq<char>, outcome: Result<T, BinanceError>) -> bool {
    match outcome {
        Ok(value) => json_document(body) matches Some(j) && value.decoded_from(j),
        Err(error) => {
            &&& error matches BinanceError::Decode(failure) && failure.payload@ == body
            &&& json_document(body) matches Some(j) ==> forall|value: T| !value.decoded_from(j)
        },
    }
}

/// Whether `outcome` is what the answer `body` holds, read as a list of `T`.
pub open spec fn answers_of<T: FromJson>(body: Seq<char>, outcome: Result<Vec<T>, BinanceError>) -> bool {
    match outcome {
        Ok(list) => json_document(body) matches Some(j) && j.items() matches Some(items) && each_decoded_from(
            list@,
            items,
        ),
        Err(error) => {
            &&& error matches BinanceError::Decode(failure) && failure.payload@ == body
            &&& json_document(body) matches Some(j) ==> (j.items() matches Some(items) ==> forall|list: Seq<T>|
                !each_decoded_from(list, items))
        },
    }
}

/// Reads an answer of the exchange as a `T`.
pub fn read_answer<T: FromJson>(body: &str) -> (r: Result<T, BinanceError>)
    ensures
        answer_of(body@, r),
{
    let read = match Json::parse(body) {
        Some(j) => T::from_json(&j),
        None => None,
    };
    match read {
        Some(value) => Ok(value),
        None => Err(BinanceError::Decode(DecodeError { payload: String::from_str(body) })),
    }
}

/// Reads an answer of the exchange as a list of `T`.
pub fn read_answers<T: FromJson>(body: &str) -> (r: Result<Vec<T>, BinanceError>)
    ensures
        answers_of(body@, r),
{
    let read = match Json::parse(body) {
        Some(j) => match j.as_items() {
            Some(items) => list_from_json::<T>(items),
            None => None,
        },
        None => None,
    };
    match read {
        Some(list) => Ok(list),
        None => Err(BinanceError::Decode(DecodeError { payload: String::from_str(body) })),
    }
}

} // verus!
