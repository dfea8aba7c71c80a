//! What can go wrong on a feed, on opening it, and on pulling from none.

use crate::model::websocket::BinanceSubscription;
use vstd::prelude::*;

verus! {

/// A connection for a feed could not be opened.
#[derive(Debug, Clone)]
pub struct ConnectionError {
    /// The feed that was to be opened.
    pub subscription: BinanceSubscription,
    /// Why it could not.
    pub reason: String,
}

/// A text frame that is not what its feed carries.
#[derive(Debug, Clone)]
pub struct DecodeError {
    /// The frame's text, as it came.
    pub payload: String,
}

/// A feed has ended, and is no longer subscribed to.
#[derive(Debug, Clone)]
pub struct Disconnect {
    /// The feed that ended.
    pub subscription: BinanceSubscription,
    /// The failure that ended it; none where the exchange closed it in order.
    pub reason: Option<String>,
    /// Whether this was the last feed subscribed to.
    pub all_closed: bool,
}

/// Every failure that subscribing or pulling can report.
#[derive(Debug, Clone)]
pub enum BinanceError {
    /// An event was asked for while no feed was subscribed to.
    NoStreamSubscribed,
    Connection(ConnectionError),
    Decode(DecodeError),
    Disconnected(Disconnect),
}

/// A result whose failure is a [`BinanceError`].
pub type Result<T> = std::result::Result<T, BinanceError>;

} // verus!
