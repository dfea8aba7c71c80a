//! Calls that open, keep and close the session of a user's feed.

use crate::client::{Binance, Method, Request, RequestView};
use vstd::prelude::*;
use vstd::string::*;

verus! {

/// The path of the calls on a user's feed.
pub const USER_DATA_STREAM: &'static str = "/api/v1/userDataStream";

impl Binance {
    /// Opens a session; the answer is a `UserDataStreamMsg` with the listen
    /// key.
    pub fn user_stream_start(&self) -> (r: Request)
        ensures
            r@ == (RequestView { method: Method::Post, path: USER_DATA_STREAM@, params: Seq::empty() }),
    {
        Request::new(Method::Post, USER_DATA_STREAM)
    }

    /// Keeps the session of `listen_key` open.
    pub fn user_stream_keep_alive(&self, listen_key: &str) -> (r: Request)
        ensures
            r@ == (RequestView {
                method: Method::Put,
                path: USER_DATA_STREAM@,
                params: seq![("listen_key"@, listen_key@)],
            }),
    {
        let mut r = Request::new(Method::Put, USER_DATA_STREAM);
        r.param("listen_key", String::from_str(listen_key));
        assert(r@.params =~= seq![("listen_key"@, listen_key@)]);
        r
    }

    /// Closes the session of `listen_key`.
    pub fn user_stream_close(&self, listen_key: &str) -> (r: Request)
        ensures
            r@ == (RequestView {
                method: Method::Delete,
                path: USER_DATA_STREAM@,
                params: seq![("listen_key"@, listen_key@)],
            }),
    {
        let mut r = Request::new(Method::Delete, USER_DATA_STREAM);
        r.param("listen_key", String::from_str(listen_key));
        assert(r@.params =~= seq![("listen_key"@, listen_key@)]);
        r
    }
}

} // verus!
