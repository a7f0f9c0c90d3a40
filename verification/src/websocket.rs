//! The network-backed event source's identity, and its reconnect policy.
//!
//! The connection itself — the websocket transport, its read loop and the
//! sleeps between attempts — runs outside the library; what is verified
//! here is the policy: the backoff delay starts at one unit, doubles per
//! consecutive failure, is capped, and resets after a successful
//! connection.  Malformed payloads are dropped by handing the text to
//! [`crate::json::parse_json`], which yields nothing for them.

use vstd::prelude::*;

verus! {

/// The delay before a first reconnect attempt, in seconds.
pub const INITIAL_BACKOFF_SECS: u64 = 1;

/// The largest delay between reconnect attempts, in seconds.
pub const MAX_BACKOFF_SECS: u64 = 30;

/// A named websocket endpoint to read JSON events from.
pub struct WebSocketSource {
    /// Label used when reporting about this source.
    pub name: String,
    /// The endpoint's URL.
    pub url: String,
}

impl WebSocketSource {
    pub fn new(name: &str, url: &str) -> (r: WebSocketSource)
        ensures
            r.name@ == name@,
            r.url@ == url@,
    {
        WebSocketSource { name: name.to_owned(), url: url.to_owned() }
    }
}

/// The delay after one more consecutive connection failure: double the
/// current delay, capped.
pub fn next_backoff(current_secs: u64) -> (r: u64)
    requires
        INITIAL_BACKOFF_SECS <= current_secs <= MAX_BACKOFF_SECS,
    ensures
        r == (if 2 * current_secs <= MAX_BACKOFF_SECS {
            2 * current_secs
        } else {
            MAX_BACKOFF_SECS as int
        }),
        INITIAL_BACKOFF_SECS <= r <= MAX_BACKOFF_SECS,
        r >= current_secs,
{
    if current_secs <= MAX_BACKOFF_SECS / 2 {
        2 * current_secs
    } else {
        MAX_BACKOFF_SECS
    }
}

} // verus!
