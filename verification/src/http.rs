//! Local service addresses and the outcome of one HTTP exchange, as the
//! library receives it from whoever performed the request.

use crate::text::decimal;
use crate::text::push_decimal;
use vstd::prelude::*;
use vstd::string::*;

verus! {

/// How an HTTP request ended.
pub enum HttpReply {
    /// A success status.
    Done,
    /// An error status, with the response body (empty if unreadable).
    Status(u16, String),
    /// No response: the transport failed, with its error text.
    Failed(String),
}

/// `http://127.0.0.1:<port>`, the loopback address of a local service.
pub open spec fn loopback(port: u16) -> Seq<char> {
    "http://127.0.0.1:"@ + decimal(port as nat)
}

/// `http://127.0.0.1:<port>`, the loopback address of a local service.
pub fn loopback_url(port: u16) -> (r: String)
    ensures
        r@ == loopback(port),
{
    let mut r = String::from_str("http://127.0.0.1:");
    push_decimal(&mut r, port as u64);
    r
}

} // verus!
