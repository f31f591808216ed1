//! LAN address text for building the reader-facing service URLs. Asking the
//! system for its address happens outside the library.

use crate::text::decimal;
use crate::text::push_char;
use crate::text::push_decimal;
use vstd::prelude::*;
use vstd::string::*;

verus! {

/// Dotted-decimal text of an IPv4 address.
pub open spec fn dotted(o: [u8; 4]) -> Seq<char> {
    decimal(o[0] as nat) + seq!['.'] + decimal(o[1] as nat) + seq!['.'] + decimal(o[2] as nat)
        + seq!['.'] + decimal(o[3] as nat)
}

/// The address shown for what discovery found: the IPv4 address in dotted
/// decimal, or `127.0.0.1` when none was found.
pub open spec fn lan_text(found: Option<[u8; 4]>) -> Seq<char> {
    match found {
        Some(o) => dotted(o),
        None => "127.0.0.1"@,
    }
}

/// The address shown for what discovery found (see [`lan_text`]).
pub fn lan_ip_text(found: Option<[u8; 4]>) -> (r: String)
    ensures
        r@ == lan_text(found),
{
    match found {
        Some(o) => {
            let mut r = String::new();
            push_decimal(&mut r, o[0] as u64);
            push_char(&mut r, '.');
            push_decimal(&mut r, o[1] as u64);
            push_char(&mut r, '.');
            push_decimal(&mut r, o[2] as u64);
            push_char(&mut r, '.');
            push_decimal(&mut r, o[3] as u64);
            r
        },
        None => String::from_str("127.0.0.1"),
    }
}

} // verus!
