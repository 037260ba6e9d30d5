//! The fixed local endpoints of the bridge.

use crate::text::{decimal, push_decimal};
use vstd::prelude::*;

verus! {

/// The port that the HTTP side listens on.
pub const HTTP_PORT: u16 = 8010;

/// The port of the speech engine, to which the outbound sender connects.
pub const SEND_PORT: u16 = 39999;

/// The port on which the inbound listener takes messages of the speech engine.
pub const RECEIVE_PORT: u16 = 39998;

/// The address of a port of this machine, as text: `127.0.0.1:` and the port
/// in decimal.
pub open spec fn local_address_of(port: u16) -> Seq<char> {
    "127.0.0.1:"@ + decimal(port as nat)
}

/// The address of a port of this machine, as text.
pub fn local_address(port: u16) -> (address: String)
    ensures
        address@ == local_address_of(port),
{
    let mut address = "127.0.0.1:".to_owned();
    push_decimal(&mut address, port);
    address
}

} // verus!
