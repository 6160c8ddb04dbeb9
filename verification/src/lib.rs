//! Framed messaging for a fleet of peers that talk over IPv4 UDP multicast.
//!
//! The library holds the wire format and the rules of the two ends: how a
//! sender frames a payload and counts its messages, and what a receiver
//! makes of a datagram. Sockets are the caller's: a sender hands back the
//! datagram to transmit, and a receiver is handed the datagram that came in.

use vstd::prelude::*;

pub mod transport;

pub use transport::{
    process_datagram, FleetMsgHeader, MessageType, MulticastSender, RxError, SenderState,
    HEADER_SIZE, MAGIC, RX_BUFFER_SIZE, VERSION,
};

verus! {

/// Adds two counters.
///
/// The sum has to fit in a `u64`.
pub fn add(left: u64, right: u64) -> (sum: u64)
    requires
        left + right <= u64::MAX,
    ensures
        sum == left + right,
{
    left + right
}

} // verus!
