//! The receiving end: what becomes of one datagram.
//!
//! A receiver blocks on its socket, takes one datagram, and decides with
//! [`process_datagram`] whether the datagram is a message for the handler or
//! is dropped, and why. Either way it goes back to its socket: no datagram,
//! however malformed, ends the loop.

use vstd::prelude::*;
use vstd::slice::slice_to_vec;

use crate::transport::header::{FleetMsgHeader, HEADER_SIZE};

verus! {

/// The size of the buffer a receiver reads a datagram into: one Ethernet
/// frame. What a longer datagram holds beyond it is lost.
pub const RX_BUFFER_SIZE: usize = 1500;

/// Why a datagram was dropped.
#[derive(Debug, Clone, Copy, PartialEq, Eq, Structural)]
pub enum RxError {
    /// The datagram is shorter than a header.
    PacketTooSmall,
    /// The header has the wrong magic, the wrong version or the wrong
    /// checksum.
    InvalidHeader,
    /// The header is valid but announces another number of payload bytes
    /// than the datagram holds.
    PayloadLengthMismatch {
        /// The length that the header announces.
        expected: u16,
        /// The number of bytes that follow the header.
        actual: usize,
    },
}

/// What a receiver makes of `datagram`: the header and payload to hand on,
/// or the reason to drop it.
///
/// The length is looked at first, then the header, then the announced
/// payload length. A datagram that fails one test is not put to the next.
pub open spec fn accept(datagram: Seq<u8>) -> Result<(FleetMsgHeader, Seq<u8>), RxError> {
    if datagram.len() < HEADER_SIZE {
        Err(RxError::PacketTooSmall)
    } else {
        let header = FleetMsgHeader::from_wire(datagram);
        let payload = datagram.subrange(HEADER_SIZE as int, datagram.len() as int);
        if !header.spec_is_valid() {
            Err(RxError::InvalidHeader)
        } else if payload.len() != header.payload_len {
            Err(
                RxError::PayloadLengthMismatch {
                    expected: header.payload_len,
                    actual: payload.len() as usize,
                },
            )
        } else {
            Ok((header, payload))
        }
    }
}

/// Decides what becomes of one received datagram.
///
/// Gives the header and a copy of the payload when the datagram is a
/// well-formed message, and else the reason to drop it.
pub fn process_datagram(datagram: &[u8]) -> (outcome: Result<(FleetMsgHeader, Vec<u8>), RxError>)
    ensures
        match outcome {
            Ok((header, payload)) => accept(datagram@) == Ok::<_, RxError>((header, payload@)),
            Err(reason) => accept(datagram@) == Err::<(FleetMsgHeader, Seq<u8>), _>(reason),
        },
        datagram@.len() < HEADER_SIZE ==> outcome == Err::<(FleetMsgHeader, Vec<u8>), _>(
            RxError::PacketTooSmall,
        ),
        datagram@.len() >= HEADER_SIZE && datagram@.len() - HEADER_SIZE != FleetMsgHeader::from_wire(
            datagram@,
        ).payload_len ==> outcome is Err,
{
    match FleetMsgHeader::read_from_prefix(datagram) {
        None => Err(RxError::PacketTooSmall),
        Some(header) => {
            if !header.is_valid() {
                return Err(RxError::InvalidHeader);
            }
            let len = datagram.len();
            let actual = len - HEADER_SIZE;
            if actual != header.payload_len as usize {
                return Err(
                    RxError::PayloadLengthMismatch { expected: header.payload_len, actual },
                );
            }
            Ok((header, slice_to_vec(&datagram[HEADER_SIZE..len])))
        },
    }
}

} // verus!
