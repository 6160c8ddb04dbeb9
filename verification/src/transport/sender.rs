//! The sending end: framing a payload and counting what was sent.
//!
//! A sender owns a sequence counter. Each message takes the present value
//! of the counter in its header and moves the counter on by one, from
//! 65535 back to 0. The sender does not own the socket: a send hands back
//! the datagram, and the caller puts it on the wire for the sender's group
//! and port.

use vstd::prelude::*;
use vstd::string::StringSliceAdditionalSpecFns;

use crate::transport::clock::timestamp_now;
use crate::transport::header::{FleetMsgHeader, HEADER_SIZE};
use crate::transport::message_type::MessageType;

verus! {

/// What a sender is, as contracts see it.
pub struct SenderState {
    /// The four octets of the multicast group the sender sends to.
    pub group: [u8; 4],
    /// The UDP port the sender sends to.
    pub port: u16,
    /// The identifier that every header of this sender carries.
    pub sender_id: u32,
    /// The sequence number of the next message.
    pub sequence: u16,
}

impl SenderState {
    /// The payload length that a header announces for `payload`: its
    /// length, reduced to sixteen bits.
    pub open spec fn announced_len(payload: Seq<u8>) -> u16 {
        (payload.len() % 0x1_0000) as u16
    }

    /// The header of the next message, if it is sent at `timestamp`.
    pub open spec fn next_header(
        self,
        msg_type: MessageType,
        payload: Seq<u8>,
        timestamp: u64,
    ) -> FleetMsgHeader {
        FleetMsgHeader::assemble(
            msg_type,
            self.sender_id,
            self.sequence,
            Self::announced_len(payload),
            timestamp,
        )
    }

    /// The datagram of the next message, if it is sent at `timestamp`: the
    /// header's wire bytes, then the payload.
    pub open spec fn next_datagram(
        self,
        msg_type: MessageType,
        payload: Seq<u8>,
        timestamp: u64,
    ) -> Seq<u8> {
        self.next_header(msg_type, payload, timestamp).wire_bytes() + payload
    }

    /// The sender after one message: the counter moved on by one, wrapping
    /// from 65535 to 0, and nothing else changed.
    pub open spec fn advance(self) -> SenderState {
        SenderState { sequence: ((self.sequence + 1) % 0x1_0000) as u16, ..self }
    }

    /// The sender after `count` messages.
    pub open spec fn after_sends(self, count: nat) -> SenderState
        decreases count,
    {
        if count == 0 {
            self
        } else {
            self.after_sends((count - 1) as nat).advance()
        }
    }
}

/// The sending end of a fleet link.
pub struct MulticastSender {
    group: [u8; 4],
    port: u16,
    sender_id: u32,
    sequence: u16,
}

impl View for MulticastSender {
    type V = SenderState;

    closed spec fn view(&self) -> SenderState {
        SenderState {
            group: self.group,
            port: self.port,
            sender_id: self.sender_id,
            sequence: self.sequence,
        }
    }
}

impl MulticastSender {
    /// A sender for `group` and `port` that signs its messages with
    /// `sender_id`. Its first message has sequence number 0.
    pub fn new(group: [u8; 4], port: u16, sender_id: u32) -> (sender: Self)
        ensures
            sender@ == (SenderState { group, port, sender_id, sequence: 0 }),
    {
        MulticastSender { group, port, sender_id, sequence: 0 }
    }

    /// Frames `payload` as a message of kind `msg_type` created at
    /// `timestamp`, and counts it as sent.
    ///
    /// The header announces the payload's length reduced to sixteen bits; a
    /// payload of 65536 bytes or more is framed whole, and no receiver
    /// accepts the datagram.
    pub fn send_message_at(
        &mut self,
        msg_type: MessageType,
        payload: &[u8],
        timestamp: u64,
    ) -> (datagram: Vec<u8>)
        ensures
            datagram@ == old(self)@.next_datagram(msg_type, payload@, timestamp),
            datagram@.len() == HEADER_SIZE + payload@.len(),
            final(self)@ == old(self)@.advance(),
    {
        let header = FleetMsgHeader::with_timestamp(
            msg_type,
            self.sender_id,
            self.sequence,
            (payload.len() % 0x1_0000) as u16,
            timestamp,
        );
        self.sequence = self.sequence.wrapping_add(1);
        let mut datagram = header.to_bytes();
        datagram.extend_from_slice(payload);
        datagram
    }

    /// Frames `payload` as a message of kind `msg_type` created now, and
    /// counts it as sent.
    ///
    /// The datagram is the one that [`MulticastSender::send_message_at`]
    /// gives for the time that the system clock reads, which is the
    /// timestamp in the datagram's header.
    pub fn send_message(&mut self, msg_type: MessageType, payload: &[u8]) -> (datagram: Vec<u8>)
        ensures
            datagram@ == old(self)@.next_datagram(
                msg_type,
                payload@,
                FleetMsgHeader::from_wire(datagram@).timestamp,
            ),
            datagram@.len() == HEADER_SIZE + payload@.len(),
            final(self)@ == old(self)@.advance(),
    {
        let timestamp = timestamp_now();
        let datagram = self.send_message_at(msg_type, payload, timestamp);
        proof {
            let header = old(self)@.next_header(msg_type, payload@, timestamp);
            header.lemma_read_after_write();
            FleetMsgHeader::lemma_from_wire_reads_prefix(header.wire_bytes(), payload@);
        }
        datagram
    }

    /// Frames a heartbeat, which has no payload, and counts it as sent.
    pub fn send_heartbeat(&mut self) -> (datagram: Vec<u8>)
        ensures
            datagram@ == old(self)@.next_datagram(
                MessageType::Heartbeat,
                Seq::<u8>::empty(),
                FleetMsgHeader::from_wire(datagram@).timestamp,
            ),
            datagram@.len() == HEADER_SIZE,
            final(self)@ == old(self)@.advance(),
    {
        self.send_message(MessageType::Heartbeat, &[])
    }

    /// Frames `data` as a data message and counts it as sent.
    pub fn send_data(&mut self, data: &[u8]) -> (datagram: Vec<u8>)
        ensures
            datagram@ == old(self)@.next_datagram(
                MessageType::Data,
                data@,
                FleetMsgHeader::from_wire(datagram@).timestamp,
            ),
            datagram@.len() == HEADER_SIZE + data@.len(),
            final(self)@ == old(self)@.advance(),
    {
        self.send_message(MessageType::Data, data)
    }

    /// Frames the UTF-8 bytes of `command` as a control message and counts
    /// it as sent.
    pub fn send_control(&mut self, command: &str) -> (datagram: Vec<u8>)
        ensures
            datagram@ == old(self)@.next_datagram(
                MessageType::Control,
                command.spec_bytes(),
                FleetMsgHeader::from_wire(datagram@).timestamp,
            ),
            datagram@.len() == HEADER_SIZE + command.spec_bytes().len(),
            final(self)@ == old(self)@.advance(),
    {
        self.send_message(MessageType::Control, command.as_bytes())
    }

    /// The four octets of the multicast group this sender sends to.
    pub fn group(&self) -> (group: [u8; 4])
        ensures
            group == self@.group,
    {
        self.group
    }

    /// The UDP port this sender sends to.
    pub fn port(&self) -> (port: u16)
        ensures
            port == self@.port,
    {
        self.port
    }

    /// The identifier that every header of this sender carries.
    pub fn sender_id(&self) -> (sender_id: u32)
        ensures
            sender_id == self@.sender_id,
    {
        self.sender_id
    }

    /// The sequence number that the next message will carry.
    pub fn sequence(&self) -> (sequence: u16)
        ensures
            sequence == self@.sequence,
    {
        self.sequence
    }
}

} // verus!
