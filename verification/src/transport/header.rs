//! The fixed header that precedes every payload.
//!
//! A header is 24 bytes on the wire, every multi-byte field least
//! significant byte first:
//!
//! | offset | size | field       |
//! |--------|------|-------------|
//! | 0      | 4    | magic       |
//! | 4      | 1    | version     |
//! | 5      | 1    | msg_type    |
//! | 6      | 2    | sequence    |
//! | 8      | 8    | timestamp   |
//! | 16     | 4    | sender_id   |
//! | 20     | 2    | payload_len |
//! | 22     | 2    | checksum    |

use vstd::prelude::*;

use crate::transport::checksum::{checksum, checksum_of};
use crate::transport::clock::timestamp_now;
use crate::transport::message_type::MessageType;
use crate::transport::wire::{
    get_le, le_bytes, le_value, lemma_le_bytes_len, lemma_le_bytes_of_value, lemma_le_value_bound,
    lemma_le_value_of_bytes, lemma_radix_pow_values, put_le,
};

verus! {

/// The number of bytes a header takes on the wire.
pub const HEADER_SIZE: usize = 24;

/// Where the checksum field starts; the checksum covers every byte before it.
pub const CHECKSUM_OFFSET: usize = 22;

/// The sentinel that opens every header of this protocol.
pub const MAGIC: u32 = 0xFEED;

/// The one protocol version that this library speaks.
pub const VERSION: u8 = 1;

/// The header of a fleet message.
#[derive(Debug, Clone, Copy, PartialEq, Eq, Structural)]
pub struct FleetMsgHeader {
    /// Protocol sentinel; [`MAGIC`] in every valid header.
    pub magic: u32,
    /// Protocol version; [`VERSION`] in every valid header.
    pub version: u8,
    /// The wire byte of the message kind.
    pub msg_type: u8,
    /// The sender's counter at the time of sending.
    pub sequence: u16,
    /// Milliseconds since the Unix epoch at creation.
    pub timestamp: u64,
    /// Who sent the message.
    pub sender_id: u32,
    /// How many payload bytes follow the header.
    pub payload_len: u16,
    /// The sum of the 22 bytes before this field, reduced to sixteen bits.
    pub checksum: u16,
}

impl FleetMsgHeader {
    /// The 24 bytes that stand for this header on the wire.
    pub open spec fn wire_bytes(self) -> Seq<u8> {
        le_bytes(self.magic as nat, 4) + seq![self.version, self.msg_type] + le_bytes(
            self.sequence as nat,
            2,
        ) + le_bytes(self.timestamp as nat, 8) + le_bytes(self.sender_id as nat, 4) + le_bytes(
            self.payload_len as nat,
            2,
        ) + le_bytes(self.checksum as nat, 2)
    }

    /// The header that the first 24 of `bytes` stand for.
    pub open spec fn from_wire(bytes: Seq<u8>) -> FleetMsgHeader
        recommends
            bytes.len() >= HEADER_SIZE,
    {
        FleetMsgHeader {
            magic: le_value(bytes.subrange(0, 4)) as u32,
            version: bytes[4],
            msg_type: bytes[5],
            sequence: le_value(bytes.subrange(6, 8)) as u16,
            timestamp: le_value(bytes.subrange(8, 16)) as u64,
            sender_id: le_value(bytes.subrange(16, 20)) as u32,
            payload_len: le_value(bytes.subrange(20, 22)) as u16,
            checksum: le_value(bytes.subrange(22, 24)) as u16,
        }
    }

    /// The checksum that belongs to the other seven fields: the sum of the
    /// wire bytes before the checksum field, reduced to sixteen bits.
    pub open spec fn expected_checksum(self) -> u16 {
        checksum_of(self.wire_bytes().subrange(0, CHECKSUM_OFFSET as int))
    }

    /// A header is valid when it opens with the magic, names the version
    /// and carries the checksum that belongs to its other fields.
    pub open spec fn spec_is_valid(&self) -> bool {
        &&& self.magic == MAGIC
        &&& self.version == VERSION
        &&& self.checksum == self.expected_checksum()
    }

    /// The header that a sender builds at `timestamp`: magic and version
    /// set, the fields as given, and the checksum that belongs to them.
    pub open spec fn assemble(
        msg_type: MessageType,
        sender_id: u32,
        sequence: u16,
        payload_len: u16,
        timestamp: u64,
    ) -> FleetMsgHeader {
        let blank = FleetMsgHeader {
            magic: MAGIC,
            version: VERSION,
            msg_type: msg_type.spec_code(),
            sequence,
            timestamp,
            sender_id,
            payload_len,
            checksum: 0,
        };
        FleetMsgHeader { checksum: blank.expected_checksum(), ..blank }
    }

    /// Where each field lies in the wire image.
    pub proof fn lemma_wire_layout(self)
        ensures
            self.wire_bytes().len() == HEADER_SIZE,
            self.wire_bytes().subrange(0, 4) == le_bytes(self.magic as nat, 4),
            self.wire_bytes()[4] == self.version,
            self.wire_bytes()[5] == self.msg_type,
            self.wire_bytes().subrange(6, 8) == le_bytes(self.sequence as nat, 2),
            self.wire_bytes().subrange(8, 16) == le_bytes(self.timestamp as nat, 8),
            self.wire_bytes().subrange(16, 20) == le_bytes(self.sender_id as nat, 4),
            self.wire_bytes().subrange(20, 22) == le_bytes(self.payload_len as nat, 2),
            self.wire_bytes().subrange(22, 24) == le_bytes(self.checksum as nat, 2),
    {
        lemma_le_bytes_len(self.magic as nat, 4);
        lemma_le_bytes_len(self.sequence as nat, 2);
        lemma_le_bytes_len(self.timestamp as nat, 8);
        lemma_le_bytes_len(self.sender_id as nat, 4);
        lemma_le_bytes_len(self.payload_len as nat, 2);
        lemma_le_bytes_len(self.checksum as nat, 2);
    }

    /// The checksum field has no part in the checksum.
    pub proof fn lemma_checksum_ignores_field(self, checksum: u16)
        ensures
            (FleetMsgHeader { checksum, ..self }).expected_checksum() == self.expected_checksum(),
    {
        let other = FleetMsgHeader { checksum, ..self };
        self.lemma_wire_layout();
        other.lemma_wire_layout();
        assert(other.wire_bytes().subrange(0, CHECKSUM_OFFSET as int) =~= self.wire_bytes().subrange(
            0,
            CHECKSUM_OFFSET as int,
        ));
    }

    /// Writes the header as its 24 wire bytes.
    pub fn to_bytes(&self) -> (bytes: Vec<u8>)
        ensures
            bytes@ == self.wire_bytes(),
            bytes@.len() == HEADER_SIZE,
    {
        let mut bytes: Vec<u8> = Vec::with_capacity(HEADER_SIZE);
        put_le(&mut bytes, self.magic as u64, 4);
        bytes.push(self.version);
        bytes.push(self.msg_type);
        put_le(&mut bytes, self.sequence as u64, 2);
        put_le(&mut bytes, self.timestamp, 8);
        put_le(&mut bytes, self.sender_id as u64, 4);
        put_le(&mut bytes, self.payload_len as u64, 2);
        put_le(&mut bytes, self.checksum as u64, 2);
        proof {
            self.lemma_wire_layout();
        }
        bytes
    }

    /// Reads a header from the first 24 bytes of `bytes`. Fewer bytes hold
    /// no header. Nothing but the length is checked: see
    /// [`FleetMsgHeader::is_valid`].
    pub fn read_from_prefix(bytes: &[u8]) -> (header: Option<Self>)
        ensures
            header == if bytes@.len() >= HEADER_SIZE {
                Some(Self::from_wire(bytes@))
            } else {
                None
            },
    {
        if bytes.len() < HEADER_SIZE {
            return None;
        }
        proof {
            lemma_radix_pow_values();
            lemma_le_value_bound(bytes@.subrange(0, 4));
            lemma_le_value_bound(bytes@.subrange(6, 8));
            lemma_le_value_bound(bytes@.subrange(16, 20));
            lemma_le_value_bound(bytes@.subrange(20, 22));
            lemma_le_value_bound(bytes@.subrange(22, 24));
        }
        Some(
            FleetMsgHeader {
                magic: get_le(bytes, 0, 4) as u32,
                version: bytes[4],
                msg_type: bytes[5],
                sequence: get_le(bytes, 6, 2) as u16,
                timestamp: get_le(bytes, 8, 8),
                sender_id: get_le(bytes, 16, 4) as u32,
                payload_len: get_le(bytes, 20, 2) as u16,
                checksum: get_le(bytes, 22, 2) as u16,
            },
        )
    }

    /// Computes the checksum that belongs to this header's other fields.
    pub fn calculate_checksum(&self) -> (sum: u16)
        ensures
            sum == self.expected_checksum(),
    {
        let bytes = self.to_bytes();
        checksum(&bytes[0..CHECKSUM_OFFSET])
    }

    /// Computes the checksum of a copy whose checksum field is zero, which
    /// is the checksum that belongs to this header's other fields.
    pub fn calculate_checksum_without_field(&self) -> (sum: u16)
        ensures
            sum == (FleetMsgHeader { checksum: 0, ..*self }).expected_checksum(),
            sum == self.expected_checksum(),
    {
        let mut scratch = *self;
        scratch.checksum = 0;
        proof {
            self.lemma_checksum_ignores_field(0);
        }
        scratch.calculate_checksum()
    }

    /// Builds the header of a message created at `timestamp`, in
    /// milliseconds since the Unix epoch.
    pub fn with_timestamp(
        msg_type: MessageType,
        sender_id: u32,
        sequence: u16,
        payload_len: u16,
        timestamp: u64,
    ) -> (header: Self)
        ensures
            header == Self::assemble(msg_type, sender_id, sequence, payload_len, timestamp),
    {
        let mut header = FleetMsgHeader {
            magic: MAGIC,
            version: VERSION,
            msg_type: msg_type.code(),
            sequence,
            timestamp,
            sender_id,
            payload_len,
            checksum: 0,
        };
        header.checksum = header.calculate_checksum();
        header
    }

    /// Builds the header of a message created now.
    ///
    /// Every field but the timestamp is fixed by the arguments; the
    /// timestamp is whatever the system clock reads.
    pub fn new(
        msg_type: MessageType,
        sender_id: u32,
        sequence: u16,
        payload_len: u16,
    ) -> (header: Self)
        ensures
            header == Self::assemble(msg_type, sender_id, sequence, payload_len, header.timestamp),
            header.is_valid(),
    {
        let timestamp = timestamp_now();
        let header = Self::with_timestamp(msg_type, sender_id, sequence, payload_len, timestamp);
        proof {
            Self::lemma_assembled_is_valid(msg_type, sender_id, sequence, payload_len, timestamp);
        }
        header
    }

    /// Tells whether the header opens with the magic, names the version and
    /// carries the checksum that belongs to its other fields.
    #[verifier::when_used_as_spec(spec_is_valid)]
    pub fn is_valid(&self) -> (valid: bool)
        ensures
            valid == self.spec_is_valid(),
    {
        self.magic == MAGIC && self.version == VERSION && self.checksum
            == self.calculate_checksum_without_field()
    }

    /// The kind of message that the header announces. A type byte that
    /// names no kind is read as a heartbeat.
    pub fn message_type(&self) -> (kind: MessageType)
        ensures
            kind == MessageType::spec_from_code(self.msg_type),
    {
        MessageType::from(self.msg_type)
    }

    /// A header built by a sender is valid and announces the kind it was
    /// built for.
    pub proof fn lemma_assembled_is_valid(
        msg_type: MessageType,
        sender_id: u32,
        sequence: u16,
        payload_len: u16,
        timestamp: u64,
    )
        ensures
            Self::assemble(msg_type, sender_id, sequence, payload_len, timestamp).spec_is_valid(),
            MessageType::spec_from_code(
                Self::assemble(msg_type, sender_id, sequence, payload_len, timestamp).msg_type,
            ) == msg_type,
    {
        let header = Self::assemble(msg_type, sender_id, sequence, payload_len, timestamp);
        let blank = FleetMsgHeader { checksum: 0, ..header };
        blank.lemma_checksum_ignores_field(header.checksum);
    }

    /// Reading a header back from its own wire bytes gives the header.
    pub proof fn lemma_read_after_write(self)
        ensures
            self.wire_bytes().len() == HEADER_SIZE,
            Self::from_wire(self.wire_bytes()) == self,
    {
        self.lemma_wire_layout();
        lemma_radix_pow_values();
        lemma_le_value_of_bytes(self.magic as nat, 4);
        lemma_le_value_of_bytes(self.sequence as nat, 2);
        lemma_le_value_of_bytes(self.timestamp as nat, 8);
        lemma_le_value_of_bytes(self.sender_id as nat, 4);
        lemma_le_value_of_bytes(self.payload_len as nat, 2);
        lemma_le_value_of_bytes(self.checksum as nat, 2);
    }

    /// A header is read from the first 24 bytes alone: what follows them
    /// has no part in it.
    pub proof fn lemma_from_wire_reads_prefix(image: Seq<u8>, rest: Seq<u8>)
        requires
            image.len() == HEADER_SIZE,
        ensures
            Self::from_wire(image + rest) == Self::from_wire(image),
    {
        let whole = image + rest;
        assert(whole.subrange(0, 4) =~= image.subrange(0, 4));
        assert(whole.subrange(6, 8) =~= image.subrange(6, 8));
        assert(whole.subrange(8, 16) =~= image.subrange(8, 16));
        assert(whole.subrange(16, 20) =~= image.subrange(16, 20));
        assert(whole.subrange(20, 22) =~= image.subrange(20, 22));
        assert(whole.subrange(22, 24) =~= image.subrange(22, 24));
    }

    /// Writing a header that was read from 24 bytes gives those bytes.
    pub proof fn lemma_write_after_read(bytes: Seq<u8>)
        requires
            bytes.len() >= HEADER_SIZE,
        ensures
            Self::from_wire(bytes).wire_bytes() == bytes.subrange(0, HEADER_SIZE as int),
    {
        let header = Self::from_wire(bytes);
        lemma_radix_pow_values();
        lemma_le_value_bound(bytes.subrange(0, 4));
        lemma_le_value_bound(bytes.subrange(6, 8));
        lemma_le_value_bound(bytes.subrange(8, 16));
        lemma_le_value_bound(bytes.subrange(16, 20));
        lemma_le_value_bound(bytes.subrange(20, 22));
        lemma_le_value_bound(bytes.subrange(22, 24));
        lemma_le_bytes_of_value(bytes.subrange(0, 4));
        lemma_le_bytes_of_value(bytes.subrange(6, 8));
        lemma_le_bytes_of_value(bytes.subrange(8, 16));
        lemma_le_bytes_of_value(bytes.subrange(16, 20));
        lemma_le_bytes_of_value(bytes.subrange(20, 22));
        lemma_le_bytes_of_value(bytes.subrange(22, 24));
        header.lemma_wire_layout();
    }
}

} // verus!
