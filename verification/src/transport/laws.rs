//! What holds of the wire format and of the two ends taken together.

use vstd::prelude::*;

use crate::transport::checksum::{checksum_of, lemma_checksum_sees_one_byte};
use crate::transport::header::{FleetMsgHeader, CHECKSUM_OFFSET, HEADER_SIZE, MAGIC, VERSION};
use crate::transport::message_type::MessageType;
use crate::transport::receiver::{accept, RxError, RX_BUFFER_SIZE};
use crate::transport::sender::SenderState;

verus! {

/// Every kind has a wire byte of its own, from which it comes back.
pub proof fn lemma_kind_roundtrip(kind: MessageType)
    ensures
        1 <= kind.spec_code() <= 3,
        MessageType::spec_from_code(kind.spec_code()) == kind,
{
}

/// A header that a sender builds survives the wire: written and read back
/// it is the same header, field by field, it is valid, and it announces the
/// kind it was built for.
pub proof fn lemma_header_roundtrip(
    msg_type: MessageType,
    sender_id: u32,
    sequence: u16,
    payload_len: u16,
    timestamp: u64,
)
    ensures
        ({
            let built = FleetMsgHeader::assemble(
                msg_type,
                sender_id,
                sequence,
                payload_len,
                timestamp,
            );
            let read = FleetMsgHeader::from_wire(built.wire_bytes());
            &&& built.wire_bytes().len() == HEADER_SIZE
            &&& read == built
            &&& read.spec_is_valid()
            &&& read.magic == MAGIC
            &&& read.version == VERSION
            &&& read.msg_type == msg_type.spec_code()
            &&& MessageType::spec_from_code(read.msg_type) == msg_type
            &&& read.sender_id == sender_id
            &&& read.sequence == sequence
            &&& read.payload_len == payload_len
            &&& read.timestamp == timestamp
        }),
{
    let built = FleetMsgHeader::assemble(msg_type, sender_id, sequence, payload_len, timestamp);
    built.lemma_read_after_write();
    FleetMsgHeader::lemma_assembled_is_valid(msg_type, sender_id, sequence, payload_len, timestamp);
}

/// Any header, valid or not, is read back from its wire bytes as it was
/// written, and any 24 bytes are written back from the header they were
/// read as.
pub proof fn lemma_wire_image_is_exact(header: FleetMsgHeader, bytes: Seq<u8>)
    requires
        bytes.len() == HEADER_SIZE,
    ensures
        FleetMsgHeader::from_wire(header.wire_bytes()) == header,
        FleetMsgHeader::from_wire(bytes).wire_bytes() == bytes,
{
    header.lemma_read_after_write();
    FleetMsgHeader::lemma_write_after_read(bytes);
}

/// A header with another magic or another version is invalid, whatever its
/// checksum.
pub proof fn lemma_wrong_magic_or_version_is_invalid(header: FleetMsgHeader)
    requires
        header.magic != MAGIC || header.version != VERSION,
    ensures
        !header.spec_is_valid(),
{
}

/// Damage to one byte is always seen: if any one byte of a valid header's
/// wire image is replaced by another byte, what is read is not a valid
/// header.
///
/// A byte before the checksum field moves the sum by less than 65536 and
/// not by zero; a byte of the checksum field changes the checksum and
/// leaves the sum alone.
pub proof fn lemma_single_byte_damage_is_detected(header: FleetMsgHeader, index: int, byte: u8)
    requires
        header.spec_is_valid(),
        0 <= index < HEADER_SIZE,
        byte != header.wire_bytes()[index],
    ensures
        !FleetMsgHeader::from_wire(header.wire_bytes().update(index, byte)).spec_is_valid(),
{
    if index < CHECKSUM_OFFSET {
        lemma_damage_before_checksum_is_detected(header, index, byte);
    } else {
        lemma_damage_to_checksum_is_detected(header, index, byte);
    }
}

/// A changed byte before the checksum field leaves the stored checksum as
/// it was and moves the sum that it is held against.
proof fn lemma_damage_before_checksum_is_detected(header: FleetMsgHeader, index: int, byte: u8)
    requires
        header.spec_is_valid(),
        0 <= index < CHECKSUM_OFFSET,
        byte != header.wire_bytes()[index],
    ensures
        !FleetMsgHeader::from_wire(header.wire_bytes().update(index, byte)).spec_is_valid(),
{
    let image = header.wire_bytes();
    let damaged = image.update(index, byte);
    let read = FleetMsgHeader::from_wire(damaged);
    let covered = image.subrange(0, CHECKSUM_OFFSET as int);

    header.lemma_read_after_write();
    assert(read.checksum == header.checksum) by {
        assert(damaged.subrange(22, 24) =~= image.subrange(22, 24));
    }
    assert(read.expected_checksum() == checksum_of(covered.update(index, byte))) by {
        FleetMsgHeader::lemma_write_after_read(damaged);
        assert(damaged.subrange(0, HEADER_SIZE as int) =~= damaged);
        assert(damaged.subrange(0, CHECKSUM_OFFSET as int) =~= covered.update(index, byte));
    }
    lemma_checksum_sees_one_byte(covered, index, byte);
}

/// A changed byte of the checksum field changes the stored checksum and
/// leaves the sum that it is held against as it was.
proof fn lemma_damage_to_checksum_is_detected(header: FleetMsgHeader, index: int, byte: u8)
    requires
        header.spec_is_valid(),
        CHECKSUM_OFFSET <= index < HEADER_SIZE,
        byte != header.wire_bytes()[index],
    ensures
        !FleetMsgHeader::from_wire(header.wire_bytes().update(index, byte)).spec_is_valid(),
{
    let image = header.wire_bytes();
    let damaged = image.update(index, byte);
    let read = FleetMsgHeader::from_wire(damaged);

    header.lemma_wire_layout();
    FleetMsgHeader::lemma_write_after_read(damaged);
    assert(read.wire_bytes() == damaged) by {
        assert(damaged.subrange(0, HEADER_SIZE as int) =~= damaged);
    }
    assert(read.expected_checksum() == header.expected_checksum()) by {
        assert(damaged.subrange(0, CHECKSUM_OFFSET as int) =~= image.subrange(
            0,
            CHECKSUM_OFFSET as int,
        ));
    }
    if read.checksum == header.checksum {
        // Equal checksums would have equal images, and the images differ.
        read.lemma_wire_layout();
        assert(damaged.subrange(22, 24)[index - 22] == image.subrange(22, 24)[index - 22]);
    }
}

/// A datagram that is shorter than a header is dropped as too small,
/// whatever it holds.
pub proof fn lemma_short_datagram_is_dropped(datagram: Seq<u8>)
    requires
        datagram.len() < HEADER_SIZE,
    ensures
        accept(datagram) == Err::<(FleetMsgHeader, Seq<u8>), _>(RxError::PacketTooSmall),
{
}

/// A datagram that holds another number of payload bytes than its header
/// announces is dropped, also where the header is valid; and if the header
/// is valid the reason names both lengths.
pub proof fn lemma_length_mismatch_is_dropped(datagram: Seq<u8>)
    requires
        datagram.len() >= HEADER_SIZE,
        datagram.len() - HEADER_SIZE != FleetMsgHeader::from_wire(datagram).payload_len,
    ensures
        accept(datagram) is Err,
        FleetMsgHeader::from_wire(datagram).spec_is_valid() ==> accept(datagram) == Err::<
            (FleetMsgHeader, Seq<u8>),
            _,
        >(
            RxError::PayloadLengthMismatch {
                expected: FleetMsgHeader::from_wire(datagram).payload_len,
                actual: (datagram.len() - HEADER_SIZE) as usize,
            },
        ),
{
}

/// What a sender frames, a receiver accepts, as long as the payload's
/// length fits in the header's sixteen bits: the receiver gets the header
/// that the sender built and the payload, byte for byte.
pub proof fn lemma_sent_message_is_accepted(
    sender: SenderState,
    msg_type: MessageType,
    payload: Seq<u8>,
    timestamp: u64,
)
    requires
        payload.len() <= u16::MAX,
    ensures
        accept(sender.next_datagram(msg_type, payload, timestamp)) == Ok::<_, RxError>(
            (sender.next_header(msg_type, payload, timestamp), payload),
        ),
        sender.next_header(msg_type, payload, timestamp).sender_id == sender.sender_id,
        sender.next_header(msg_type, payload, timestamp).sequence == sender.sequence,
        sender.next_header(msg_type, payload, timestamp).payload_len == payload.len(),
        MessageType::spec_from_code(sender.next_header(msg_type, payload, timestamp).msg_type)
            == msg_type,
{
    let header = sender.next_header(msg_type, payload, timestamp);
    let datagram = sender.next_datagram(msg_type, payload, timestamp);
    lemma_header_roundtrip(
        msg_type,
        sender.sender_id,
        sender.sequence,
        SenderState::announced_len(payload),
        timestamp,
    );
    FleetMsgHeader::lemma_from_wire_reads_prefix(header.wire_bytes(), payload);
    assert(datagram.subrange(HEADER_SIZE as int, datagram.len() as int) =~= payload);
}

/// A payload of 65536 bytes or more is framed with a length that it does
/// not have, and the receiver drops the datagram.
pub proof fn lemma_oversized_message_is_dropped(
    sender: SenderState,
    msg_type: MessageType,
    payload: Seq<u8>,
    timestamp: u64,
)
    requires
        payload.len() > u16::MAX,
    ensures
        accept(sender.next_datagram(msg_type, payload, timestamp)) is Err,
{
    let header = sender.next_header(msg_type, payload, timestamp);
    header.lemma_read_after_write();
    FleetMsgHeader::lemma_from_wire_reads_prefix(header.wire_bytes(), payload);
}

/// A heartbeat is a bare header: its datagram is 24 bytes long, and the
/// receiver gets it with an empty payload.
pub proof fn lemma_heartbeat_has_no_payload(sender: SenderState, timestamp: u64)
    ensures
        ({
            let nothing = Seq::<u8>::empty();
            let datagram = sender.next_datagram(MessageType::Heartbeat, nothing, timestamp);
            let header = sender.next_header(MessageType::Heartbeat, nothing, timestamp);
            &&& datagram.len() == HEADER_SIZE
            &&& header.payload_len == 0
            &&& accept(datagram) == Ok::<_, RxError>((header, nothing))
        }),
{
    let nothing = Seq::<u8>::empty();
    lemma_sent_message_is_accepted(sender, MessageType::Heartbeat, nothing, timestamp);
    sender.next_header(MessageType::Heartbeat, nothing, timestamp).lemma_read_after_write();
}

/// Sending changes nothing of a sender but its counter, and after `count`
/// messages the counter stands `count` further on, modulo 65536.
pub proof fn lemma_counter_after_sends(sender: SenderState, count: nat)
    ensures
        sender.after_sends(count).group == sender.group,
        sender.after_sends(count).port == sender.port,
        sender.after_sends(count).sender_id == sender.sender_id,
        sender.after_sends(count).sequence == (sender.sequence + count) % 0x1_0000,
    decreases count,
{
    if count > 0 {
        lemma_counter_after_sends(sender, (count - 1) as nat);
    }
}

/// The sequence numbers that a receiver sees from one sender count up by
/// one from message to message, modulo 65536: the message sent after
/// `count` others carries the first sequence number plus `count`, the one
/// after it carries the next number, and no two of any 65536 messages in a
/// row carry the same. The receiver sees the number as the sender wrote
/// it, whenever the payload is one that can be received.
pub proof fn lemma_sequence_numbers_count_up(
    sender: SenderState,
    count: nat,
    later: nat,
    msg_type: MessageType,
    payload: Seq<u8>,
    timestamp: u64,
)
    ensures
        ({
            let sent = sender.after_sends(count).next_header(msg_type, payload, timestamp);
            let next = sender.after_sends(count + 1).next_header(msg_type, payload, timestamp);
            let other = sender.after_sends(later).next_header(msg_type, payload, timestamp);
            let datagram = sender.after_sends(count).next_datagram(msg_type, payload, timestamp);
            &&& sent.sender_id == sender.sender_id
            &&& sent.sequence == (sender.sequence + count) % 0x1_0000
            &&& next.sequence == (sent.sequence + 1) % 0x1_0000
            &&& count < later < count + 0x1_0000 ==> other.sequence != sent.sequence
            &&& payload.len() <= u16::MAX ==> accept(datagram) == Ok::<_, RxError>((sent, payload))
        }),
{
    lemma_counter_after_sends(sender, count);
    lemma_counter_after_sends(sender, count + 1);
    lemma_counter_after_sends(sender, later);
    if payload.len() <= u16::MAX {
        lemma_sent_message_is_accepted(sender.after_sends(count), msg_type, payload, timestamp);
    }
}

/// A receive buffer cuts a longer datagram down to its own size, and what
/// is left of a well-formed message is dropped for its length.
pub proof fn lemma_cut_datagram_is_dropped(datagram: Seq<u8>)
    requires
        datagram.len() > RX_BUFFER_SIZE,
        accept(datagram) is Ok,
    ensures
        accept(datagram.subrange(0, RX_BUFFER_SIZE as int)) == Err::<(FleetMsgHeader, Seq<u8>), _>(
            RxError::PayloadLengthMismatch {
                expected: accept(datagram)->Ok_0.0.payload_len,
                actual: (RX_BUFFER_SIZE - HEADER_SIZE) as usize,
            },
        ),
{
    let cut = datagram.subrange(0, RX_BUFFER_SIZE as int);
    let image = datagram.subrange(0, HEADER_SIZE as int);
    assert(cut =~= image + cut.subrange(HEADER_SIZE as int, RX_BUFFER_SIZE as int));
    assert(datagram =~= image + datagram.subrange(HEADER_SIZE as int, datagram.len() as int));
    FleetMsgHeader::lemma_from_wire_reads_prefix(
        image,
        cut.subrange(HEADER_SIZE as int, RX_BUFFER_SIZE as int),
    );
    FleetMsgHeader::lemma_from_wire_reads_prefix(
        image,
        datagram.subrange(HEADER_SIZE as int, datagram.len() as int),
    );
}

} // verus!
