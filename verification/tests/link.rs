use fleetlink_transport::{
    process_datagram, FleetMsgHeader, MessageType, MulticastSender, RxError, HEADER_SIZE,
    RX_BUFFER_SIZE,
};

const WHEN: u64 = 1_700_000_000_000;

/// What a receiver hands to its handler for a run of datagrams.
fn receive_all(datagrams: &[Vec<u8>]) -> Vec<(FleetMsgHeader, Vec<u8>)> {
    let mut received = Vec::new();
    for datagram in datagrams {
        if let Ok(message) = process_datagram(datagram) {
            received.push(message);
        }
    }
    received
}

#[test]
fn test_multicast_send_receive() {
    let group = [239, 1, 1, 1];
    let port = 12345;
    let sender_id = 999;

    let mut sender = MulticastSender::new(group, port, sender_id);

    let sent = vec![
        sender.send_heartbeat(),
        sender.send_data(b"test data"),
        sender.send_control("test command"),
    ];

    let messages = receive_all(&sent);
    assert!(messages.len() >= 1, "Should have received at least one message");
    assert_eq!(messages.len(), 3);

    for (header, payload) in messages.iter() {
        assert_eq!(header.sender_id, sender_id);
        assert!(header.is_valid());

        match header.message_type() {
            MessageType::Heartbeat => assert_eq!(payload.len(), 0),
            MessageType::Data => assert_eq!(payload, b"test data"),
            MessageType::Control => assert_eq!(payload, b"test command"),
        }
    }
}

#[test]
fn test_multicast_communication() {
    let group = [239, 1, 1, 2];
    let port = 12346;
    let sender_id = 12345;

    let mut sender = MulticastSender::new(group, port, sender_id);
    let mut sent = Vec::new();

    sent.push(sender.send_heartbeat());
    sent.push(sender.send_data(b"Hello, Fleet!"));
    sent.push(sender.send_control("SHUTDOWN"));

    for i in 0..3 {
        let data = format!("Message {}", i);
        sent.push(sender.send_data(data.as_bytes()));
    }

    let messages = receive_all(&sent);
    println!("Total messages received: {}", messages.len());

    assert!(messages.len() >= 5, "Should have received at least 5 messages, got {}", messages.len());
    assert_eq!(messages.len(), 6);

    let mut heartbeat_count = 0;
    let mut data_count = 0;
    let mut control_count = 0;
    let mut sequence_numbers = Vec::new();

    for (header, payload) in messages.iter() {
        assert_eq!(header.sender_id, sender_id);
        assert!(header.is_valid(), "Message header should be valid");
        sequence_numbers.push(header.sequence);

        match header.message_type() {
            MessageType::Heartbeat => {
                heartbeat_count += 1;
                assert_eq!(payload.len(), 0, "Heartbeat should have empty payload");
            }
            MessageType::Data => {
                data_count += 1;
                assert!(payload.len() > 0, "Data message should have payload");
            }
            MessageType::Control => {
                control_count += 1;
                assert_eq!(payload, b"SHUTDOWN", "Control message should match");
            }
        }
    }

    assert!(heartbeat_count >= 1, "Should have received at least 1 heartbeat");
    assert!(data_count >= 4, "Should have received at least 4 data messages");
    assert!(control_count >= 1, "Should have received at least 1 control message");

    for i in 1..sequence_numbers.len() {
        assert!(
            sequence_numbers[i] > sequence_numbers[i - 1],
            "Sequence numbers should be increasing"
        );
    }
    assert_eq!(sequence_numbers, vec![0, 1, 2, 3, 4, 5]);
    assert_eq!(messages[3].1, b"Message 0");
    assert_eq!(messages[4].1, b"Message 1");
    assert_eq!(messages[5].1, b"Message 2");

    println!("Integration test passed!");
}

#[test]
fn test_invalid_message_handling() {
    let group = [239, 1, 1, 3];
    let port = 12347;
    let mut on_the_wire: Vec<Vec<u8>> = Vec::new();

    // A valid message.
    let mut sender = MulticastSender::new(group, port, 999);
    on_the_wire.push(sender.send_data(b"valid"));

    // A packet that is too small.
    on_the_wire.push(b"tiny".to_vec());

    // A packet with the wrong magic number.
    let mut invalid_header = FleetMsgHeader::new(MessageType::Data, 999, 1, 4);
    invalid_header.magic = 0xDEAD;
    let mut invalid_message = Vec::new();
    invalid_message.extend_from_slice(&invalid_header.to_bytes());
    invalid_message.extend_from_slice(b"test");
    on_the_wire.push(invalid_message);

    let messages = receive_all(&on_the_wire);
    assert_eq!(messages.len(), 1, "Should only receive valid messages");
    assert_eq!(messages[0].1, b"valid");
}

#[test]
fn three_kinds_arrive_in_order() {
    let mut sender = MulticastSender::new([239, 1, 1, 2], 12346, 12345);
    let sent = vec![
        sender.send_heartbeat(),
        sender.send_data(b"Hello, Fleet!"),
        sender.send_control("SHUTDOWN"),
    ];

    let messages = receive_all(&sent);
    assert_eq!(messages.len(), 3);
    assert_eq!(messages[0].0.message_type(), MessageType::Heartbeat);
    assert_eq!(messages[1].0.message_type(), MessageType::Data);
    assert_eq!(messages[2].0.message_type(), MessageType::Control);
    assert_eq!(messages[0].1, b"");
    assert_eq!(messages[1].1, b"Hello, Fleet!");
    assert_eq!(messages[2].1, b"SHUTDOWN");
    for (header, payload) in messages.iter() {
        assert!(header.is_valid());
        assert_eq!(header.sender_id, 12345);
        assert_eq!(header.payload_len as usize, payload.len());
    }
}

#[test]
fn tiny_packet_is_dropped_as_too_small() {
    assert_eq!(process_datagram(b"tiny"), Err(RxError::PacketTooSmall));
    assert_eq!(receive_all(&[b"tiny".to_vec()]).len(), 0);
}

#[test]
fn wrong_magic_is_dropped_and_the_next_message_arrives() {
    let mut bad = FleetMsgHeader::with_timestamp(MessageType::Data, 999, 1, 4, WHEN);
    bad.magic = 0xDEAD;
    let mut bad_datagram = bad.to_bytes();
    bad_datagram.extend_from_slice(b"test");
    assert_eq!(process_datagram(&bad_datagram), Err(RxError::InvalidHeader));

    let mut sender = MulticastSender::new([239, 1, 1, 3], 12347, 999);
    let good_datagram = sender.send_data(b"valid");

    let messages = receive_all(&[bad_datagram, good_datagram]);
    assert_eq!(messages.len(), 1);
    assert_eq!(messages[0].1, b"valid");
    assert_eq!(messages[0].0.sender_id, 999);
}

#[test]
fn every_short_datagram_is_too_small() {
    let mut sender = MulticastSender::new([239, 1, 1, 1], 1, 1);
    let datagram = sender.send_message_at(MessageType::Heartbeat, b"", WHEN);
    assert_eq!(datagram.len(), HEADER_SIZE);
    for len in 0..HEADER_SIZE {
        assert_eq!(process_datagram(&datagram[..len]), Err(RxError::PacketTooSmall));
    }
    assert!(process_datagram(&datagram).is_ok());
    // Too small wins over every other fault.
    assert_eq!(process_datagram(&[0xFF; 23]), Err(RxError::PacketTooSmall));
    assert_eq!(process_datagram(&[]), Err(RxError::PacketTooSmall));
}

#[test]
fn noise_of_header_size_is_an_invalid_header() {
    assert_eq!(process_datagram(&[0u8; 24]), Err(RxError::InvalidHeader));
    assert_eq!(process_datagram(&[0xFFu8; 100]), Err(RxError::InvalidHeader));
}

#[test]
fn wrong_version_is_an_invalid_header() {
    let mut header = FleetMsgHeader::with_timestamp(MessageType::Data, 1, 1, 0, WHEN);
    header.version = 2;
    header.checksum = header.calculate_checksum();
    assert_eq!(process_datagram(&header.to_bytes()), Err(RxError::InvalidHeader));
}

#[test]
fn wrong_checksum_is_an_invalid_header() {
    let mut sender = MulticastSender::new([239, 1, 1, 1], 1, 1);
    let mut datagram = sender.send_message_at(MessageType::Data, b"abc", WHEN);
    datagram[22] ^= 0x01;
    assert_eq!(process_datagram(&datagram), Err(RxError::InvalidHeader));
}

#[test]
fn invalid_header_wins_over_length_mismatch() {
    let mut header = FleetMsgHeader::with_timestamp(MessageType::Data, 1, 1, 10, WHEN);
    header.magic = 0xDEAD;
    let mut datagram = header.to_bytes();
    datagram.extend_from_slice(b"abc");
    assert_eq!(process_datagram(&datagram), Err(RxError::InvalidHeader));
}

#[test]
fn missing_payload_bytes_are_a_length_mismatch() {
    let header = FleetMsgHeader::with_timestamp(MessageType::Data, 1, 1, 10, WHEN);
    assert!(header.is_valid());
    let mut datagram = header.to_bytes();
    datagram.extend_from_slice(b"abc");
    assert_eq!(
        process_datagram(&datagram),
        Err(RxError::PayloadLengthMismatch { expected: 10, actual: 3 })
    );
}

#[test]
fn extra_payload_bytes_are_a_length_mismatch() {
    let mut sender = MulticastSender::new([239, 1, 1, 1], 1, 1);
    let mut datagram = sender.send_message_at(MessageType::Data, b"abc", WHEN);
    datagram.push(0);
    assert_eq!(
        process_datagram(&datagram),
        Err(RxError::PayloadLengthMismatch { expected: 3, actual: 4 })
    );

    let mut heartbeat = sender.send_message_at(MessageType::Heartbeat, b"", WHEN);
    heartbeat.push(0);
    assert_eq!(
        process_datagram(&heartbeat),
        Err(RxError::PayloadLengthMismatch { expected: 0, actual: 1 })
    );
}

#[test]
fn bare_header_that_announces_a_payload_is_a_length_mismatch() {
    let header = FleetMsgHeader::with_timestamp(MessageType::Data, 1, 1, 1, WHEN);
    assert_eq!(
        process_datagram(&header.to_bytes()),
        Err(RxError::PayloadLengthMismatch { expected: 1, actual: 0 })
    );
}

#[test]
fn accepted_message_is_header_and_payload() {
    let mut sender = MulticastSender::new([239, 1, 1, 1], 4000, 0xDEADBEEF);
    let datagram = sender.send_message_at(MessageType::Control, b"SHUTDOWN", WHEN);
    let expected = FleetMsgHeader::with_timestamp(MessageType::Control, 0xDEADBEEF, 0, 8, WHEN);
    assert_eq!(process_datagram(&datagram), Ok((expected, b"SHUTDOWN".to_vec())));
}

#[test]
fn datagram_has_the_exact_bytes() {
    let mut sender = MulticastSender::new([239, 1, 1, 2], 12346, 12345);
    assert_eq!(
        sender.send_message_at(MessageType::Heartbeat, b"", WHEN),
        vec![
            237, 254, 0, 0, 1, 1, 0, 0, 0, 104, 229, 207, 139, 1, 0, 0, 57, 48, 0, 0, 0, 0, 254, 4
        ]
    );
    let mut expected = vec![
        237, 254, 0, 0, 1, 2, 1, 0, 0, 104, 229, 207, 139, 1, 0, 0, 57, 48, 0, 0, 13, 0, 13, 5,
    ];
    expected.extend_from_slice(b"Hello, Fleet!");
    assert_eq!(sender.send_message_at(MessageType::Data, b"Hello, Fleet!", WHEN), expected);
    let mut expected = vec![
        237, 254, 0, 0, 1, 3, 2, 0, 0, 104, 229, 207, 139, 1, 0, 0, 57, 48, 0, 0, 8, 0, 10, 5,
    ];
    expected.extend_from_slice(b"SHUTDOWN");
    assert_eq!(sender.send_message_at(MessageType::Control, b"SHUTDOWN", WHEN), expected);
}

#[test]
fn new_sender_starts_at_zero() {
    let sender = MulticastSender::new([239, 1, 1, 1], 12345, 42);
    assert_eq!(sender.group(), [239, 1, 1, 1]);
    assert_eq!(sender.port(), 12345);
    assert_eq!(sender.sender_id(), 42);
    assert_eq!(sender.sequence(), 0);
}

#[test]
fn sending_moves_the_counter_and_nothing_else() {
    let mut sender = MulticastSender::new([239, 1, 1, 1], 12345, 42);
    sender.send_heartbeat();
    assert_eq!(sender.sequence(), 1);
    sender.send_data(b"x");
    assert_eq!(sender.sequence(), 2);
    sender.send_control("y");
    assert_eq!(sender.sequence(), 3);
    sender.send_message(MessageType::Data, b"z");
    assert_eq!(sender.sequence(), 4);
    sender.send_message_at(MessageType::Data, b"z", WHEN);
    assert_eq!(sender.sequence(), 5);
    assert_eq!(sender.group(), [239, 1, 1, 1]);
    assert_eq!(sender.port(), 12345);
    assert_eq!(sender.sender_id(), 42);
}

#[test]
fn heartbeat_is_a_bare_header() {
    let mut sender = MulticastSender::new([239, 1, 1, 1], 12345, 42);
    for _ in 0..5 {
        let datagram = sender.send_heartbeat();
        assert_eq!(datagram.len(), HEADER_SIZE);
        let (header, payload) = process_datagram(&datagram).unwrap();
        assert_eq!(header.message_type(), MessageType::Heartbeat);
        assert_eq!(header.payload_len, 0);
        assert_eq!(payload.len(), 0);
    }
}

#[test]
fn control_carries_the_utf8_bytes_of_the_command() {
    let mut sender = MulticastSender::new([239, 1, 1, 1], 12345, 42);
    let datagram = sender.send_control("arr\u{EA}t \u{2713}");
    let (header, payload) = process_datagram(&datagram).unwrap();
    assert_eq!(header.message_type(), MessageType::Control);
    assert_eq!(payload, vec![b'a', b'r', b'r', 0xC3, 0xAA, b't', b' ', 0xE2, 0x9C, 0x93]);
    assert_eq!(header.payload_len, 10);

    let (header, payload) = process_datagram(&sender.send_control("")).unwrap();
    assert_eq!(header.message_type(), MessageType::Control);
    assert_eq!(payload.len(), 0);
}

#[test]
fn send_stamps_the_present_time() {
    let millis = |at: std::time::SystemTime| {
        at.duration_since(std::time::UNIX_EPOCH).unwrap().as_millis() as u64
    };
    let mut sender = MulticastSender::new([239, 1, 1, 1], 12345, 42);
    let before = millis(std::time::SystemTime::now());
    let datagram = sender.send_data(b"now");
    let after = millis(std::time::SystemTime::now());
    let (header, _) = process_datagram(&datagram).unwrap();
    assert!(before <= header.timestamp && header.timestamp <= after);

    // The datagram is the one that the same send gives for that time.
    let mut twin = MulticastSender::new([239, 1, 1, 1], 12345, 42);
    assert_eq!(twin.send_message_at(MessageType::Data, b"now", header.timestamp), datagram);
}

#[test]
fn sequence_numbers_count_up_and_wrap() {
    let mut sender = MulticastSender::new([239, 1, 1, 1], 12345, 42);
    let mut seen: Vec<u16> = Vec::new();
    for _ in 0..65540u32 {
        let datagram = sender.send_message_at(MessageType::Heartbeat, b"", WHEN);
        let (header, _) = process_datagram(&datagram).unwrap();
        seen.push(header.sequence);
    }
    assert_eq!(seen[0], 0);
    assert_eq!(seen[65535], 65535);
    assert_eq!(seen[65536], 0);
    assert_eq!(seen[65539], 3);
    for i in 1..seen.len() {
        assert_eq!(seen[i], seen[i - 1].wrapping_add(1));
    }
    assert_eq!(sender.sequence(), 4);
}

#[test]
fn largest_payload_that_fits_is_accepted() {
    let payload = vec![0x5Au8; 65535];
    let mut sender = MulticastSender::new([239, 1, 1, 1], 12345, 42);
    let datagram = sender.send_message_at(MessageType::Data, &payload, WHEN);
    assert_eq!(datagram.len(), HEADER_SIZE + 65535);
    let (header, received) = process_datagram(&datagram).unwrap();
    assert_eq!(header.payload_len, 65535);
    assert_eq!(received, payload);
}

#[test]
fn oversized_payload_is_framed_whole_and_dropped() {
    let payload = vec![0x5Au8; 65536 + 7];
    let mut sender = MulticastSender::new([239, 1, 1, 1], 12345, 42);
    let datagram = sender.send_message_at(MessageType::Data, &payload, WHEN);
    assert_eq!(datagram.len(), HEADER_SIZE + 65536 + 7);
    assert_eq!(&datagram[HEADER_SIZE..], &payload[..]);
    assert_eq!(sender.sequence(), 1);
    assert_eq!(
        process_datagram(&datagram),
        Err(RxError::PayloadLengthMismatch { expected: 7, actual: 65536 + 7 })
    );
}

#[test]
fn datagram_cut_by_the_receive_buffer_is_dropped() {
    assert_eq!(RX_BUFFER_SIZE, 1500);
    let payload = vec![1u8; 1477];
    let mut sender = MulticastSender::new([239, 1, 1, 1], 12345, 42);
    let datagram = sender.send_message_at(MessageType::Data, &payload, WHEN);
    assert!(process_datagram(&datagram).is_ok());
    assert_eq!(
        process_datagram(&datagram[..RX_BUFFER_SIZE]),
        Err(RxError::PayloadLengthMismatch { expected: 1477, actual: 1476 })
    );

    // The largest message that the buffer holds whole.
    let datagram = sender.send_message_at(MessageType::Data, &payload[..1476], WHEN);
    assert_eq!(datagram.len(), RX_BUFFER_SIZE);
    assert!(process_datagram(&datagram).is_ok());
}

#[test]
fn unknown_kind_on_the_wire_arrives_as_heartbeat() {
    let mut header = FleetMsgHeader::with_timestamp(MessageType::Data, 1, 1, 2, WHEN);
    header.msg_type = 9;
    header.checksum = header.calculate_checksum();
    let mut datagram = header.to_bytes();
    datagram.extend_from_slice(b"hi");
    let (received, payload) = process_datagram(&datagram).unwrap();
    assert_eq!(received.msg_type, 9);
    assert_eq!(received.message_type(), MessageType::Heartbeat);
    assert_eq!(payload, b"hi");
}
