use hexcell::hexapi_errors::{GenError, NetworkError};
use hexcell::messaging::{Message, MessageBuffer, MessageHeader};
use hexcell::networking::{
    checksum_of, next_hop, Frame, MessageQueueFSM, MessageStatus, NetworkId, NetworkQuery,
    FRAME_SIZE, MAX_QUEUED_MESSAGES, UID_INVALID,
};
use hexcell::ports::{coordinate_delta, HardPort};

const PORTS: [HardPort; 6] = [
    HardPort::PORT_A,
    HardPort::PORT_B,
    HardPort::PORT_C,
    HardPort::PORT_D,
    HardPort::PORT_E,
    HardPort::PORT_F,
];

fn buffer(bytes: &[u8]) -> MessageBuffer {
    let mut buffer = MessageBuffer::new();
    for byte in bytes {
        buffer.push(*byte).unwrap();
    }
    buffer
}

fn sample_frame() -> Frame {
    Frame {
        port: HardPort::PORT_C,
        status: MessageStatus::STATUS_QUERY,
        query: NetworkQuery::SETID,
        tag: 5,
        id: NetworkId { x: -2, y: 258, uid: 0x0102_0304 },
    }
}

const SAMPLE_BODY: [u8; 11] = [2, 5, 0xFE, 0xFF, 0x02, 0x01, 0x04, 0x03, 0x02, 0x01, 17];

#[test]
fn external_id_of_each_port() {
    let local = NetworkId { x: 3, y: -2, uid: 77 };
    let expected = [(3, -1), (4, -1), (2, -2), (2, -1), (4, -2), (3, -3)];
    for (port, (x, y)) in PORTS.iter().zip(expected) {
        assert_eq!(local.compute_external_id(*port), NetworkId { x, y, uid: UID_INVALID });
    }
}

#[test]
fn external_id_is_unassigned_and_one_delta_away() {
    let local = NetworkId { x: -100, y: 2000, uid: 0xDEAD_BEEF };
    for port in PORTS {
        let external = local.compute_external_id(port);
        let (dx, dy) = coordinate_delta(port);
        assert_eq!(external.uid, UID_INVALID);
        assert_eq!((external.x, external.y), (local.x + dx, local.y + dy));
    }
}

#[test]
fn checked_external_id_stops_at_the_edge_of_the_grid() {
    let corner = NetworkId { x: i16::MAX, y: i16::MIN, uid: 9 };
    assert_eq!(corner.checked_external_id(HardPort::PORT_E), None);
    assert_eq!(corner.checked_external_id(HardPort::PORT_B), None);
    assert_eq!(corner.checked_external_id(HardPort::PORT_F), None);
    assert_eq!(
        corner.checked_external_id(HardPort::PORT_C),
        Some(NetworkId { x: i16::MAX - 1, y: i16::MIN, uid: UID_INVALID })
    );
    assert_eq!(
        corner.checked_external_id(HardPort::PORT_A),
        Some(NetworkId { x: i16::MAX, y: i16::MIN + 1, uid: UID_INVALID })
    );
}

#[test]
fn default_id_is_unassigned_at_the_origin() {
    assert_eq!(NetworkId::default(), NetworkId { x: 0, y: 0, uid: UID_INVALID });
    assert_eq!(UID_INVALID, 0);
}

#[test]
fn status_codes() {
    let statuses = [
        MessageStatus::STATUS_OK,
        MessageStatus::STATUS_ACK,
        MessageStatus::STATUS_NAK,
        MessageStatus::STATUS_QUERY,
        MessageStatus::STATUS_TIMEOUT,
        MessageStatus::STATUS_ERROR,
    ];
    for (code, status) in statuses.iter().enumerate() {
        assert_eq!(status.code() as usize, code);
        assert_eq!(MessageStatus::from_code(code as u8), Some(*status));
    }
    assert_eq!(MessageStatus::from_code(6), None);
}

#[test]
fn query_codes() {
    let queries = [
        NetworkQuery::WHOAMI,
        NetworkQuery::GETID,
        NetworkQuery::SETID,
        NetworkQuery::FORWARD,
        NetworkQuery::ROUTETO,
        NetworkQuery::ENUMERATE,
        NetworkQuery::BROADCAST,
    ];
    for (code, query) in queries.iter().enumerate() {
        assert_eq!(query.code() as usize, code);
        assert_eq!(NetworkQuery::from_code(code as u8), Some(*query));
    }
    assert_eq!(NetworkQuery::INVALID.code(), 7);
    assert_eq!(NetworkQuery::from_code(7), None);
    assert_eq!(NetworkQuery::from_code(200), None);
}

#[test]
fn checksum_is_the_sum_modulo_256() {
    let bytes = buffer(&[200, 100, 7, 255]);
    assert_eq!(checksum_of(&bytes, 0), 0);
    assert_eq!(checksum_of(&bytes, 1), 200);
    assert_eq!(checksum_of(&bytes, 2), 44);
    assert_eq!(checksum_of(&bytes, 4), 50);
}

#[test]
fn frame_on_the_wire() {
    let message = sample_frame().to_message();
    assert_eq!(message.header, MessageHeader { port: 2, status: 3, length: 11 });
    assert_eq!(message.body.as_slice(), &SAMPLE_BODY);
    assert_eq!(FRAME_SIZE, 11);
}

#[test]
fn frame_comes_back_from_its_message() {
    let frame = sample_frame();
    assert_eq!(Frame::from_message(&frame.to_message()), Ok(frame));
    for port in PORTS {
        for x in [i16::MIN, -1, 0, 1, 255, 256, i16::MAX] {
            let frame = Frame {
                port,
                status: MessageStatus::STATUS_OK,
                query: NetworkQuery::BROADCAST,
                tag: 255,
                id: NetworkId { x, y: if x == i16::MIN { i16::MAX } else { -x }, uid: u32::MAX - 3 },
            };
            assert_eq!(Frame::from_message(&frame.to_message()), Ok(frame));
        }
    }
}

#[test]
fn message_from_plain_bytes_is_read_as_a_frame() {
    let message = Message::new(2, 3, &buffer(&SAMPLE_BODY));
    assert_eq!(Frame::from_message(&message), Ok(sample_frame()));
}

#[test]
fn message_that_names_no_port_is_an_invalid_address() {
    let message = Message::new(6, 3, &buffer(&SAMPLE_BODY));
    assert_eq!(Frame::from_message(&message), Err(NetworkError::InvalidAddress));
}

#[test]
fn message_with_bad_contents() {
    let unknown_status = Message::new(2, 6, &buffer(&SAMPLE_BODY));
    assert_eq!(Frame::from_message(&unknown_status), Err(NetworkError::InvalidMessageContents));

    let short = Message::new(2, 3, &buffer(&SAMPLE_BODY[..10]));
    assert_eq!(Frame::from_message(&short), Err(NetworkError::InvalidMessageContents));

    let empty = Message::new(2, 3, &buffer(&[]));
    assert_eq!(Frame::from_message(&empty), Err(NetworkError::InvalidMessageContents));

    let mut wrong_length = Message::new(2, 3, &buffer(&SAMPLE_BODY));
    wrong_length.header.length = 12;
    assert_eq!(Frame::from_message(&wrong_length), Err(NetworkError::InvalidMessageContents));

    // Query code 7 behind a good checksum.
    let mut body = SAMPLE_BODY;
    body[0] = 7;
    body[10] = 22;
    let no_query = Message::new(2, 3, &buffer(&body));
    assert_eq!(Frame::from_message(&no_query), Err(NetworkError::InvalidMessageContents));
}

#[test]
fn message_with_a_bad_checksum() {
    let mut body = SAMPLE_BODY;
    body[10] = 18;
    assert_eq!(
        Frame::from_message(&Message::new(2, 3, &buffer(&body))),
        Err(NetworkError::ChecksumFailure)
    );
    let mut body = SAMPLE_BODY;
    body[4] ^= 0x10;
    assert_eq!(
        Frame::from_message(&Message::new(2, 3, &buffer(&body))),
        Err(NetworkError::ChecksumFailure)
    );
}

#[test]
fn next_hop_takes_the_port_that_comes_nearest() {
    let origin = NetworkId { x: 0, y: 0, uid: 1 };
    let to = |x, y| NetworkId { x, y, uid: 0 };
    assert_eq!(next_hop(origin, to(0, 0)), None);
    assert_eq!(next_hop(origin, to(3, 0)), Some(HardPort::PORT_E));
    assert_eq!(next_hop(origin, to(-1, 0)), Some(HardPort::PORT_C));
    assert_eq!(next_hop(origin, to(0, 5)), Some(HardPort::PORT_A));
    assert_eq!(next_hop(origin, to(0, -2)), Some(HardPort::PORT_F));
    assert_eq!(next_hop(origin, to(2, 2)), Some(HardPort::PORT_B));
    assert_eq!(next_hop(origin, to(-3, 4)), Some(HardPort::PORT_D));
    // Ports E and F leave the same distance; E has the lower rank.
    assert_eq!(next_hop(origin, to(1, -1)), Some(HardPort::PORT_E));
}

#[test]
fn next_hop_works_at_the_edge_of_the_grid() {
    let corner = NetworkId { x: i16::MAX, y: i16::MAX, uid: 1 };
    let far = NetworkId { x: i16::MIN, y: i16::MIN, uid: 2 };
    assert_eq!(next_hop(corner, far), Some(HardPort::PORT_C));
    assert_eq!(next_hop(far, corner), Some(HardPort::PORT_B));
}

#[test]
fn following_next_hop_reaches_the_target() {
    let target = NetworkId { x: -7, y: 4, uid: 0 };
    let mut at = NetworkId { x: 5, y: -3, uid: 0 };
    let mut hops = 0;
    while let Some(port) = next_hop(at, target) {
        at = at.compute_external_id(port);
        hops += 1;
        assert!(hops <= 19);
    }
    assert_eq!((at.x, at.y), (target.x, target.y));
}

#[test]
fn message_queue_is_first_in_first_out() {
    let mut queue = MessageQueueFSM::new();
    assert_eq!(queue.len(), 0);
    assert!(matches!(queue.dequeue(), Err(GenError::EmptyQueueError)));
    for port in 0..3 {
        assert!(queue.enqueue(Message::new(port, 0, &buffer(&[port, 9]))).is_ok());
    }
    assert_eq!(queue.len(), 3);
    for port in 0..3 {
        let message = queue.dequeue().ok().unwrap();
        assert_eq!(message.header, MessageHeader { port, status: 0, length: 2 });
        assert_eq!(message.body.as_slice(), &[port, 9]);
    }
    assert!(matches!(queue.dequeue(), Err(GenError::EmptyQueueError)));
}

#[test]
fn full_message_queue_hands_the_message_back_and_counts_it() {
    let mut queue = MessageQueueFSM::new();
    for port in 0..MAX_QUEUED_MESSAGES as u8 {
        assert!(queue.enqueue(Message::new(port, 1, &buffer(&[port]))).is_ok());
    }
    assert_eq!(queue.len(), MAX_QUEUED_MESSAGES);
    assert_eq!(queue.dropped_count(), 0);
    let back = queue.enqueue(Message::new(99, 1, &buffer(&[1, 2, 3]))).err().unwrap();
    assert_eq!(back.header.port, 99);
    assert_eq!(back.body.as_slice(), &[1, 2, 3]);
    assert_eq!(queue.dropped_count(), 1);
    assert_eq!(queue.len(), MAX_QUEUED_MESSAGES);
    // What waited before is all there, oldest first.
    for port in 0..MAX_QUEUED_MESSAGES as u8 {
        assert_eq!(queue.dequeue().ok().unwrap().header.port, port);
    }
}
