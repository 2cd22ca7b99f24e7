use ros_tunnel::framing::{
    encode_frame, encode_header, encode_message, frame_length, recv_header, recv_message,
    split_frame, FrameError, DEFAULT_CEILING,
};
use ros_tunnel::message::{Header, Message};

fn pattern(length: usize) -> Vec<u8> {
    (0..length).map(|b| (b % 0xFF) as u8).collect()
}

#[test]
fn message_framing() {
    // Testing up to a 4kb payload.
    const NUM_STEPS: usize = 16;
    const STEP_LENGTH: usize = 0x256;

    let mut pipe: Vec<u8> = Vec::new();
    let mut buffer = Vec::new();

    for i in 0..NUM_STEPS {
        let length = i * STEP_LENGTH;
        let payload: Vec<u8> = pattern(length);

        let serialized = bincode::serialize(&payload).unwrap();
        encode_frame(&mut buffer, &serialized).unwrap();
        pipe.extend_from_slice(&buffer);

        let end = split_frame(&pipe, DEFAULT_CEILING).unwrap().unwrap();
        let result: Vec<u8> = bincode::deserialize(&pipe[4..end]).unwrap();
        pipe.drain(..end);

        assert_eq!(payload, result);
    }
    assert!(pipe.is_empty());
}

#[test]
fn main_message_framing() {
    const NUM_STEPS: usize = 16;
    const STEP_LENGTH: usize = 0x256;

    let mut there: Vec<u8> = Vec::new();
    let mut back: Vec<u8> = Vec::new();
    let mut buffer = Vec::new();

    for i in 0..NUM_STEPS {
        let length = i * STEP_LENGTH;
        let message = Message::PublishToTopic { name: "/t".to_string(), payload: pattern(length) };

        encode_message(&mut buffer, &message).unwrap();
        there.extend_from_slice(&buffer);
        let (received, end) = recv_message(&there, DEFAULT_CEILING).unwrap().unwrap();
        there.drain(..end);
        assert_eq!(message, received);

        encode_message(&mut buffer, &received).unwrap();
        back.extend_from_slice(&buffer);
        let (returned, end) = recv_message(&back, DEFAULT_CEILING).unwrap().unwrap();
        back.drain(..end);
        assert_eq!(message, returned);
    }
    assert!(there.is_empty());
    assert!(back.is_empty());
}

#[test]
fn frame_is_length_then_payload() {
    let mut buffer = vec![9, 9, 9];
    encode_frame(&mut buffer, &[0xAA, 0xBB, 0xCC]).unwrap();
    assert_eq!(buffer, vec![3, 0, 0, 0, 0xAA, 0xBB, 0xCC]);

    encode_frame(&mut buffer, &[]).unwrap();
    assert_eq!(buffer, vec![0, 0, 0, 0]);

    let long = vec![7u8; 0x0102_03];
    encode_frame(&mut buffer, &long).unwrap();
    assert_eq!(&buffer[..4], &[0x03, 0x02, 0x01, 0x00]);
    assert_eq!(buffer.len(), 4 + long.len());
}

#[test]
fn hangup_frame_bytes() {
    let mut buffer = Vec::new();
    encode_message(&mut buffer, &Message::Hangup).unwrap();
    assert_eq!(buffer, vec![4, 0, 0, 0, 1, 0, 0, 0]);
}

#[test]
fn header_frame_bytes() {
    let mut buffer = vec![1, 2, 3];
    encode_header(&mut buffer, &Header { version: 0 });
    assert_eq!(buffer, vec![2, 0, 0, 0, 0, 0]);
    encode_header(&mut buffer, &Header { version: 0x1234 });
    assert_eq!(buffer, vec![2, 0, 0, 0, 0x34, 0x12]);
    assert_eq!(
        recv_header(&buffer, DEFAULT_CEILING),
        Ok(Some((Header { version: 0x1234 }, 6)))
    );
}

#[test]
fn message_bytes_are_those_of_bincode() {
    let cases: Vec<(Message, Vec<u8>)> = vec![
        (
            Message::FatalError { message: "Remote version incompatible.".to_string() },
            bincode::serialize(&(0u32, "Remote version incompatible.")).unwrap(),
        ),
        (Message::Hangup, bincode::serialize(&1u32).unwrap()),
        (
            Message::NewTopic { name: "/chat".to_string(), message_type: "Text".to_string() },
            bincode::serialize(&(2u32, "/chat", "Text")).unwrap(),
        ),
        (
            Message::SetTopicSubscribed { name: "/chat".to_string(), subscribed: true },
            bincode::serialize(&(3u32, "/chat", true)).unwrap(),
        ),
        (
            Message::SetTopicSubscribed { name: "/ünï".to_string(), subscribed: false },
            bincode::serialize(&(3u32, "/ünï", false)).unwrap(),
        ),
        (
            Message::DeletedTopic { name: "/a".to_string() },
            bincode::serialize(&(4u32, "/a")).unwrap(),
        ),
        (
            Message::PublishToTopic { name: "/chat".to_string(), payload: vec![1, 2, 3] },
            bincode::serialize(&(5u32, "/chat", vec![1u8, 2, 3])).unwrap(),
        ),
    ];
    for (message, expected) in cases {
        let mut bytes = Vec::new();
        message.encode(&mut bytes);
        assert_eq!(bytes, expected);
        assert_eq!(Message::decode(&expected), Some(message));
    }
}

#[test]
fn new_topic_exact_bytes() {
    let mut bytes = Vec::new();
    Message::NewTopic { name: "/a".to_string(), message_type: "T".to_string() }.encode(&mut bytes);
    assert_eq!(
        bytes,
        vec![
            2, 0, 0, 0, // tag
            2, 0, 0, 0, 0, 0, 0, 0, b'/', b'a', // name
            1, 0, 0, 0, 0, 0, 0, 0, b'T', // type
        ]
    );
}

#[test]
fn header_bytes_are_those_of_bincode() {
    let mut bytes = Vec::new();
    Header { version: 0xBEEF }.encode(&mut bytes);
    assert_eq!(bytes, bincode::serialize(&0xBEEFu16).unwrap());
    assert_eq!(Header::decode(&bytes), Some(Header { version: 0xBEEF }));
    assert_eq!(Header::decode(&[1]), None);
}

#[test]
fn malformed_payloads_are_refused() {
    // Unknown tag.
    assert_eq!(Message::decode(&[6, 0, 0, 0]), None);
    // Tag cut short.
    assert_eq!(Message::decode(&[1, 0, 0]), None);
    // Text longer than what is left.
    assert_eq!(Message::decode(&[4, 0, 0, 0, 5, 0, 0, 0, 0, 0, 0, 0, b'a']), None);
    // Text that is not UTF-8.
    assert_eq!(Message::decode(&[4, 0, 0, 0, 1, 0, 0, 0, 0, 0, 0, 0, 0xFF]), None);
    // A boolean that is neither 0 nor 1.
    assert_eq!(Message::decode(&[3, 0, 0, 0, 1, 0, 0, 0, 0, 0, 0, 0, b'a', 2]), None);
    // A length that no buffer can hold.
    assert_eq!(Message::decode(&[4, 0, 0, 0, 0xFF, 0xFF, 0xFF, 0xFF, 0xFF, 0xFF, 0xFF, 0xFF]), None);

    let mut frame = Vec::new();
    encode_frame(&mut frame, &[6, 0, 0, 0]).unwrap();
    assert_eq!(recv_message(&frame, DEFAULT_CEILING), Err(FrameError::Malformed));
    encode_frame(&mut frame, &[1]).unwrap();
    assert_eq!(recv_header(&frame, DEFAULT_CEILING), Err(FrameError::Malformed));
}

#[test]
fn trailing_bytes_in_a_payload_are_ignored() {
    assert_eq!(Message::decode(&[1, 0, 0, 0, 42, 42]), Some(Message::Hangup));
}

#[test]
fn oversize_frame_is_rejected_from_its_length_alone() {
    // A frame that declares 2^31 bytes, of which none is at hand.
    let declared: u32 = 1 << 31;
    let prefix = declared.to_le_bytes();
    assert_eq!(
        frame_length(&prefix, DEFAULT_CEILING),
        Err(FrameError::Oversize { declared })
    );
    assert_eq!(split_frame(&prefix, DEFAULT_CEILING), Err(FrameError::Oversize { declared }));
    assert_eq!(recv_message(&prefix, DEFAULT_CEILING), Err(FrameError::Oversize { declared }));

    // The ceiling itself is accepted, one more is not.
    assert_eq!(
        frame_length(&DEFAULT_CEILING.to_le_bytes(), DEFAULT_CEILING),
        Ok(Some(16 * 1024 * 1024))
    );
    assert_eq!(
        frame_length(&(DEFAULT_CEILING + 1).to_le_bytes(), DEFAULT_CEILING),
        Err(FrameError::Oversize { declared: DEFAULT_CEILING + 1 })
    );
    // The ceiling can be set.
    assert_eq!(frame_length(&[5, 0, 0, 0], 4), Err(FrameError::Oversize { declared: 5 }));
    assert_eq!(frame_length(&[4, 0, 0, 0], 4), Ok(Some(4)));
}

#[test]
fn short_input_is_incomplete() {
    assert_eq!(frame_length(&[], DEFAULT_CEILING), Ok(None));
    assert_eq!(frame_length(&[1, 0, 0], DEFAULT_CEILING), Ok(None));
    assert_eq!(split_frame(&[2, 0, 0, 0, 7], DEFAULT_CEILING), Ok(None));
    assert_eq!(split_frame(&[2, 0, 0, 0, 7, 8], DEFAULT_CEILING), Ok(Some(6)));
    assert_eq!(recv_message(&[4, 0, 0, 0, 1, 0, 0], DEFAULT_CEILING), Ok(None));
}

#[test]
fn burst_of_frames_keeps_order() {
    let mut pipe: Vec<u8> = Vec::new();
    let mut buffer = Vec::new();
    for i in 0..1000u32 {
        let message =
            Message::PublishToTopic { name: "/t".to_string(), payload: i.to_be_bytes().to_vec() };
        encode_message(&mut buffer, &message).unwrap();
        pipe.extend_from_slice(&buffer);
    }
    let mut at = 0;
    for i in 0..1000u32 {
        let (message, end) = recv_message(&pipe[at..], DEFAULT_CEILING).unwrap().unwrap();
        assert_eq!(
            message,
            Message::PublishToTopic { name: "/t".to_string(), payload: i.to_be_bytes().to_vec() }
        );
        at += end;
    }
    assert_eq!(at, pipe.len());
    assert_eq!(recv_message(&pipe[at..], DEFAULT_CEILING), Ok(None));
}
