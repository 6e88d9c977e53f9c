use funcan_rs::machine::{Final, MachineTrans};
use funcan_rs::raw::{CANFrame, CANFrameMachine};

#[test]
fn test_raw_can_frame_parsing() {
    let frame = [
        0x02, 0x07, 0x00, 0x00, // cobid
        0x01, 0x00, 0x00, 0x00, // length with padding
        0x7f, 0x00, 0x00, 0x00, 0x00, 0x00, 0x00, 0x00, // data
    ];

    let mut parser = CANFrameMachine::default();

    for x in frame {
        parser.transit(x);
    }

    let result = parser.observe().is_final().unwrap();

    assert_eq!(result.can_cobid, 0x702);
    assert_eq!(result.can_len, 1);
    assert_eq!(result.can_data[0], 0x7f);
}

#[test]
fn test_raw_can_frame_decode_encode() {
    let frame0: [u8; 16] = [
        0x02, 0x07, 0x00, 0x00, // cobid
        0x08, 0x00, 0x00, 0x00, // length with padding
        0x7f, 0x7e, 0x7d, 0x7c, 0x00, 0x01, 0x02, 0x03, // data
    ];

    let mut frame1 = vec![0u8; 16];

    let mut parser = CANFrameMachine::default();

    for x in frame0 {
        parser.transit(x);
    }

    let can_frame = parser.observe().is_final().unwrap();

    can_frame.write_to_slice(&mut frame1);

    assert_eq!(frame0.to_vec(), frame1);
}

#[test]
fn test_serialization_deserialization() {
    let frame = CANFrame {
        can_cobid: 0x12345678,
        can_len: 8,
        can_data: [0xAA, 0xBB, 0xCC, 0xDD, 0xEE, 0xFF, 0x00, 0x11],
    };

    let mut buffer = vec![0u8; 16];
    frame.write_to_slice(&mut buffer);

    let deserialized_frame = CANFrame::read_from_slice(&buffer);

    assert_eq!(frame, deserialized_frame);
}
